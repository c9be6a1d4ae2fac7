//! The operations on expenses.
//!
//! Each operation starts with a statement; every outcome of a statement is
//! handed to `resume`, which gives the next statement or the operation's
//! result. A database error ends every operation with that error.
use vstd::prelude::*;
use rust_decimal::Decimal;
use crate::db::{answers, is_query, query1, query2, runs, well_formed, ExpenseRow, OwnerRow, Param, Query, QueryKind, Reply, Step, UserRow};
use crate::models::{Expense, Tag, User};

verus! {

/// What a client sends to create or change an expense: the owner, the amount,
/// the description and the ids of the tags to attach.
#[derive(Debug, Clone)]
pub struct CreateExpense {
    pub user_id: i32,
    pub amount: Decimal,
    pub description: String,
    pub tags: Vec<i32>,
}

/// The user of a row of the `users` table, with its password hidden.
pub open spec fn user_from(row: UserRow) -> User {
    User {
        user_id: row.user_id,
        display_name: row.display_name,
        email: row.email,
        password: None,
        creation_time: row.creation_time,
    }
}

/// `e` is the expense of `row`, owned by `user`, with the tags `tags`.
pub open spec fn expense_from(e: Expense, row: ExpenseRow, tags: Seq<Tag>, user: UserRow) -> bool {
    &&& e.expense_id == row.expense_id
    &&& e.user == user_from(user)
    &&& e.amount == row.amount
    &&& e.description == row.description
    &&& e.expense_time == row.expense_time
    &&& e.tags@ == tags
}

/// `v` holds, in order, the expense of each row with the tags fetched for it,
/// each owned by `user`.
pub open spec fn assembled(v: Seq<Expense>, rows: Seq<ExpenseRow>, tags: Seq<Vec<Tag>>, user: UserRow) -> bool {
    &&& v.len() == rows.len()
    &&& forall|i: int| 0 <= i < v.len() ==> expense_from(#[trigger] v[i], rows[i], tags[i]@, user)
}

fn user_of_row(row: &UserRow) -> (res: User)
    ensures
        res == user_from(*row),
{
    User {
        user_id: row.user_id,
        display_name: row.display_name.clone(),
        email: row.email.clone(),
        password: None,
        creation_time: row.creation_time,
    }
}

fn copy_tags(tags: &Vec<Tag>) -> (res: Vec<Tag>)
    ensures
        res@ == tags@,
{
    let mut res: Vec<Tag> = Vec::new();
    let mut i: usize = 0;
    while i < tags.len()
        invariant
            i <= tags.len(),
            res@ == tags@.subrange(0, i as int),
        decreases tags.len() - i,
    {
        res.push(tags[i].clone());
        i = i + 1;
        assert(res@ =~= tags@.subrange(0, i as int));
    }
    assert(tags@.subrange(0, tags@.len() as int) =~= tags@);
    res
}

fn expense_of_row(row: ExpenseRow, tags: Vec<Tag>, user: &UserRow) -> (res: Expense)
    ensures
        expense_from(res, row, tags@, *user),
{
    Expense {
        expense_id: row.expense_id,
        user: user_of_row(user),
        amount: row.amount,
        description: row.description,
        expense_time: row.expense_time,
        tags,
    }
}

fn assemble(rows: &Vec<ExpenseRow>, tags: &Vec<Vec<Tag>>, user: &UserRow) -> (res: Vec<Expense>)
    requires
        rows@.len() == tags@.len(),
    ensures
        assembled(res@, rows@, tags@, *user),
{
    let mut res: Vec<Expense> = Vec::new();
    let mut i: usize = 0;
    while i < rows.len()
        invariant
            i <= rows@.len(),
            rows@.len() == tags@.len(),
            res@.len() == i,
            forall|j: int| 0 <= j < i ==> expense_from(#[trigger] res@[j], rows@[j], tags@[j]@, *user),
        decreases rows.len() - i,
    {
        let row = &rows[i];
        let e = Expense {
            expense_id: row.expense_id,
            user: user_of_row(user),
            amount: row.amount,
            description: row.description.clone(),
            expense_time: row.expense_time,
            tags: copy_tags(&tags[i]),
        };
        res.push(e);
        i = i + 1;
    }
    res
}

/// All expenses of a user: the user's expenses, then the tags of each expense
/// in turn, then the user.
pub enum GetAll {
    AwaitingExpenses { user_id: i32 },
    AwaitingTags { user_id: i32, rows: Vec<ExpenseRow>, tags: Vec<Vec<Tag>> },
    AwaitingUser { user_id: i32, rows: Vec<ExpenseRow>, tags: Vec<Vec<Tag>> },
    Finished,
}

impl GetAll {
    /// Tags are fetched for the rows in order, one statement each.
    pub open spec fn inv(self) -> bool {
        match self {
            GetAll::AwaitingTags { rows, tags, .. } => tags@.len() < rows@.len(),
            GetAll::AwaitingUser { rows, tags, .. } => tags@.len() == rows@.len(),
            _ => true,
        }
    }

    /// The statement whose outcome the operation waits for.
    pub open spec fn awaiting(self) -> Option<QueryKind> {
        match self {
            GetAll::AwaitingExpenses { .. } => Some(QueryKind::ExpensesOfUser),
            GetAll::AwaitingTags { .. } => Some(QueryKind::TagsOfExpense),
            GetAll::AwaitingUser { .. } => Some(QueryKind::UserById),
            GetAll::Finished => None,
        }
    }

    /// Once the tags of the first `tags.len()` rows are known: the tags of the
    /// next row, or the user when every row has its tags.
    pub open spec fn after_tags(
        user_id: i32,
        rows: Seq<ExpenseRow>,
        tags: Seq<Vec<Tag>>,
        post: Self,
        step: Step<Vec<Expense>>,
    ) -> bool {
        if tags.len() < rows.len() {
            &&& post matches GetAll::AwaitingTags { user_id: u, rows: r, tags: t }
                && u == user_id && r@ == rows && t@ == tags
            &&& runs(step, QueryKind::TagsOfExpense, seq![Param::Int(rows[tags.len() as int].expense_id)])
        } else {
            &&& post matches GetAll::AwaitingUser { user_id: u, rows: r, tags: t }
                && u == user_id && r@ == rows && t@ == tags
            &&& runs(step, QueryKind::UserById, seq![Param::Int(user_id)])
        }
    }

    /// What the operation does with the outcome of the statement it waits for.
    pub open spec fn next(self, outcome: Result<Reply, sqlx::Error>, post: Self, step: Step<Vec<Expense>>) -> bool {
        match outcome {
            Err(e) => post is Finished && step == Step::<Vec<Expense>>::Done(Err(e)),
            Ok(reply) => match (self, reply) {
                (GetAll::AwaitingExpenses { user_id }, Reply::Expenses(rows)) =>
                    Self::after_tags(user_id, rows@, Seq::empty(), post, step),
                (GetAll::AwaitingTags { user_id, rows, tags }, Reply::Tags(t)) =>
                    Self::after_tags(user_id, rows@, tags@.push(t), post, step),
                (GetAll::AwaitingUser { rows, tags, .. }, Reply::User(u)) =>
                    post is Finished && (step matches Step::Done(Ok(v)) && assembled(v@, rows@, tags@, u)),
                _ => false,
            },
        }
    }

    /// Starts with the expenses of `user_id`.
    pub fn start(user_id: i32) -> (res: (GetAll, Query))
        ensures
            res.0 == (GetAll::AwaitingExpenses { user_id }),
            res.0.awaiting() == Some(res.1.kind),
            is_query(res.1, QueryKind::ExpensesOfUser, seq![Param::Int(user_id)]),
            well_formed(res.1),
    {
        (GetAll::AwaitingExpenses { user_id }, query1(QueryKind::ExpensesOfUser, user_id))
    }

    /// Takes the outcome of the statement that the operation waits for.
    pub fn resume(self, outcome: Result<Reply, sqlx::Error>) -> (res: (GetAll, Step<Vec<Expense>>))
        requires
            self.inv(),
            self.awaiting() matches Some(k) && answers(k, outcome),
        ensures
            res.0.inv(),
            self.next(outcome, res.0, res.1),
            res.1 matches Step::Run(q) ==> res.0.awaiting() == Some(q.kind) && well_formed(q),
            res.1 is Done ==> res.0 is Finished,
    {
        let reply = match outcome {
            Err(e) => return (GetAll::Finished, Step::Done(Err(e))),
            Ok(reply) => reply,
        };
        match (self, reply) {
            (GetAll::AwaitingExpenses { user_id }, Reply::Expenses(rows)) => {
                let tags: Vec<Vec<Tag>> = Vec::new();
                Self::ask_next(user_id, rows, tags)
            },
            (GetAll::AwaitingTags { user_id, rows, mut tags }, Reply::Tags(t)) => {
                tags.push(t);
                Self::ask_next(user_id, rows, tags)
            },
            (GetAll::AwaitingUser { rows, tags, .. }, Reply::User(u)) => {
                let v = assemble(&rows, &tags, &u);
                (GetAll::Finished, Step::Done(Ok(v)))
            },
            _ => {
                assert(false);
                (GetAll::Finished, Step::Done(Ok(Vec::new())))
            },
        }
    }

    fn ask_next(user_id: i32, rows: Vec<ExpenseRow>, tags: Vec<Vec<Tag>>) -> (res: (GetAll, Step<Vec<Expense>>))
        requires
            tags@.len() <= rows@.len(),
        ensures
            res.0.inv(),
            Self::after_tags(user_id, rows@, tags@, res.0, res.1),
            res.1 matches Step::Run(q) ==> res.0.awaiting() == Some(q.kind) && well_formed(q),
    {
        if tags.len() < rows.len() {
            let q = query1(QueryKind::TagsOfExpense, rows[tags.len()].expense_id);
            (GetAll::AwaitingTags { user_id, rows, tags }, Step::Run(q))
        } else {
            (GetAll::AwaitingUser { user_id, rows, tags }, Step::Run(query1(QueryKind::UserById, user_id)))
        }
    }
}

/// One expense: the expense, then its tags, then its owner.
pub enum GetById {
    AwaitingExpense { expense_id: i32 },
    AwaitingTags { expense_id: i32, row: ExpenseRow },
    AwaitingUser { row: ExpenseRow, tags: Vec<Tag> },
    Finished,
}

impl GetById {
    /// The statement whose outcome the operation waits for.
    pub open spec fn awaiting(self) -> Option<QueryKind> {
        match self {
            GetById::AwaitingExpense { .. } => Some(QueryKind::ExpenseById),
            GetById::AwaitingTags { .. } => Some(QueryKind::TagsOfExpense),
            GetById::AwaitingUser { .. } => Some(QueryKind::UserById),
            GetById::Finished => None,
        }
    }

    /// What the operation does with the outcome of the statement it waits for.
    pub open spec fn next(self, outcome: Result<Reply, sqlx::Error>, post: Self, step: Step<Expense>) -> bool {
        match outcome {
            Err(e) => post is Finished && step == Step::<Expense>::Done(Err(e)),
            Ok(reply) => match (self, reply) {
                (GetById::AwaitingExpense { expense_id }, Reply::Expense(row)) =>
                    post == (GetById::AwaitingTags { expense_id, row })
                    && runs(step, QueryKind::TagsOfExpense, seq![Param::Int(expense_id)]),
                (GetById::AwaitingTags { row, .. }, Reply::Tags(t)) =>
                    post == (GetById::AwaitingUser { row, tags: t })
                    && runs(step, QueryKind::UserById, seq![Param::Int(row.user_id)]),
                (GetById::AwaitingUser { row, tags }, Reply::User(u)) =>
                    post is Finished && (step matches Step::Done(Ok(e)) && expense_from(e, row, tags@, u)),
                _ => false,
            },
        }
    }

    /// Starts with the expense `expense_id`.
    pub fn start(expense_id: i32) -> (res: (GetById, Query))
        ensures
            res.0 == (GetById::AwaitingExpense { expense_id }),
            res.0.awaiting() == Some(res.1.kind),
            is_query(res.1, QueryKind::ExpenseById, seq![Param::Int(expense_id)]),
            well_formed(res.1),
    {
        (GetById::AwaitingExpense { expense_id }, query1(QueryKind::ExpenseById, expense_id))
    }

    /// Takes the outcome of the statement that the operation waits for.
    pub fn resume(self, outcome: Result<Reply, sqlx::Error>) -> (res: (GetById, Step<Expense>))
        requires
            self.awaiting() matches Some(k) && answers(k, outcome),
        ensures
            self.next(outcome, res.0, res.1),
            res.1 matches Step::Run(q) ==> res.0.awaiting() == Some(q.kind) && well_formed(q),
            res.1 is Done ==> res.0 is Finished,
    {
        let reply = match outcome {
            Err(e) => return (GetById::Finished, Step::Done(Err(e))),
            Ok(reply) => reply,
        };
        match (self, reply) {
            (GetById::AwaitingExpense { expense_id }, Reply::Expense(row)) => {
                (GetById::AwaitingTags { expense_id, row }, Step::Run(query1(QueryKind::TagsOfExpense, expense_id)))
            },
            (GetById::AwaitingTags { row, .. }, Reply::Tags(tags)) => {
                let q = query1(QueryKind::UserById, row.user_id);
                (GetById::AwaitingUser { row, tags }, Step::Run(q))
            },
            (GetById::AwaitingUser { row, tags }, Reply::User(u)) => {
                (GetById::Finished, Step::Done(Ok(expense_of_row(row, tags, &u))))
            },
            _ => {
                assert(false);
                (GetById::Finished, Step::Run(query1(QueryKind::ExpenseById, 0)))
            },
        }
    }
}

/// One expense of a user: first whether the expense belongs to the user; if it
/// does, the same statements as `GetById`, with the expense found wrapped in
/// `Some`; if not, `None` and no other statement.
pub enum GetByIdChecked {
    AwaitingOwner { expense_id: i32, user_id: i32 },
    Loading { inner: GetById },
    Finished,
}

impl GetByIdChecked {
    /// While loading, the inner operation waits for a statement.
    pub open spec fn inv(self) -> bool {
        self matches GetByIdChecked::Loading { inner } ==> inner.awaiting() is Some
    }

    /// The statement whose outcome the operation waits for.
    pub open spec fn awaiting(self) -> Option<QueryKind> {
        match self {
            GetByIdChecked::AwaitingOwner { .. } => Some(QueryKind::ExpenseOfUser),
            GetByIdChecked::Loading { inner } => inner.awaiting(),
            GetByIdChecked::Finished => None,
        }
    }

    /// How a step of `GetById` shows in this operation.
    pub open spec fn lifted(inner_post: GetById, inner_step: Step<Expense>, post: Self, step: Step<Option<Expense>>) -> bool {
        match inner_step {
            Step::Run(q) => post == (GetByIdChecked::Loading { inner: inner_post }) && step == Step::<Option<Expense>>::Run(q),
            Step::Done(Ok(e)) => post is Finished && step == Step::<Option<Expense>>::Done(Ok(Some(e))),
            Step::Done(Err(x)) => post is Finished && step == Step::<Option<Expense>>::Done(Err(x)),
        }
    }

    /// What the operation does with the outcome of the statement it waits for.
    pub open spec fn next(self, outcome: Result<Reply, sqlx::Error>, post: Self, step: Step<Option<Expense>>) -> bool {
        match self {
            GetByIdChecked::AwaitingOwner { expense_id, .. } => match outcome {
                Err(e) => post is Finished && step == Step::<Option<Expense>>::Done(Err(e)),
                Ok(Reply::Owner(None)) => post is Finished && step == Step::<Option<Expense>>::Done(Ok(None)),
                Ok(Reply::Owner(Some(_))) =>
                    post == (GetByIdChecked::Loading { inner: GetById::AwaitingExpense { expense_id } })
                    && runs(step, QueryKind::ExpenseById, seq![Param::Int(expense_id)]),
                _ => false,
            },
            GetByIdChecked::Loading { inner } =>
                exists|inner_post: GetById, inner_step: Step<Expense>|
                    #![trigger inner.next(outcome, inner_post, inner_step)]
                    inner.next(outcome, inner_post, inner_step) && Self::lifted(inner_post, inner_step, post, step),
            GetByIdChecked::Finished => false,
        }
    }

    /// Starts with the check that expense `expense_id` belongs to `user_id`.
    pub fn start(expense_id: i32, user_id: i32) -> (res: (GetByIdChecked, Query))
        ensures
            res.0 == (GetByIdChecked::AwaitingOwner { expense_id, user_id }),
            res.0.awaiting() == Some(res.1.kind),
            is_query(res.1, QueryKind::ExpenseOfUser, seq![Param::Int(expense_id), Param::Int(user_id)]),
            well_formed(res.1),
    {
        (GetByIdChecked::AwaitingOwner { expense_id, user_id }, query2(QueryKind::ExpenseOfUser, expense_id, user_id))
    }

    /// Takes the outcome of the statement that the operation waits for.
    pub fn resume(self, outcome: Result<Reply, sqlx::Error>) -> (res: (GetByIdChecked, Step<Option<Expense>>))
        requires
            self.inv(),
            self.awaiting() matches Some(k) && answers(k, outcome),
        ensures
            res.0.inv(),
            self.next(outcome, res.0, res.1),
            res.1 matches Step::Run(q) ==> res.0.awaiting() == Some(q.kind) && well_formed(q),
            res.1 is Done ==> res.0 is Finished,
    {
        match self {
            GetByIdChecked::AwaitingOwner { expense_id, .. } => match outcome {
                Err(e) => (GetByIdChecked::Finished, Step::Done(Err(e))),
                Ok(Reply::Owner(None)) => (GetByIdChecked::Finished, Step::Done(Ok(None))),
                Ok(_) => {
                    let (inner, q) = GetById::start(expense_id);
                    (GetByIdChecked::Loading { inner }, Step::Run(q))
                },
            },
            GetByIdChecked::Loading { inner } => {
                let ghost before = inner;
                let (inner_post, inner_step) = inner.resume(outcome);
                let ghost inner_step_g = inner_step;
                let res = match inner_step {
                    Step::Run(q) => (GetByIdChecked::Loading { inner: inner_post }, Step::Run(q)),
                    Step::Done(Ok(e)) => (GetByIdChecked::Finished, Step::Done(Ok(Some(e)))),
                    Step::Done(Err(x)) => (GetByIdChecked::Finished, Step::Done(Err(x))),
                };
                assert(before.next(outcome, inner_post, inner_step_g) && Self::lifted(inner_post, inner_step_g, res.0, res.1));
                res
            },
            GetByIdChecked::Finished => {
                assert(false);
                (GetByIdChecked::Finished, Step::Done(Ok(None)))
            },
        }
    }
}

/// Deleting an expense of a user: one statement, which deletes the expense
/// only where it belongs to the user.
pub fn delete_by_id_checked_query(expense_id: i32, user_id: i32) -> (q: Query)
    ensures
        is_query(q, QueryKind::DeleteExpense, seq![Param::Int(expense_id), Param::Int(user_id)]),
        well_formed(q),
{
    query2(QueryKind::DeleteExpense, expense_id, user_id)
}

/// Creating an expense: the expense, then one link for each tag id, in order.
/// The result is the id of the new expense.
pub enum Create {
    AwaitingId { tags: Vec<i32> },
    Linking { expense_id: i32, tags: Vec<i32>, linked: usize },
    Finished,
}

impl Create {
    /// Links are made for the tags in order, one statement each.
    pub open spec fn inv(self) -> bool {
        self matches Create::Linking { tags, linked, .. } ==> linked < tags@.len()
    }

    /// The statement whose outcome the operation waits for.
    pub open spec fn awaiting(self) -> Option<QueryKind> {
        match self {
            Create::AwaitingId { .. } => Some(QueryKind::InsertExpense),
            Create::Linking { .. } => Some(QueryKind::InsertExpenseTag),
            Create::Finished => None,
        }
    }

    /// Once the first `linked` tags are linked to `expense_id`: the link of the
    /// next tag, or the id when every tag is linked.
    pub open spec fn link_from(expense_id: i32, tags: Seq<i32>, linked: int, post: Self, step: Step<i32>) -> bool {
        if linked < tags.len() {
            &&& post matches Create::Linking { expense_id: x, tags: t, linked: l }
                && x == expense_id && t@ == tags && l == linked
            &&& runs(step, QueryKind::InsertExpenseTag, seq![Param::Int(expense_id), Param::Int(tags[linked])])
        } else {
            post is Finished && step == Step::<i32>::Done(Ok(expense_id))
        }
    }

    /// What the operation does with the outcome of the statement it waits for.
    pub open spec fn next(self, outcome: Result<Reply, sqlx::Error>, post: Self, step: Step<i32>) -> bool {
        match outcome {
            Err(e) => post is Finished && step == Step::<i32>::Done(Err(e)),
            Ok(reply) => match (self, reply) {
                (Create::AwaitingId { tags }, Reply::NewId(id)) => Self::link_from(id, tags@, 0, post, step),
                (Create::Linking { expense_id, tags, linked }, Reply::Executed(_)) =>
                    Self::link_from(expense_id, tags@, linked + 1, post, step),
                _ => false,
            },
        }
    }

    /// Starts with the new expense of `expense.user_id`.
    pub fn start(expense: CreateExpense) -> (res: (Create, Query))
        ensures
            res.0 matches Create::AwaitingId { tags } && tags@ == expense.tags@,
            res.0.awaiting() == Some(res.1.kind),
            is_query(res.1, QueryKind::InsertExpense, seq![
                Param::Int(expense.user_id),
                Param::Amount(expense.amount),
                Param::Text(expense.description),
            ]),
            well_formed(res.1),
    {
        let CreateExpense { user_id, amount, description, tags } = expense;
        let mut params = Vec::new();
        params.push(Param::Int(user_id));
        params.push(Param::Amount(amount));
        params.push(Param::Text(description));
        assert(params@ =~= seq![Param::Int(user_id), Param::Amount(amount), Param::Text(description)]);
        (Create::AwaitingId { tags }, Query { kind: QueryKind::InsertExpense, params })
    }

    fn link(expense_id: i32, tags: Vec<i32>, linked: usize) -> (res: (Create, Step<i32>))
        requires
            linked <= tags@.len(),
        ensures
            res.0.inv(),
            Self::link_from(expense_id, tags@, linked as int, res.0, res.1),
            res.1 matches Step::Run(q) ==> res.0.awaiting() == Some(q.kind) && well_formed(q),
            res.1 is Done ==> res.0 is Finished,
    {
        if linked < tags.len() {
            let q = query2(QueryKind::InsertExpenseTag, expense_id, tags[linked]);
            (Create::Linking { expense_id, tags, linked }, Step::Run(q))
        } else {
            (Create::Finished, Step::Done(Ok(expense_id)))
        }
    }

    /// Takes the outcome of the statement that the operation waits for.
    pub fn resume(self, outcome: Result<Reply, sqlx::Error>) -> (res: (Create, Step<i32>))
        requires
            self.inv(),
            self.awaiting() matches Some(k) && answers(k, outcome),
        ensures
            res.0.inv(),
            self.next(outcome, res.0, res.1),
            res.1 matches Step::Run(q) ==> res.0.awaiting() == Some(q.kind) && well_formed(q),
            res.1 is Done ==> res.0 is Finished,
    {
        let reply = match outcome {
            Err(e) => return (Create::Finished, Step::Done(Err(e))),
            Ok(reply) => reply,
        };
        match (self, reply) {
            (Create::AwaitingId { tags }, Reply::NewId(id)) => Self::link(id, tags, 0),
            (Create::Linking { expense_id, tags, linked }, Reply::Executed(_)) => {
                assert(linked < tags.len());
                Self::link(expense_id, tags, linked + 1)
            },
            _ => {
                assert(false);
                (Create::Finished, Step::Done(Ok(0)))
            },
        }
    }
}

/// Changing an expense of a user: the amount and description (only where the
/// expense belongs to the user), then the removal of every tag link of the
/// expense, then one link for each tag id, in order.
pub enum UpdateByIdChecked {
    AwaitingUpdate { expense_id: i32, tags: Vec<i32> },
    AwaitingUnlink { expense_id: i32, tags: Vec<i32> },
    Linking { expense_id: i32, tags: Vec<i32>, linked: usize },
    Finished,
}

impl UpdateByIdChecked {
    /// Links are made for the tags in order, one statement each.
    pub open spec fn inv(self) -> bool {
        self matches UpdateByIdChecked::Linking { tags, linked, .. } ==> linked < tags@.len()
    }

    /// The statement whose outcome the operation waits for.
    pub open spec fn awaiting(self) -> Option<QueryKind> {
        match self {
            UpdateByIdChecked::AwaitingUpdate { .. } => Some(QueryKind::UpdateExpense),
            UpdateByIdChecked::AwaitingUnlink { .. } => Some(QueryKind::DeleteExpenseTags),
            UpdateByIdChecked::Linking { .. } => Some(QueryKind::InsertExpenseTag),
            UpdateByIdChecked::Finished => None,
        }
    }

    /// Once the first `linked` tags are linked to `expense_id`: the link of the
    /// next tag, or the end when every tag is linked.
    pub open spec fn link_from(expense_id: i32, tags: Seq<i32>, linked: int, post: Self, step: Step<()>) -> bool {
        if linked < tags.len() {
            &&& post matches UpdateByIdChecked::Linking { expense_id: x, tags: t, linked: l }
                && x == expense_id && t@ == tags && l == linked
            &&& runs(step, QueryKind::InsertExpenseTag, seq![Param::Int(expense_id), Param::Int(tags[linked])])
        } else {
            post is Finished && step == Step::<()>::Done(Ok(()))
        }
    }

    /// What the operation does with the outcome of the statement it waits for.
    pub open spec fn next(self, outcome: Result<Reply, sqlx::Error>, post: Self, step: Step<()>) -> bool {
        match outcome {
            Err(e) => post is Finished && step == Step::<()>::Done(Err(e)),
            Ok(reply) => match (self, reply) {
                (UpdateByIdChecked::AwaitingUpdate { expense_id, tags }, Reply::Executed(_)) =>
                    post == (UpdateByIdChecked::AwaitingUnlink { expense_id, tags })
                    && runs(step, QueryKind::DeleteExpenseTags, seq![Param::Int(expense_id)]),
                (UpdateByIdChecked::AwaitingUnlink { expense_id, tags }, Reply::Executed(_)) =>
                    Self::link_from(expense_id, tags@, 0, post, step),
                (UpdateByIdChecked::Linking { expense_id, tags, linked }, Reply::Executed(_)) =>
                    Self::link_from(expense_id, tags@, linked + 1, post, step),
                _ => false,
            },
        }
    }

    /// Starts with the new amount and description of expense `expense_id`,
    /// where it belongs to `user_id`.
    pub fn start(expense: CreateExpense, expense_id: i32, user_id: i32) -> (res: (UpdateByIdChecked, Query))
        ensures
            res.0 matches UpdateByIdChecked::AwaitingUpdate { expense_id: x, tags } && x == expense_id && tags@ == expense.tags@,
            res.0.awaiting() == Some(res.1.kind),
            is_query(res.1, QueryKind::UpdateExpense, seq![
                Param::Amount(expense.amount),
                Param::Text(expense.description),
                Param::Int(expense_id),
                Param::Int(user_id),
            ]),
            well_formed(res.1),
    {
        let CreateExpense { amount, description, tags, .. } = expense;
        let mut params = Vec::new();
        params.push(Param::Amount(amount));
        params.push(Param::Text(description));
        params.push(Param::Int(expense_id));
        params.push(Param::Int(user_id));
        assert(params@ =~= seq![Param::Amount(amount), Param::Text(description), Param::Int(expense_id), Param::Int(user_id)]);
        (UpdateByIdChecked::AwaitingUpdate { expense_id, tags }, Query { kind: QueryKind::UpdateExpense, params })
    }

    fn link(expense_id: i32, tags: Vec<i32>, linked: usize) -> (res: (UpdateByIdChecked, Step<()>))
        requires
            linked <= tags@.len(),
        ensures
            res.0.inv(),
            Self::link_from(expense_id, tags@, linked as int, res.0, res.1),
            res.1 matches Step::Run(q) ==> res.0.awaiting() == Some(q.kind) && well_formed(q),
            res.1 is Done ==> res.0 is Finished,
    {
        if linked < tags.len() {
            let q = query2(QueryKind::InsertExpenseTag, expense_id, tags[linked]);
            (UpdateByIdChecked::Linking { expense_id, tags, linked }, Step::Run(q))
        } else {
            (UpdateByIdChecked::Finished, Step::Done(Ok(())))
        }
    }

    /// Takes the outcome of the statement that the operation waits for.
    pub fn resume(self, outcome: Result<Reply, sqlx::Error>) -> (res: (UpdateByIdChecked, Step<()>))
        requires
            self.inv(),
            self.awaiting() matches Some(k) && answers(k, outcome),
        ensures
            res.0.inv(),
            self.next(outcome, res.0, res.1),
            res.1 matches Step::Run(q) ==> res.0.awaiting() == Some(q.kind) && well_formed(q),
            res.1 is Done ==> res.0 is Finished,
    {
        let reply = match outcome {
            Err(e) => return (UpdateByIdChecked::Finished, Step::Done(Err(e))),
            Ok(reply) => reply,
        };
        match (self, reply) {
            (UpdateByIdChecked::AwaitingUpdate { expense_id, tags }, Reply::Executed(_)) => {
                let q = query1(QueryKind::DeleteExpenseTags, expense_id);
                (UpdateByIdChecked::AwaitingUnlink { expense_id, tags }, Step::Run(q))
            },
            (UpdateByIdChecked::AwaitingUnlink { expense_id, tags }, Reply::Executed(_)) => Self::link(expense_id, tags, 0),
            (UpdateByIdChecked::Linking { expense_id, tags, linked }, Reply::Executed(_)) => {
                assert(linked < tags.len());
                Self::link(expense_id, tags, linked + 1)
            },
            _ => {
                assert(false);
                (UpdateByIdChecked::Finished, Step::Done(Ok(())))
            },
        }
    }
}

/// Once an expense is known to belong to the user, `GetByIdChecked` sends
/// exactly the statements of `GetById`, answers each database error as
/// `GetById` does, and gives the expense that `GetById` gives, in `Some`; from
/// that point on it never gives `None`.
pub proof fn checked_follows_get_by_id(
    inner: GetById,
    outcome: Result<Reply, sqlx::Error>,
    post: GetByIdChecked,
    step: Step<Option<Expense>>,
)
    requires
        (GetByIdChecked::Loading { inner }).next(outcome, post, step),
    ensures
        step matches Step::Run(q) ==> exists|p: GetById|
            #![trigger inner.next(outcome, p, Step::Run(q))]
            inner.next(outcome, p, Step::Run(q)) && post == (GetByIdChecked::Loading { inner: p }),
        step matches Step::Done(Ok(Some(e))) ==> exists|p: GetById|
            #![trigger inner.next(outcome, p, Step::Done(Ok(e)))]
            inner.next(outcome, p, Step::Done(Ok(e))),
        step matches Step::Done(Err(x)) ==> exists|p: GetById|
            #![trigger inner.next(outcome, p, Step::Done(Err(x)))]
            inner.next(outcome, p, Step::Done(Err(x))),
        !(step matches Step::Done(Ok(None))),
{
    let (p, s) = choose|p: GetById, s: Step<Expense>|
        #![trigger inner.next(outcome, p, s)]
        inner.next(outcome, p, s) && GetByIdChecked::lifted(p, s, post, step);
    assert(inner.next(outcome, p, s));
}

proof fn create_run_step(
    tags: Seq<i32>,
    id: i32,
    posts: Seq<Create>,
    steps: Seq<Step<i32>>,
    counts: Seq<u64>,
    k: int,
)
    requires
        posts.len() == tags.len() + 1,
        steps.len() == tags.len() + 1,
        counts.len() == tags.len(),
        Create::link_from(id, tags, 0, posts[0], steps[0]),
        forall|i: int| 0 <= i < tags.len() ==>
            (#[trigger] posts[i]).next(Ok(Reply::Executed(counts[i])), posts[i + 1], steps[i + 1]),
        0 <= k <= tags.len(),
    ensures
        Create::link_from(id, tags, k, posts[k], steps[k]),
    decreases k,
{
    if k > 0 {
        create_run_step(tags, id, posts, steps, counts, k - 1);
        assert(posts[k - 1].next(Ok(Reply::Executed(counts[k - 1])), posts[k], steps[k]));
    }
}

/// Creating an expense whose statements all succeed: once the expense row has
/// the id `id`, the operation links the tags of the request to `id`, one
/// statement per tag in the order given, and then gives `id`.
pub proof fn create_links_every_tag(
    tags: Vec<i32>,
    id: i32,
    posts: Seq<Create>,
    steps: Seq<Step<i32>>,
    counts: Seq<u64>,
)
    requires
        posts.len() == tags@.len() + 1,
        steps.len() == tags@.len() + 1,
        counts.len() == tags@.len(),
        (Create::AwaitingId { tags }).next(Ok(Reply::NewId(id)), posts[0], steps[0]),
        forall|i: int| 0 <= i < tags@.len() ==>
            (#[trigger] posts[i]).next(Ok(Reply::Executed(counts[i])), posts[i + 1], steps[i + 1]),
    ensures
        forall|i: int| 0 <= i < tags@.len() ==>
            runs(#[trigger] steps[i], QueryKind::InsertExpenseTag, seq![Param::Int(id), Param::Int(tags@[i])]),
        steps[tags@.len() as int] == Step::<i32>::Done(Ok(id)),
{
    assert forall|i: int| 0 <= i < tags@.len() implies
        runs(#[trigger] steps[i], QueryKind::InsertExpenseTag, seq![Param::Int(id), Param::Int(tags@[i])]) by {
        create_run_step(tags@, id, posts, steps, counts, i);
    }
    create_run_step(tags@, id, posts, steps, counts, tags@.len() as int);
}

proof fn update_run_step(
    expense_id: i32,
    tags: Seq<i32>,
    posts: Seq<UpdateByIdChecked>,
    steps: Seq<Step<()>>,
    counts: Seq<u64>,
    k: int,
)
    requires
        posts.len() == tags.len() + 2,
        steps.len() == tags.len() + 2,
        counts.len() == tags.len() + 1,
        UpdateByIdChecked::link_from(expense_id, tags, 0, posts[1], steps[1]),
        forall|i: int| 1 <= i < tags.len() + 1 ==>
            (#[trigger] posts[i]).next(Ok(Reply::Executed(counts[i])), posts[i + 1], steps[i + 1]),
        0 <= k <= tags.len(),
    ensures
        UpdateByIdChecked::link_from(expense_id, tags, k, posts[k + 1], steps[k + 1]),
    decreases k,
{
    if k > 0 {
        update_run_step(expense_id, tags, posts, steps, counts, k - 1);
        assert(posts[k].next(Ok(Reply::Executed(counts[k])), posts[k + 1], steps[k + 1]));
    }
}

/// Changing an expense whose statements all succeed: after the new amount and
/// description, the operation removes every tag link of `expense_id`, then
/// links the tags of the request to `expense_id`, one statement per tag in the
/// order given, and then gives `()`.
pub proof fn update_replaces_every_tag(
    expense_id: i32,
    tags: Vec<i32>,
    posts: Seq<UpdateByIdChecked>,
    steps: Seq<Step<()>>,
    counts: Seq<u64>,
)
    requires
        posts.len() == tags@.len() + 2,
        steps.len() == tags@.len() + 2,
        counts.len() == tags@.len() + 2,
        (UpdateByIdChecked::AwaitingUpdate { expense_id, tags }).next(Ok(Reply::Executed(counts[0])), posts[0], steps[0]),
        forall|i: int| 0 <= i < tags@.len() + 1 ==>
            (#[trigger] posts[i]).next(Ok(Reply::Executed(counts[i + 1])), posts[i + 1], steps[i + 1]),
    ensures
        runs(steps[0], QueryKind::DeleteExpenseTags, seq![Param::Int(expense_id)]),
        forall|i: int| 0 <= i < tags@.len() ==>
            runs(#[trigger] steps[i + 1], QueryKind::InsertExpenseTag, seq![Param::Int(expense_id), Param::Int(tags@[i])]),
        steps[tags@.len() + 1int] == Step::<()>::Done(Ok(())),
{
    let shifted = counts.drop_first();
    assert(posts[0].next(Ok(Reply::Executed(counts[1])), posts[1], steps[1]));
    assert forall|i: int| 1 <= i < tags@.len() + 1 implies
        (#[trigger] posts[i]).next(Ok(Reply::Executed(shifted[i])), posts[i + 1], steps[i + 1]) by {
        assert(posts[i].next(Ok(Reply::Executed(counts[i + 1])), posts[i + 1], steps[i + 1]));
    }
    assert forall|i: int| 0 <= i < tags@.len() implies
        runs(#[trigger] steps[i + 1], QueryKind::InsertExpenseTag, seq![Param::Int(expense_id), Param::Int(tags@[i])]) by {
        update_run_step(expense_id, tags@, posts, steps, shifted, i);
    }
    update_run_step(expense_id, tags@, posts, steps, shifted, tags@.len() as int);
}

proof fn get_all_run_step(
    user_id: i32,
    rows: Seq<ExpenseRow>,
    tags: Seq<Vec<Tag>>,
    posts: Seq<GetAll>,
    steps: Seq<Step<Vec<Expense>>>,
    k: int,
)
    requires
        tags.len() == rows.len(),
        posts.len() == rows.len() + 2,
        steps.len() == rows.len() + 2,
        GetAll::after_tags(user_id, rows, Seq::empty(), posts[0], steps[0]),
        forall|i: int| 0 <= i < rows.len() ==>
            (#[trigger] posts[i]).next(Ok(Reply::Tags(tags[i])), posts[i + 1], steps[i + 1]),
        0 <= k <= rows.len(),
    ensures
        GetAll::after_tags(user_id, rows, tags.take(k), posts[k], steps[k]),
    decreases k,
{
    if k > 0 {
        get_all_run_step(user_id, rows, tags, posts, steps, k - 1);
        assert(posts[k - 1].next(Ok(Reply::Tags(tags[k - 1])), posts[k], steps[k]));
        assert(tags.take(k - 1).push(tags[k - 1]) =~= tags.take(k));
    } else {
        assert(tags.take(0) =~= Seq::<Vec<Tag>>::empty());
    }
}

/// Listing the expenses of a user whose statements all succeed: with the rows
/// `rows`, the operation asks for the tags of each row in order, then for the
/// user, and gives, in order, the expense of each row with the tags fetched
/// for that row, owned by that user.
pub proof fn get_all_pairs_rows_with_tags(
    user_id: i32,
    rows: Vec<ExpenseRow>,
    tags: Seq<Vec<Tag>>,
    user: UserRow,
    posts: Seq<GetAll>,
    steps: Seq<Step<Vec<Expense>>>,
)
    requires
        tags.len() == rows@.len(),
        posts.len() == rows@.len() + 2,
        steps.len() == rows@.len() + 2,
        (GetAll::AwaitingExpenses { user_id }).next(Ok(Reply::Expenses(rows)), posts[0], steps[0]),
        forall|i: int| 0 <= i < rows@.len() ==>
            (#[trigger] posts[i]).next(Ok(Reply::Tags(tags[i])), posts[i + 1], steps[i + 1]),
        posts[rows@.len() as int].next(Ok(Reply::User(user)), posts[rows@.len() + 1int], steps[rows@.len() + 1int]),
    ensures
        forall|i: int| 0 <= i < rows@.len() ==>
            runs(#[trigger] steps[i], QueryKind::TagsOfExpense, seq![Param::Int(rows@[i].expense_id)]),
        runs(steps[rows@.len() as int], QueryKind::UserById, seq![Param::Int(user_id)]),
        steps[rows@.len() + 1int] matches Step::Done(Ok(v)) && assembled(v@, rows@, tags, user),
        forall|i: int| 0 <= i < rows@.len() ==> (#[trigger] steps[i] matches Step::Run(q)
            && q.kind == QueryKind::TagsOfExpense && q.params@ == seq![Param::Int(rows@[i].expense_id)]),
        steps[rows@.len() as int] matches Step::Run(q)
            && q.kind == QueryKind::UserById && q.params@ == seq![Param::Int(user_id)],
        steps[rows@.len() + 1int] matches Step::Done(Ok(v)) && v@.len() == rows@.len()
            && forall|i: int| 0 <= i < rows@.len() ==> {
                &&& (#[trigger] v@[i]).expense_id == rows@[i].expense_id
                &&& v@[i].amount == rows@[i].amount
                &&& v@[i].description == rows@[i].description
                &&& v@[i].expense_time == rows@[i].expense_time
                &&& v@[i].tags@ == tags[i]@
                &&& v@[i].user.user_id == user.user_id
                &&& v@[i].user.display_name == user.display_name
                &&& v@[i].user.email == user.email
                &&& v@[i].user.password is None
                &&& v@[i].user.creation_time == user.creation_time
            },
{
    let n = rows@.len() as int;
    assert forall|i: int| 0 <= i < n implies
        runs(#[trigger] steps[i], QueryKind::TagsOfExpense, seq![Param::Int(rows@[i].expense_id)]) by {
        get_all_run_step(user_id, rows@, tags, posts, steps, i);
    }
    get_all_run_step(user_id, rows@, tags, posts, steps, n);
    assert(tags.take(n) =~= tags);
}

/// Two steps that send the same statement with the same values.
pub open spec fn same_run<T, U>(a: Step<T>, b: Step<U>) -> bool {
    a matches Step::Run(qa) && (b matches Step::Run(qb) && qa.kind == qb.kind && qa.params@ == qb.params@)
}

/// Two expenses that agree on every field, the tags taken in order.
pub open spec fn same_expense(a: Expense, b: Expense) -> bool {
    &&& a.expense_id == b.expense_id
    &&& a.user == b.user
    &&& a.amount == b.amount
    &&& a.description == b.description
    &&& a.expense_time == b.expense_time
    &&& a.tags@ == b.tags@
}

/// A run of `GetByIdChecked` for `expense_id` and `user_id` whose statements all
/// succeed: the ownership check gives `owner`; where it finds a row, the
/// expense gives `row`, its tags `tags` and its owner `user`.
pub open spec fn checked_run(
    expense_id: i32,
    user_id: i32,
    owner: Option<OwnerRow>,
    row: ExpenseRow,
    tags: Vec<Tag>,
    user: UserRow,
    posts: Seq<GetByIdChecked>,
    steps: Seq<Step<Option<Expense>>>,
) -> bool {
    &&& posts.len() == 4
    &&& steps.len() == 4
    &&& (GetByIdChecked::AwaitingOwner { expense_id, user_id }).next(Ok(Reply::Owner(owner)), posts[0], steps[0])
    &&& owner is Some ==> {
        &&& posts[0].next(Ok(Reply::Expense(row)), posts[1], steps[1])
        &&& posts[1].next(Ok(Reply::Tags(tags)), posts[2], steps[2])
        &&& posts[2].next(Ok(Reply::User(user)), posts[3], steps[3])
    }
}

/// Looking up an expense for a user, where every statement succeeds. Where
/// the ownership check finds no row, the lookup gives `None` at once. Where
/// it finds one, the lookup asks for expense `expense_id`, then for the tags
/// of expense `expense_id`, then for the user who owns the expense row, and
/// gives that expense: the id, amount, description and time of its row, the
/// tags fetched, and the owner's row with the password hidden.
pub proof fn get_by_id_checked_run(
    expense_id: i32,
    user_id: i32,
    owner: Option<OwnerRow>,
    row: ExpenseRow,
    tags: Vec<Tag>,
    user: UserRow,
    posts: Seq<GetByIdChecked>,
    steps: Seq<Step<Option<Expense>>>,
)
    requires
        checked_run(expense_id, user_id, owner, row, tags, user, posts, steps),
    ensures
        owner is None ==> steps[0] == Step::<Option<Expense>>::Done(Ok(None)),
        owner is Some ==> {
            &&& runs(steps[0], QueryKind::ExpenseById, seq![Param::Int(expense_id)])
            &&& runs(steps[1], QueryKind::TagsOfExpense, seq![Param::Int(expense_id)])
            &&& runs(steps[2], QueryKind::UserById, seq![Param::Int(row.user_id)])
            &&& steps[3] matches Step::Done(Ok(Some(e))) && expense_from(e, row, tags@, user)
        },
        owner is Some ==> {
            &&& steps[0] matches Step::Run(q0) && q0.kind == QueryKind::ExpenseById
                && q0.params@ == seq![Param::Int(expense_id)]
            &&& steps[1] matches Step::Run(q1) && q1.kind == QueryKind::TagsOfExpense
                && q1.params@ == seq![Param::Int(expense_id)]
            &&& steps[2] matches Step::Run(q2) && q2.kind == QueryKind::UserById
                && q2.params@ == seq![Param::Int(row.user_id)]
            &&& steps[3] matches Step::Done(Ok(Some(e)))
                && e.expense_id == row.expense_id && e.amount == row.amount
                && e.description == row.description && e.expense_time == row.expense_time
                && e.tags@ == tags@ && e.user.user_id == user.user_id
                && e.user.display_name == user.display_name && e.user.email == user.email
                && e.user.password is None && e.user.creation_time == user.creation_time
        },
{
    if owner is Some {
        let inner0 = GetById::AwaitingExpense { expense_id };
        assert(posts[0] == (GetByIdChecked::Loading { inner: inner0 }));
        let (p1, s1) = choose|p: GetById, s: Step<Expense>| #![trigger inner0.next(Ok(Reply::Expense(row)), p, s)]
            inner0.next(Ok(Reply::Expense(row)), p, s) && GetByIdChecked::lifted(p, s, posts[1], steps[1]);
        assert(inner0.next(Ok(Reply::Expense(row)), p1, s1));
        let (p2, s2) = choose|p: GetById, s: Step<Expense>| #![trigger p1.next(Ok(Reply::Tags(tags)), p, s)]
            p1.next(Ok(Reply::Tags(tags)), p, s) && GetByIdChecked::lifted(p, s, posts[2], steps[2]);
        assert(p1.next(Ok(Reply::Tags(tags)), p2, s2));
        let (p3, s3) = choose|p: GetById, s: Step<Expense>| #![trigger p2.next(Ok(Reply::User(user)), p, s)]
            p2.next(Ok(Reply::User(user)), p, s) && GetByIdChecked::lifted(p, s, posts[3], steps[3]);
        assert(p2.next(Ok(Reply::User(user)), p3, s3));
    }
}

/// The lookup of one expense for a user sees only that user's rows. Take two
/// databases that agree on them: the ownership check finds a row in both or in
/// neither and, where it does, the expense row, the tags linked to it and the
/// user's row are the same. Then both lookups send the same statements and give
/// the same outcome: `None` in both where the check finds no row (a missing
/// expense and another user's expense alike), else the same expense.
pub proof fn get_by_id_checked_sees_only_own_rows(
    expense_id: i32,
    user_id: i32,
    owner1: Option<OwnerRow>,
    owner2: Option<OwnerRow>,
    row: ExpenseRow,
    tags1: Vec<Tag>,
    tags2: Vec<Tag>,
    user: UserRow,
    posts1: Seq<GetByIdChecked>,
    steps1: Seq<Step<Option<Expense>>>,
    posts2: Seq<GetByIdChecked>,
    steps2: Seq<Step<Option<Expense>>>,
)
    requires
        owner1 is Some <==> owner2 is Some,
        tags1@ == tags2@,
        checked_run(expense_id, user_id, owner1, row, tags1, user, posts1, steps1),
        checked_run(expense_id, user_id, owner2, row, tags2, user, posts2, steps2),
    ensures
        owner1 is None ==> steps1[0] == steps2[0] && steps1[0] == Step::<Option<Expense>>::Done(Ok(None)),
        owner1 is Some ==> {
            &&& same_run(steps1[0], steps2[0])
            &&& same_run(steps1[1], steps2[1])
            &&& same_run(steps1[2], steps2[2])
            &&& steps1[3] matches Step::Done(Ok(Some(e1)))
            &&& steps2[3] matches Step::Done(Ok(Some(e2)))
            &&& same_expense(e1, e2)
        },
{
    get_by_id_checked_run(expense_id, user_id, owner1, row, tags1, user, posts1, steps1);
    get_by_id_checked_run(expense_id, user_id, owner2, row, tags2, user, posts2, steps2);
}

/// Looking up an expense by id, where every statement succeeds: after the
/// expense row, the lookup asks for the tags of expense `expense_id`, then for
/// the user who owns the row, and gives the expense with the id, amount,
/// description and time of its row, the tags fetched, and the owner's row with
/// the password hidden.
pub proof fn get_by_id_run(
    expense_id: i32,
    row: ExpenseRow,
    tags: Vec<Tag>,
    user: UserRow,
    posts: Seq<GetById>,
    steps: Seq<Step<Expense>>,
)
    requires
        posts.len() == 3,
        steps.len() == 3,
        (GetById::AwaitingExpense { expense_id }).next(Ok(Reply::Expense(row)), posts[0], steps[0]),
        posts[0].next(Ok(Reply::Tags(tags)), posts[1], steps[1]),
        posts[1].next(Ok(Reply::User(user)), posts[2], steps[2]),
    ensures
        steps[0] matches Step::Run(q0) && q0.kind == QueryKind::TagsOfExpense && q0.params@ == seq![Param::Int(expense_id)],
        steps[1] matches Step::Run(q1) && q1.kind == QueryKind::UserById && q1.params@ == seq![Param::Int(row.user_id)],
        steps[2] matches Step::Done(Ok(e))
            && e.expense_id == row.expense_id && e.amount == row.amount
            && e.description == row.description && e.expense_time == row.expense_time
            && e.tags@ == tags@ && e.user.user_id == user.user_id
            && e.user.display_name == user.display_name && e.user.email == user.email
            && e.user.password is None && e.user.creation_time == user.creation_time,
{
}

/// A database error ends every operation on expenses, at whatever statement it
/// comes, with that very error, and nothing more is sent.
pub proof fn database_errors_end_every_operation(
    e: sqlx::Error,
    all: GetAll,
    all_post: GetAll,
    all_step: Step<Vec<Expense>>,
    one: GetById,
    one_post: GetById,
    one_step: Step<Expense>,
    checked: GetByIdChecked,
    checked_post: GetByIdChecked,
    checked_step: Step<Option<Expense>>,
    create: Create,
    create_post: Create,
    create_step: Step<i32>,
    update: UpdateByIdChecked,
    update_post: UpdateByIdChecked,
    update_step: Step<()>,
)
    ensures
        all.next(Err(e), all_post, all_step) ==> all_post is Finished && all_step == Step::<Vec<Expense>>::Done(Err(e)),
        one.next(Err(e), one_post, one_step) ==> one_post is Finished && one_step == Step::<Expense>::Done(Err(e)),
        checked.next(Err(e), checked_post, checked_step) ==>
            checked_post is Finished && checked_step == Step::<Option<Expense>>::Done(Err(e)),
        create.next(Err(e), create_post, create_step) ==> create_post is Finished && create_step == Step::<i32>::Done(Err(e)),
        update.next(Err(e), update_post, update_step) ==> update_post is Finished && update_step == Step::<()>::Done(Err(e)),
{
    if checked.next(Err(e), checked_post, checked_step) {
        if let GetByIdChecked::Loading { inner } = checked {
            let (p, s) = choose|p: GetById, s: Step<Expense>| #![trigger inner.next(Err(e), p, s)]
                inner.next(Err(e), p, s) && GetByIdChecked::lifted(p, s, checked_post, checked_step);
            assert(inner.next(Err(e), p, s));
        }
    }
}

} // verus!
