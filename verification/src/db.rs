//! The statements that the services send to the database, the rows that come
//! back, and the steps of an operation that talks to the database.
//!
//! The library never talks to the database itself: an operation hands out a
//! `Query`, the caller runs it and hands the `Reply` (or the error) back.
use vstd::prelude::*;
use rust_decimal::Decimal;
use chrono::NaiveDateTime;
use crate::models::Tag;

verus! {

/// Every statement that the services send.
#[derive(Clone, Copy, Debug, PartialEq, Eq, Structural)]
pub enum QueryKind {
    ExpensesOfUser,
    TagsOfExpense,
    UserById,
    ExpenseById,
    ExpenseOfUser,
    DeleteExpense,
    InsertExpense,
    InsertExpenseTag,
    UpdateExpense,
    DeleteExpenseTags,
    TagsOfUser,
    TagById,
    TagOfUser,
    InsertTag,
    UpdateTag,
    DeleteTag,
}

/// How the result of a statement is read.
#[derive(Clone, Copy, Debug, PartialEq, Eq, Structural)]
pub enum Fetch {
    /// Every row.
    All,
    /// Exactly one row; none is an error of the database layer.
    One,
    /// At most one row.
    Optional,
    /// No row: the statement only changes the database.
    Execute,
}

/// The type of a placeholder of a statement.
#[derive(Clone, Copy, Debug, PartialEq, Eq, Structural)]
pub enum ParamType {
    Int,
    Text,
    Amount,
}

/// A value bound to a placeholder.
#[derive(Debug)]
pub enum Param {
    Int(i32),
    Text(String),
    Amount(Decimal),
}

/// A statement and the values of its placeholders `$1`, `$2`, ... in order.
#[derive(Debug)]
pub struct Query {
    pub kind: QueryKind,
    pub params: Vec<Param>,
}

/// A row of the `expenses` table.
#[derive(Debug)]
pub struct ExpenseRow {
    pub expense_id: i32,
    pub user_id: i32,
    pub amount: Decimal,
    pub description: String,
    pub expense_time: NaiveDateTime,
}

/// A row of the `users` table, without the password.
#[derive(Debug)]
pub struct UserRow {
    pub user_id: i32,
    pub display_name: String,
    pub email: String,
    pub creation_time: NaiveDateTime,
}

/// The key of an expense together with its owner.
#[derive(Debug)]
pub struct OwnerRow {
    pub expense_id: i32,
    pub user_id: i32,
}

/// What a statement gave back.
#[derive(Debug)]
pub enum Reply {
    Expenses(Vec<ExpenseRow>),
    Expense(ExpenseRow),
    Owner(Option<OwnerRow>),
    User(UserRow),
    Tags(Vec<Tag>),
    Tag(Tag),
    MaybeTag(Option<Tag>),
    NewId(i32),
    /// The number of rows that the statement changed.
    Executed(u64),
}

/// The next thing an operation needs: a statement to run, or its outcome.
#[derive(Debug)]
pub enum Step<T> {
    Run(Query),
    Done(Result<T, sqlx::Error>),
}

/// The SQL text of each statement.
pub open spec fn sql_text(kind: QueryKind) -> Seq<char> {
    match kind {
        QueryKind::ExpensesOfUser => "SELECT expense_id, user_id, amount, description, expense_time FROM expenses WHERE user_id = $1"@,
        QueryKind::TagsOfExpense => "SELECT tag_id, tagname FROM tags WHERE tag_id IN (SELECT tag_id FROM expenses_tags WHERE expense_id = $1)"@,
        QueryKind::UserById => "SELECT user_id, display_name, email, creation_time FROM users WHERE user_id = $1"@,
        QueryKind::ExpenseById => "SELECT expense_id, user_id, amount, description, expense_time FROM expenses WHERE expense_id = $1"@,
        QueryKind::ExpenseOfUser => "SELECT expense_id, user_id FROM expenses WHERE expense_id = $1 AND user_id = $2"@,
        QueryKind::DeleteExpense => "DELETE FROM expenses WHERE expense_id = $1 AND user_id = $2"@,
        QueryKind::InsertExpense => "INSERT INTO expenses (user_id, amount, description) VALUES ($1, $2, $3) RETURNING expense_id"@,
        QueryKind::InsertExpenseTag => "INSERT INTO expenses_tags (expense_id, tag_id) VALUES ($1, $2)"@,
        QueryKind::UpdateExpense => "UPDATE expenses SET amount = $1, description = $2 WHERE expense_id = $3 AND user_id = $4"@,
        QueryKind::DeleteExpenseTags => "DELETE FROM expenses_tags WHERE expense_id = $1"@,
        QueryKind::TagsOfUser => "SELECT tag_id, tagname FROM tags WHERE user_id = $1"@,
        QueryKind::TagById => "SELECT tag_id, tagname FROM tags WHERE tag_id = $1"@,
        QueryKind::TagOfUser => "SELECT tag_id, tagname FROM tags WHERE tag_id = $1 AND user_id = $2"@,
        QueryKind::InsertTag => "INSERT INTO tags (tagname, user_id) VALUES ($1, $2) RETURNING tag_id, tagname"@,
        QueryKind::UpdateTag => "UPDATE tags SET tagname = $1 WHERE tag_id = $2 AND user_id = $3 RETURNING tag_id, tagname"@,
        QueryKind::DeleteTag => "DELETE FROM tags WHERE tag_id = $1 AND user_id = $2"@,
    }
}

/// The SQL text of a statement.
pub fn sql(kind: QueryKind) -> (s: &'static str)
    ensures
        s@ == sql_text(kind),
{
    match kind {
        QueryKind::ExpensesOfUser => "SELECT expense_id, user_id, amount, description, expense_time FROM expenses WHERE user_id = $1",
        QueryKind::TagsOfExpense => "SELECT tag_id, tagname FROM tags WHERE tag_id IN (SELECT tag_id FROM expenses_tags WHERE expense_id = $1)",
        QueryKind::UserById => "SELECT user_id, display_name, email, creation_time FROM users WHERE user_id = $1",
        QueryKind::ExpenseById => "SELECT expense_id, user_id, amount, description, expense_time FROM expenses WHERE expense_id = $1",
        QueryKind::ExpenseOfUser => "SELECT expense_id, user_id FROM expenses WHERE expense_id = $1 AND user_id = $2",
        QueryKind::DeleteExpense => "DELETE FROM expenses WHERE expense_id = $1 AND user_id = $2",
        QueryKind::InsertExpense => "INSERT INTO expenses (user_id, amount, description) VALUES ($1, $2, $3) RETURNING expense_id",
        QueryKind::InsertExpenseTag => "INSERT INTO expenses_tags (expense_id, tag_id) VALUES ($1, $2)",
        QueryKind::UpdateExpense => "UPDATE expenses SET amount = $1, description = $2 WHERE expense_id = $3 AND user_id = $4",
        QueryKind::DeleteExpenseTags => "DELETE FROM expenses_tags WHERE expense_id = $1",
        QueryKind::TagsOfUser => "SELECT tag_id, tagname FROM tags WHERE user_id = $1",
        QueryKind::TagById => "SELECT tag_id, tagname FROM tags WHERE tag_id = $1",
        QueryKind::TagOfUser => "SELECT tag_id, tagname FROM tags WHERE tag_id = $1 AND user_id = $2",
        QueryKind::InsertTag => "INSERT INTO tags (tagname, user_id) VALUES ($1, $2) RETURNING tag_id, tagname",
        QueryKind::UpdateTag => "UPDATE tags SET tagname = $1 WHERE tag_id = $2 AND user_id = $3 RETURNING tag_id, tagname",
        QueryKind::DeleteTag => "DELETE FROM tags WHERE tag_id = $1 AND user_id = $2",
    }
}

/// How the result of each statement is read.
pub open spec fn fetch_of(kind: QueryKind) -> Fetch {
    match kind {
        QueryKind::ExpensesOfUser | QueryKind::TagsOfExpense | QueryKind::TagsOfUser => Fetch::All,
        QueryKind::UserById | QueryKind::ExpenseById | QueryKind::InsertExpense | QueryKind::TagById
        | QueryKind::InsertTag | QueryKind::UpdateTag => Fetch::One,
        QueryKind::ExpenseOfUser | QueryKind::TagOfUser => Fetch::Optional,
        QueryKind::DeleteExpense | QueryKind::InsertExpenseTag | QueryKind::UpdateExpense
        | QueryKind::DeleteExpenseTags | QueryKind::DeleteTag => Fetch::Execute,
    }
}

/// How the result of a statement is read.
pub fn fetch(kind: QueryKind) -> (f: Fetch)
    ensures
        f == fetch_of(kind),
{
    match kind {
        QueryKind::ExpensesOfUser | QueryKind::TagsOfExpense | QueryKind::TagsOfUser => Fetch::All,
        QueryKind::UserById | QueryKind::ExpenseById | QueryKind::InsertExpense | QueryKind::TagById
        | QueryKind::InsertTag | QueryKind::UpdateTag => Fetch::One,
        QueryKind::ExpenseOfUser | QueryKind::TagOfUser => Fetch::Optional,
        QueryKind::DeleteExpense | QueryKind::InsertExpenseTag | QueryKind::UpdateExpense
        | QueryKind::DeleteExpenseTags | QueryKind::DeleteTag => Fetch::Execute,
    }
}

/// The types of the placeholders `$1`, `$2`, ... of each statement.
pub open spec fn slot_types(kind: QueryKind) -> Seq<ParamType> {
    match kind {
        QueryKind::ExpensesOfUser | QueryKind::TagsOfExpense | QueryKind::UserById
        | QueryKind::ExpenseById | QueryKind::DeleteExpenseTags | QueryKind::TagsOfUser
        | QueryKind::TagById => seq![ParamType::Int],
        QueryKind::ExpenseOfUser | QueryKind::DeleteExpense | QueryKind::InsertExpenseTag
        | QueryKind::TagOfUser | QueryKind::DeleteTag => seq![ParamType::Int, ParamType::Int],
        QueryKind::InsertExpense => seq![ParamType::Int, ParamType::Amount, ParamType::Text],
        QueryKind::UpdateExpense => seq![ParamType::Amount, ParamType::Text, ParamType::Int, ParamType::Int],
        QueryKind::InsertTag => seq![ParamType::Text, ParamType::Int],
        QueryKind::UpdateTag => seq![ParamType::Text, ParamType::Int, ParamType::Int],
    }
}

/// The type of a bound value.
pub open spec fn type_of(p: Param) -> ParamType {
    match p {
        Param::Int(_) => ParamType::Int,
        Param::Text(_) => ParamType::Text,
        Param::Amount(_) => ParamType::Amount,
    }
}

/// A query binds one value of the right type to each placeholder of its statement.
pub open spec fn well_formed(q: Query) -> bool {
    &&& q.params@.len() == slot_types(q.kind).len()
    &&& forall|i: int| 0 <= i < q.params@.len() ==> type_of(#[trigger] q.params@[i]) == slot_types(q.kind)[i]
}

/// The reply that each statement gives back.
pub open spec fn fits(kind: QueryKind, reply: Reply) -> bool {
    match kind {
        QueryKind::ExpensesOfUser => reply is Expenses,
        QueryKind::ExpenseById => reply is Expense,
        QueryKind::ExpenseOfUser => reply is Owner,
        QueryKind::UserById => reply is User,
        QueryKind::TagsOfExpense | QueryKind::TagsOfUser => reply is Tags,
        QueryKind::TagById | QueryKind::InsertTag | QueryKind::UpdateTag => reply is Tag,
        QueryKind::TagOfUser => reply is MaybeTag,
        QueryKind::InsertExpense => reply is NewId,
        QueryKind::DeleteExpense | QueryKind::InsertExpenseTag | QueryKind::UpdateExpense
        | QueryKind::DeleteExpenseTags | QueryKind::DeleteTag => reply is Executed,
    }
}

/// An outcome of running a statement: an error, or the reply of that statement.
pub open spec fn answers(kind: QueryKind, outcome: Result<Reply, sqlx::Error>) -> bool {
    match outcome {
        Ok(reply) => fits(kind, reply),
        Err(_) => true,
    }
}

/// Whether an outcome can be the outcome of running a statement.
pub fn outcome_fits(kind: QueryKind, outcome: &Result<Reply, sqlx::Error>) -> (b: bool)
    ensures
        b == answers(kind, *outcome),
{
    match outcome {
        Err(_) => true,
        Ok(reply) => match kind {
            QueryKind::ExpensesOfUser => matches!(reply, Reply::Expenses(_)),
            QueryKind::ExpenseById => matches!(reply, Reply::Expense(_)),
            QueryKind::ExpenseOfUser => matches!(reply, Reply::Owner(_)),
            QueryKind::UserById => matches!(reply, Reply::User(_)),
            QueryKind::TagsOfExpense | QueryKind::TagsOfUser => matches!(reply, Reply::Tags(_)),
            QueryKind::TagById | QueryKind::InsertTag | QueryKind::UpdateTag => matches!(reply, Reply::Tag(_)),
            QueryKind::TagOfUser => matches!(reply, Reply::MaybeTag(_)),
            QueryKind::InsertExpense => matches!(reply, Reply::NewId(_)),
            QueryKind::DeleteExpense | QueryKind::InsertExpenseTag | QueryKind::UpdateExpense
            | QueryKind::DeleteExpenseTags | QueryKind::DeleteTag => matches!(reply, Reply::Executed(_)),
        },
    }
}

/// `q` is the statement `kind` with the values `params`.
pub open spec fn is_query(q: Query, kind: QueryKind, params: Seq<Param>) -> bool {
    q.kind == kind && q.params@ == params
}

/// `step` runs the statement `kind` with the values `params`.
pub open spec fn runs<T>(step: Step<T>, kind: QueryKind, params: Seq<Param>) -> bool {
    step matches Step::Run(q) && is_query(q, kind, params)
}

/// Builds a query with one integer value.
pub fn query1(kind: QueryKind, a: i32) -> (q: Query)
    ensures
        is_query(q, kind, seq![Param::Int(a)]),
{
    let mut params = Vec::new();
    params.push(Param::Int(a));
    Query { kind, params }
}

/// Builds a query with two integer values.
pub fn query2(kind: QueryKind, a: i32, b: i32) -> (q: Query)
    ensures
        is_query(q, kind, seq![Param::Int(a), Param::Int(b)]),
{
    let mut params = Vec::new();
    params.push(Param::Int(a));
    params.push(Param::Int(b));
    assert(params@ =~= seq![Param::Int(a), Param::Int(b)]);
    Query { kind, params }
}

/// The result of a statement that only changes the database: `Ok(())`
/// whatever number of rows it changed, or the database error.
pub fn executed_result(outcome: Result<Reply, sqlx::Error>) -> (res: Result<(), sqlx::Error>)
    ensures
        res == match outcome {
            Ok(_) => Ok::<(), sqlx::Error>(()),
            Err(e) => Err(e),
        },
{
    match outcome {
        Ok(_) => Ok(()),
        Err(e) => Err(e),
    }
}

/// The statement of each kind, as the services send it: which table it reads
/// or changes, which rows it picks, and which placeholder holds which value.
pub proof fn every_statement_is_fixed()
    ensures
        sql_text(QueryKind::ExpensesOfUser) == "SELECT expense_id, user_id, amount, description, expense_time FROM expenses WHERE user_id = $1"@,
        sql_text(QueryKind::TagsOfExpense) == "SELECT tag_id, tagname FROM tags WHERE tag_id IN (SELECT tag_id FROM expenses_tags WHERE expense_id = $1)"@,
        sql_text(QueryKind::UserById) == "SELECT user_id, display_name, email, creation_time FROM users WHERE user_id = $1"@,
        sql_text(QueryKind::ExpenseById) == "SELECT expense_id, user_id, amount, description, expense_time FROM expenses WHERE expense_id = $1"@,
        sql_text(QueryKind::ExpenseOfUser) == "SELECT expense_id, user_id FROM expenses WHERE expense_id = $1 AND user_id = $2"@,
        sql_text(QueryKind::DeleteExpense) == "DELETE FROM expenses WHERE expense_id = $1 AND user_id = $2"@,
        sql_text(QueryKind::InsertExpense) == "INSERT INTO expenses (user_id, amount, description) VALUES ($1, $2, $3) RETURNING expense_id"@,
        sql_text(QueryKind::InsertExpenseTag) == "INSERT INTO expenses_tags (expense_id, tag_id) VALUES ($1, $2)"@,
        sql_text(QueryKind::UpdateExpense) == "UPDATE expenses SET amount = $1, description = $2 WHERE expense_id = $3 AND user_id = $4"@,
        sql_text(QueryKind::DeleteExpenseTags) == "DELETE FROM expenses_tags WHERE expense_id = $1"@,
        sql_text(QueryKind::TagsOfUser) == "SELECT tag_id, tagname FROM tags WHERE user_id = $1"@,
        sql_text(QueryKind::TagById) == "SELECT tag_id, tagname FROM tags WHERE tag_id = $1"@,
        sql_text(QueryKind::TagOfUser) == "SELECT tag_id, tagname FROM tags WHERE tag_id = $1 AND user_id = $2"@,
        sql_text(QueryKind::InsertTag) == "INSERT INTO tags (tagname, user_id) VALUES ($1, $2) RETURNING tag_id, tagname"@,
        sql_text(QueryKind::UpdateTag) == "UPDATE tags SET tagname = $1 WHERE tag_id = $2 AND user_id = $3 RETURNING tag_id, tagname"@,
        sql_text(QueryKind::DeleteTag) == "DELETE FROM tags WHERE tag_id = $1 AND user_id = $2"@,
{
}

/// How the result of each statement is read: every row of a listing, exactly
/// one row of a lookup by key or of an insert or change that returns a row, at
/// most one row of a check that the row belongs to a user, and no row of a
/// statement that only changes the database.
pub proof fn every_fetch_is_fixed()
    ensures
        forall|k: QueryKind| (k == QueryKind::ExpensesOfUser || k == QueryKind::TagsOfExpense || k == QueryKind::TagsOfUser)
            <==> #[trigger] fetch_of(k) == Fetch::All,
        forall|k: QueryKind| (k == QueryKind::UserById || k == QueryKind::ExpenseById || k == QueryKind::InsertExpense
            || k == QueryKind::TagById || k == QueryKind::InsertTag || k == QueryKind::UpdateTag)
            <==> #[trigger] fetch_of(k) == Fetch::One,
        forall|k: QueryKind| (k == QueryKind::ExpenseOfUser || k == QueryKind::TagOfUser)
            <==> #[trigger] fetch_of(k) == Fetch::Optional,
        forall|k: QueryKind| (k == QueryKind::DeleteExpense || k == QueryKind::InsertExpenseTag || k == QueryKind::UpdateExpense
            || k == QueryKind::DeleteExpenseTags || k == QueryKind::DeleteTag)
            <==> #[trigger] fetch_of(k) == Fetch::Execute,
{
}

/// The placeholders of each statement: ids are integers, an amount is a
/// decimal, a description or a tag's name is text.
pub proof fn every_placeholder_type_is_fixed()
    ensures
        slot_types(QueryKind::ExpensesOfUser) == seq![ParamType::Int],
        slot_types(QueryKind::TagsOfExpense) == seq![ParamType::Int],
        slot_types(QueryKind::UserById) == seq![ParamType::Int],
        slot_types(QueryKind::ExpenseById) == seq![ParamType::Int],
        slot_types(QueryKind::ExpenseOfUser) == seq![ParamType::Int, ParamType::Int],
        slot_types(QueryKind::DeleteExpense) == seq![ParamType::Int, ParamType::Int],
        slot_types(QueryKind::InsertExpense) == seq![ParamType::Int, ParamType::Amount, ParamType::Text],
        slot_types(QueryKind::InsertExpenseTag) == seq![ParamType::Int, ParamType::Int],
        slot_types(QueryKind::UpdateExpense) == seq![ParamType::Amount, ParamType::Text, ParamType::Int, ParamType::Int],
        slot_types(QueryKind::DeleteExpenseTags) == seq![ParamType::Int],
        slot_types(QueryKind::TagsOfUser) == seq![ParamType::Int],
        slot_types(QueryKind::TagById) == seq![ParamType::Int],
        slot_types(QueryKind::TagOfUser) == seq![ParamType::Int, ParamType::Int],
        slot_types(QueryKind::InsertTag) == seq![ParamType::Text, ParamType::Int],
        slot_types(QueryKind::UpdateTag) == seq![ParamType::Text, ParamType::Int, ParamType::Int],
        slot_types(QueryKind::DeleteTag) == seq![ParamType::Int, ParamType::Int],
{
}

/// A query is a statement kind with its values in order, and a step that runs
/// a query names that very query: two queries that agree on both are the same
/// request, and any difference in kind or in a value is a different one.
pub proof fn queries_are_kind_and_values<T>(q: Query, kind: QueryKind, params: Seq<Param>, step: Step<T>)
    ensures
        is_query(q, kind, params) <==> (q.kind == kind && q.params@ == params),
        runs(step, kind, params) <==> (step matches Step::Run(r) && r.kind == kind && r.params@ == params),
        well_formed(q) <==> (q.params@.len() == slot_types(q.kind).len()
            && forall|i: int| 0 <= i < q.params@.len() ==> type_of(#[trigger] q.params@[i]) == slot_types(q.kind)[i]),
        forall|v: i32| #[trigger] type_of(Param::Int(v)) == ParamType::Int,
        forall|v: String| #[trigger] type_of(Param::Text(v)) == ParamType::Text,
        forall|v: rust_decimal::Decimal| #[trigger] type_of(Param::Amount(v)) == ParamType::Amount,
{
}

/// The reply of each statement: rows of expenses for the listing of a user's
/// expenses, one expense row for a lookup by id, an optional owner row for the
/// ownership check, a user row for the user, tags for the two tag listings,
/// one tag for a lookup, insert or change of a tag, an optional tag for the
/// checked lookup, the new id for an inserted expense, and a count of changed
/// rows for every statement that only changes the database.
pub proof fn every_reply_shape_is_fixed(reply: Reply)
    ensures
        fits(QueryKind::ExpensesOfUser, reply) <==> reply is Expenses,
        fits(QueryKind::ExpenseById, reply) <==> reply is Expense,
        fits(QueryKind::ExpenseOfUser, reply) <==> reply is Owner,
        fits(QueryKind::UserById, reply) <==> reply is User,
        fits(QueryKind::TagsOfExpense, reply) <==> reply is Tags,
        fits(QueryKind::TagsOfUser, reply) <==> reply is Tags,
        fits(QueryKind::TagById, reply) <==> reply is Tag,
        fits(QueryKind::InsertTag, reply) <==> reply is Tag,
        fits(QueryKind::UpdateTag, reply) <==> reply is Tag,
        fits(QueryKind::TagOfUser, reply) <==> reply is MaybeTag,
        fits(QueryKind::InsertExpense, reply) <==> reply is NewId,
        fits(QueryKind::DeleteExpense, reply) <==> reply is Executed,
        fits(QueryKind::InsertExpenseTag, reply) <==> reply is Executed,
        fits(QueryKind::UpdateExpense, reply) <==> reply is Executed,
        fits(QueryKind::DeleteExpenseTags, reply) <==> reply is Executed,
        fits(QueryKind::DeleteTag, reply) <==> reply is Executed,
        forall|k: QueryKind, e: sqlx::Error| #[trigger] answers(k, Err(e)),
        forall|k: QueryKind| #[trigger] answers(k, Ok(reply)) <==> fits(k, reply),
{
}

} // verus!
