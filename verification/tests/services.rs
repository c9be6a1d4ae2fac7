use chrono::NaiveDateTime;
use expense_api::db::{executed_result, fetch, outcome_fits, sql, ExpenseRow, Fetch, OwnerRow, Param, Query, QueryKind, Reply, Step, UserRow};
use expense_api::models::Tag;
use expense_api::services::expense_service::{
    delete_by_id_checked_query, Create, CreateExpense, GetAll, GetById, GetByIdChecked, UpdateByIdChecked,
};
use expense_api::services::tag_service;
use rust_decimal::Decimal;

fn time(ms: i64) -> NaiveDateTime {
    chrono::DateTime::from_timestamp_millis(ms).unwrap().naive_utc()
}

fn tag(id: i32, name: &str) -> Tag {
    Tag { tag_id: id, tagname: name.to_string() }
}

fn expense_row(id: i32, user_id: i32, cents: i64, description: &str) -> ExpenseRow {
    ExpenseRow {
        expense_id: id,
        user_id,
        amount: Decimal::new(cents, 2),
        description: description.to_string(),
        expense_time: time(1_700_000_000_000 + id as i64),
    }
}

fn user_row(id: i32) -> UserRow {
    UserRow {
        user_id: id,
        display_name: "Ada".to_string(),
        email: "ada@example.com".to_string(),
        creation_time: time(1_600_000_000_000),
    }
}

fn ints(q: &Query) -> Vec<i32> {
    q.params
        .iter()
        .map(|p| match p {
            Param::Int(i) => *i,
            _ => panic!("not an integer"),
        })
        .collect()
}

fn run_query<T>(step: Step<T>) -> Query {
    match step {
        Step::Run(q) => q,
        Step::Done(_) => panic!("operation ended early"),
    }
}

fn done<T>(step: Step<T>) -> Result<T, sqlx::Error> {
    match step {
        Step::Done(r) => r,
        Step::Run(q) => panic!("operation asked for {:?}", q.kind),
    }
}

#[test]
fn sql_texts_are_the_statements_of_the_services() {
    assert_eq!(
        sql(QueryKind::ExpensesOfUser),
        "SELECT expense_id, user_id, amount, description, expense_time FROM expenses WHERE user_id = $1"
    );
    assert_eq!(
        sql(QueryKind::TagsOfExpense),
        "SELECT tag_id, tagname FROM tags WHERE tag_id IN (SELECT tag_id FROM expenses_tags WHERE expense_id = $1)"
    );
    assert_eq!(sql(QueryKind::ExpenseOfUser), "SELECT expense_id, user_id FROM expenses WHERE expense_id = $1 AND user_id = $2");
    assert_eq!(sql(QueryKind::DeleteExpense), "DELETE FROM expenses WHERE expense_id = $1 AND user_id = $2");
    assert_eq!(
        sql(QueryKind::UpdateExpense),
        "UPDATE expenses SET amount = $1, description = $2 WHERE expense_id = $3 AND user_id = $4"
    );
    assert_eq!(sql(QueryKind::DeleteTag), "DELETE FROM tags WHERE tag_id = $1 AND user_id = $2");
    assert_eq!(
        sql(QueryKind::UpdateTag),
        "UPDATE tags SET tagname = $1 WHERE tag_id = $2 AND user_id = $3 RETURNING tag_id, tagname"
    );
}

#[test]
fn fetch_modes_follow_the_statements() {
    assert_eq!(fetch(QueryKind::ExpensesOfUser), Fetch::All);
    assert_eq!(fetch(QueryKind::TagsOfUser), Fetch::All);
    assert_eq!(fetch(QueryKind::UserById), Fetch::One);
    assert_eq!(fetch(QueryKind::InsertExpense), Fetch::One);
    assert_eq!(fetch(QueryKind::ExpenseOfUser), Fetch::Optional);
    assert_eq!(fetch(QueryKind::TagOfUser), Fetch::Optional);
    assert_eq!(fetch(QueryKind::DeleteExpenseTags), Fetch::Execute);
    assert_eq!(fetch(QueryKind::InsertExpenseTag), Fetch::Execute);
}

#[test]
fn outcome_fits_checks_the_reply_of_each_statement() {
    assert!(outcome_fits(QueryKind::TagsOfUser, &Ok(Reply::Tags(vec![]))));
    assert!(!outcome_fits(QueryKind::TagsOfUser, &Ok(Reply::Executed(1))));
    assert!(outcome_fits(QueryKind::DeleteTag, &Err(sqlx::Error::RowNotFound)));
    assert!(outcome_fits(QueryKind::ExpenseOfUser, &Ok(Reply::Owner(None))));
    assert!(!outcome_fits(QueryKind::InsertExpense, &Ok(Reply::Tag(tag(1, "a")))));
}

#[test]
fn executed_result_ignores_the_row_count() {
    assert!(executed_result(Ok(Reply::Executed(0))).is_ok());
    assert!(executed_result(Ok(Reply::Executed(3))).is_ok());
    assert!(matches!(executed_result(Err(sqlx::Error::RowNotFound)), Err(sqlx::Error::RowNotFound)));
}

#[test]
fn get_all_fetches_tags_per_expense_then_the_user() {
    let (m, q) = GetAll::start(7);
    assert_eq!(q.kind, QueryKind::ExpensesOfUser);
    assert_eq!(ints(&q), vec![7]);
    let rows = vec![expense_row(10, 7, 1250, "lunch"), expense_row(11, 7, 399, "bus")];
    let (m, s) = m.resume(Ok(Reply::Expenses(rows)));
    let q = run_query(s);
    assert_eq!(q.kind, QueryKind::TagsOfExpense);
    assert_eq!(ints(&q), vec![10]);
    let (m, s) = m.resume(Ok(Reply::Tags(vec![tag(1, "food"), tag(2, "work")])));
    let q = run_query(s);
    assert_eq!(q.kind, QueryKind::TagsOfExpense);
    assert_eq!(ints(&q), vec![11]);
    let (m, s) = m.resume(Ok(Reply::Tags(vec![])));
    let q = run_query(s);
    assert_eq!(q.kind, QueryKind::UserById);
    assert_eq!(ints(&q), vec![7]);
    let (m, s) = m.resume(Ok(Reply::User(user_row(7))));
    assert!(matches!(m, GetAll::Finished));
    let v = done(s).unwrap();
    assert_eq!(v.len(), 2);
    assert_eq!(v[0].expense_id, 10);
    assert_eq!(v[0].amount, Decimal::new(1250, 2));
    assert_eq!(v[0].description, "lunch");
    assert_eq!(v[0].tags.iter().map(|t| t.tag_id).collect::<Vec<_>>(), vec![1, 2]);
    assert_eq!(v[0].tags[1].tagname, "work");
    assert_eq!(v[0].user.user_id, 7);
    assert_eq!(v[0].user.display_name, "Ada");
    assert_eq!(v[0].user.email, "ada@example.com");
    assert!(v[0].user.password.is_none());
    assert_eq!(v[0].user.creation_time, time(1_600_000_000_000));
    assert_eq!(v[1].expense_id, 11);
    assert_eq!(v[1].expense_time, time(1_700_000_000_011));
    assert!(v[1].tags.is_empty());
    assert_eq!(v[1].user.user_id, 7);
}

#[test]
fn get_all_without_expenses_asks_only_for_the_user() {
    let (m, _) = GetAll::start(3);
    let (m, s) = m.resume(Ok(Reply::Expenses(vec![])));
    let q = run_query(s);
    assert_eq!(q.kind, QueryKind::UserById);
    assert_eq!(ints(&q), vec![3]);
    let (_, s) = m.resume(Ok(Reply::User(user_row(3))));
    assert!(done(s).unwrap().is_empty());
}

#[test]
fn get_all_ends_with_the_first_database_error() {
    let (m, _) = GetAll::start(3);
    let (m, _) = m.resume(Ok(Reply::Expenses(vec![expense_row(1, 3, 100, "x")])));
    let (m, s) = m.resume(Err(sqlx::Error::RowNotFound));
    assert!(matches!(m, GetAll::Finished));
    assert!(matches!(done(s), Err(sqlx::Error::RowNotFound)));
}

#[test]
fn get_all_fails_when_the_user_is_missing() {
    let (m, _) = GetAll::start(3);
    let (m, s) = m.resume(Ok(Reply::Expenses(vec![])));
    assert_eq!(run_query(s).kind, QueryKind::UserById);
    let (_, s) = m.resume(Err(sqlx::Error::RowNotFound));
    assert!(matches!(done(s), Err(sqlx::Error::RowNotFound)));
}

#[test]
fn get_by_id_fetches_expense_tags_and_owner() {
    let (m, q) = GetById::start(42);
    assert_eq!(q.kind, QueryKind::ExpenseById);
    assert_eq!(ints(&q), vec![42]);
    let (m, s) = m.resume(Ok(Reply::Expense(expense_row(42, 9, 500, "book"))));
    let q = run_query(s);
    assert_eq!(q.kind, QueryKind::TagsOfExpense);
    assert_eq!(ints(&q), vec![42]);
    let (m, s) = m.resume(Ok(Reply::Tags(vec![tag(4, "fun")])));
    let q = run_query(s);
    assert_eq!(q.kind, QueryKind::UserById);
    assert_eq!(ints(&q), vec![9]);
    let (_, s) = m.resume(Ok(Reply::User(user_row(9))));
    let e = done(s).unwrap();
    assert_eq!(e.expense_id, 42);
    assert_eq!(e.user.user_id, 9);
    assert_eq!(e.description, "book");
    assert_eq!(e.tags.len(), 1);
    assert_eq!(e.tags[0].tagname, "fun");
}

#[test]
fn get_by_id_of_a_missing_expense_fails() {
    let (m, _) = GetById::start(42);
    let (m, s) = m.resume(Err(sqlx::Error::RowNotFound));
    assert!(matches!(m, GetById::Finished));
    assert!(matches!(done(s), Err(sqlx::Error::RowNotFound)));
}

#[test]
fn get_by_id_checked_gives_none_for_another_users_expense() {
    let (m, q) = GetByIdChecked::start(42, 5);
    assert_eq!(q.kind, QueryKind::ExpenseOfUser);
    assert_eq!(ints(&q), vec![42, 5]);
    let (m, s) = m.resume(Ok(Reply::Owner(None)));
    assert!(matches!(m, GetByIdChecked::Finished));
    assert!(done(s).unwrap().is_none());
}

#[test]
fn get_by_id_checked_loads_an_owned_expense_as_get_by_id_does() {
    let (m, _) = GetByIdChecked::start(42, 5);
    let (m, s) = m.resume(Ok(Reply::Owner(Some(OwnerRow { expense_id: 42, user_id: 5 }))));
    let q = run_query(s);
    assert_eq!(q.kind, QueryKind::ExpenseById);
    assert_eq!(ints(&q), vec![42]);
    let (m, s) = m.resume(Ok(Reply::Expense(expense_row(42, 5, 700, "taxi"))));
    assert_eq!(ints(&run_query(s)), vec![42]);
    let (m, s) = m.resume(Ok(Reply::Tags(vec![])));
    let q = run_query(s);
    assert_eq!(q.kind, QueryKind::UserById);
    assert_eq!(ints(&q), vec![5]);
    let (m, s) = m.resume(Ok(Reply::User(user_row(5))));
    assert!(matches!(m, GetByIdChecked::Finished));
    let e = done(s).unwrap().unwrap();
    assert_eq!(e.expense_id, 42);
    assert_eq!(e.amount, Decimal::new(700, 2));
}

#[test]
fn get_by_id_checked_passes_on_a_later_database_error() {
    let (m, _) = GetByIdChecked::start(1, 1);
    let (m, _) = m.resume(Ok(Reply::Owner(Some(OwnerRow { expense_id: 1, user_id: 1 }))));
    let (_, s) = m.resume(Err(sqlx::Error::RowNotFound));
    assert!(matches!(done(s), Err(sqlx::Error::RowNotFound)));
}

#[test]
fn delete_expense_is_scoped_to_the_user() {
    let q = delete_by_id_checked_query(8, 2);
    assert_eq!(q.kind, QueryKind::DeleteExpense);
    assert_eq!(ints(&q), vec![8, 2]);
}

fn create_request(tags: Vec<i32>) -> CreateExpense {
    CreateExpense { user_id: 4, amount: Decimal::new(1999, 2), description: "shoes".to_string(), tags }
}

#[test]
fn create_inserts_the_expense_then_links_each_tag() {
    let (m, q) = Create::start(create_request(vec![3, 5]));
    assert_eq!(q.kind, QueryKind::InsertExpense);
    assert_eq!(q.params.len(), 3);
    assert!(matches!(q.params[0], Param::Int(4)));
    assert!(matches!(q.params[1], Param::Amount(a) if a == Decimal::new(1999, 2)));
    assert!(matches!(&q.params[2], Param::Text(t) if t == "shoes"));
    let (m, s) = m.resume(Ok(Reply::NewId(77)));
    let q = run_query(s);
    assert_eq!(q.kind, QueryKind::InsertExpenseTag);
    assert_eq!(ints(&q), vec![77, 3]);
    let (m, s) = m.resume(Ok(Reply::Executed(1)));
    assert_eq!(ints(&run_query(s)), vec![77, 5]);
    let (m, s) = m.resume(Ok(Reply::Executed(1)));
    assert!(matches!(m, Create::Finished));
    assert_eq!(done(s).unwrap(), 77);
}

#[test]
fn create_without_tags_gives_the_id_at_once() {
    let (m, _) = Create::start(create_request(vec![]));
    let (_, s) = m.resume(Ok(Reply::NewId(12)));
    assert_eq!(done(s).unwrap(), 12);
}

#[test]
fn create_stops_at_a_failing_link() {
    let (m, _) = Create::start(create_request(vec![1, 2, 3]));
    let (m, _) = m.resume(Ok(Reply::NewId(5)));
    let (_, s) = m.resume(Err(sqlx::Error::RowNotFound));
    assert!(matches!(done(s), Err(sqlx::Error::RowNotFound)));
}

#[test]
fn update_changes_the_expense_then_replaces_its_tags() {
    let (m, q) = UpdateByIdChecked::start(create_request(vec![9]), 31, 4);
    assert_eq!(q.kind, QueryKind::UpdateExpense);
    assert_eq!(q.params.len(), 4);
    assert!(matches!(q.params[0], Param::Amount(a) if a == Decimal::new(1999, 2)));
    assert!(matches!(&q.params[1], Param::Text(t) if t == "shoes"));
    assert!(matches!(q.params[2], Param::Int(31)));
    assert!(matches!(q.params[3], Param::Int(4)));
    let (m, s) = m.resume(Ok(Reply::Executed(1)));
    let q = run_query(s);
    assert_eq!(q.kind, QueryKind::DeleteExpenseTags);
    assert_eq!(ints(&q), vec![31]);
    let (m, s) = m.resume(Ok(Reply::Executed(2)));
    let q = run_query(s);
    assert_eq!(q.kind, QueryKind::InsertExpenseTag);
    assert_eq!(ints(&q), vec![31, 9]);
    let (m, s) = m.resume(Ok(Reply::Executed(1)));
    assert!(matches!(m, UpdateByIdChecked::Finished));
    assert!(done(s).is_ok());
}

#[test]
fn update_of_another_users_expense_still_replaces_its_tags() {
    // The statement that changes the expense changes no row, and the tag
    // links are replaced all the same.
    let (m, _) = UpdateByIdChecked::start(create_request(vec![]), 31, 4);
    let (m, s) = m.resume(Ok(Reply::Executed(0)));
    assert_eq!(run_query(s).kind, QueryKind::DeleteExpenseTags);
    let (_, s) = m.resume(Ok(Reply::Executed(0)));
    assert!(done(s).is_ok());
}

#[test]
fn tag_queries_carry_their_values_in_order() {
    let q = tag_service::get_all_query(6);
    assert_eq!((q.kind, ints(&q)), (QueryKind::TagsOfUser, vec![6]));
    let q = tag_service::get_by_id_query(2);
    assert_eq!((q.kind, ints(&q)), (QueryKind::TagById, vec![2]));
    let q = tag_service::get_by_id_checked_query(2, 6);
    assert_eq!((q.kind, ints(&q)), (QueryKind::TagOfUser, vec![2, 6]));
    let q = tag_service::delete_by_id_checked_query(2, 6);
    assert_eq!((q.kind, ints(&q)), (QueryKind::DeleteTag, vec![2, 6]));
    let q = tag_service::create_query("travel".to_string(), 6);
    assert_eq!(q.kind, QueryKind::InsertTag);
    assert!(matches!(&q.params[0], Param::Text(t) if t == "travel"));
    assert!(matches!(q.params[1], Param::Int(6)));
    let q = tag_service::update_query(tag(2, "trips"), 6);
    assert_eq!(q.kind, QueryKind::UpdateTag);
    assert!(matches!(&q.params[0], Param::Text(t) if t == "trips"));
    assert!(matches!(q.params[1], Param::Int(2)));
    assert!(matches!(q.params[2], Param::Int(6)));
}

#[test]
fn tag_results_hand_back_the_rows() {
    let v = tag_service::tags_result(Ok(Reply::Tags(vec![tag(1, "a"), tag(2, "b")]))).unwrap();
    assert_eq!(v.iter().map(|t| t.tagname.as_str()).collect::<Vec<_>>(), vec!["a", "b"]);
    assert_eq!(tag_service::tag_result(Ok(Reply::Tag(tag(3, "c")))).unwrap().tag_id, 3);
    assert!(tag_service::maybe_tag_result(Ok(Reply::MaybeTag(None))).unwrap().is_none());
    assert_eq!(tag_service::maybe_tag_result(Ok(Reply::MaybeTag(Some(tag(4, "d"))))).unwrap().unwrap().tagname, "d");
    assert!(matches!(tag_service::tag_result(Err(sqlx::Error::RowNotFound)), Err(sqlx::Error::RowNotFound)));
    assert!(tag_service::tags_result(Err(sqlx::Error::RowNotFound)).is_err());
}

#[test]
fn cloned_records_keep_every_field() {
    let (m, _) = GetById::start(1);
    let (m, _) = m.resume(Ok(Reply::Expense(expense_row(1, 2, 4321, "rent"))));
    let (m, _) = m.resume(Ok(Reply::Tags(vec![tag(8, "home")])));
    let (_, s) = m.resume(Ok(Reply::User(user_row(2))));
    let e = done(s).unwrap();
    let c = e.clone();
    assert_eq!(c.expense_id, e.expense_id);
    assert_eq!(c.amount, Decimal::new(4321, 2));
    assert_eq!(c.expense_time, e.expense_time);
    assert_eq!(c.description, "rent");
    assert_eq!(c.user.email, e.user.email);
    assert_eq!(c.tags[0].tagname, "home");
    let t = tag(3, "x").clone();
    assert_eq!((t.tag_id, t.tagname.as_str()), (3, "x"));
}

#[test]
fn lookups_see_only_the_users_own_rows() {
    // Another user's expense and a missing one: the ownership check finds no
    // row in either database, and both lookups give None at once.
    for owner in [None, None::<OwnerRow>] {
        let (m, _) = GetByIdChecked::start(42, 5);
        let (_, s) = m.resume(Ok(Reply::Owner(owner)));
        assert!(done(s).unwrap().is_none());
    }
    // The owner row's contents do not matter, only that there is one.
    let mut queries = Vec::new();
    for owner in [OwnerRow { expense_id: 42, user_id: 5 }, OwnerRow { expense_id: 0, user_id: 0 }] {
        let (m, _) = GetByIdChecked::start(42, 5);
        let (_, s) = m.resume(Ok(Reply::Owner(Some(owner))));
        let q = run_query(s);
        queries.push((q.kind, ints(&q)));
    }
    assert_eq!(queries[0], queries[1]);
}

#[test]
fn users_keep_their_password_hidden_in_debug() {
    let u = expense_api::models::User {
        user_id: 1,
        display_name: "Ada".to_string(),
        email: "ada@example.com".to_string(),
        password: Some(secrecy::SecretBytesMut::new(bytes::BytesMut::from("hunter2"))),
        creation_time: time(0),
    };
    let text = format!("{:?}", u);
    assert!(!text.contains("hunter2"));
    assert!(text.contains("REDACTED"));
    let c = u.clone();
    assert_eq!(c.user_id, 1);
}
