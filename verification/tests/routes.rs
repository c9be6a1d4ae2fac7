use expense_api::models::Tag;
use expense_api::response::{push_decimal, ApiResponse, Body, ErrorText, ErrorType, Payload, Status};
use expense_api::routes::{expenses, tags, Method};
use expense_api::services::expense_service::CreateExpense;
use rust_decimal::Decimal;

fn message(r: &ApiResponse) -> (ErrorType, String) {
    match &r.body {
        Body::Failure { error_type, error: ErrorText::Message(m) } => (*error_type, m.clone()),
        other => panic!("not a refusal: {:?}", other),
    }
}

fn is_database_failure(r: &ApiResponse) -> bool {
    r.status == Status::InternalServerError
        && matches!(
            &r.body,
            Body::Failure { error_type: ErrorType::DatabaseError, error: ErrorText::Database(sqlx::Error::RowNotFound) }
        )
}

fn decimal_text(n: i32) -> String {
    let mut s = String::new();
    push_decimal(&mut s, n);
    s
}

#[test]
fn decimal_text_matches_display() {
    for n in [0, 7, 10, 42, 1000, -1, -10, -905, i32::MAX, i32::MIN] {
        assert_eq!(decimal_text(n), n.to_string());
    }
    let mut s = "id ".to_string();
    push_decimal(&mut s, -12);
    assert_eq!(s, "id -12");
}

#[test]
fn status_codes_and_names() {
    assert_eq!(Status::Okay.code(), 200);
    assert_eq!(Status::BadRequest.code(), 400);
    assert_eq!(Status::Forbidden.code(), 403);
    assert_eq!(Status::NotFound.code(), 404);
    assert_eq!(Status::InternalServerError.code(), 500);
    assert_eq!(ErrorType::DatabaseError.name(), "database_error");
    assert_eq!(ErrorType::NotFound.name(), "not_found");
    assert_eq!(ErrorType::Forbidden.name(), "forbidden");
    assert_eq!(ErrorType::BadRequest.name(), "bad_request");
    assert_eq!(Payload::Nothing.key(), None);
    assert_eq!(Payload::Expenses(vec![]).key(), Some("expenses"));
    assert_eq!(Payload::ExpenseId(None).key(), Some("expense_id"));
    assert_eq!(Payload::Tags(vec![]).key(), Some("tags"));
    assert_eq!(Body::Success(Payload::Nothing).status_text(), "success");
}

#[test]
fn expense_routes_table() {
    let r = expenses::get_routes();
    let seen: Vec<(Method, &str, Option<&str>, &str)> = r.iter().map(|r| (r.method, r.uri, r.data, r.name)).collect();
    assert_eq!(
        seen,
        vec![
            (Method::Get, "/", None, "get_all"),
            (Method::Get, "/<expense_id>", None, "get_by_id"),
            (Method::Delete, "/<expense_id>", None, "delete"),
            (Method::Post, "/", Some("<expense>"), "create"),
            (Method::Put, "/<expense_id>", Some("<expense>"), "update"),
        ]
    );
}

#[test]
fn tag_routes_table() {
    let r = tags::get_routes();
    let seen: Vec<(Method, &str, Option<&str>, &str)> = r.iter().map(|r| (r.method, r.uri, r.data, r.name)).collect();
    assert_eq!(
        seen,
        vec![
            (Method::Get, "/", None, "get_all"),
            (Method::Get, "/<tag_id>", None, "get_by_id"),
            (Method::Delete, "/<tag_id>", None, "delete"),
            (Method::Post, "/", Some("<create_tag>"), "create"),
            (Method::Put, "/<tag_id>", Some("<tag>"), "update"),
        ]
    );
}

#[test]
fn routes_do_not_collide() {
    for table in [expenses::get_routes(), tags::get_routes()] {
        for i in 0..table.len() {
            for j in i + 1..table.len() {
                assert!(!(table[i].method == table[j].method && table[i].uri == table[j].uri));
            }
        }
    }
}

#[test]
fn missing_expense_is_answered_404_with_its_id() {
    let r = expenses::get_by_id_response(17, Ok(None));
    assert_eq!(r.status, Status::NotFound);
    assert_eq!(r.body.status_text(), "error");
    assert_eq!(message(&r), (ErrorType::NotFound, "Expense with id `17` does not exist".to_string()));
    let r = expenses::get_by_id_response(-3, Ok(None));
    assert_eq!(message(&r).1, "Expense with id `-3` does not exist");
}

#[test]
fn expense_routes_answer_database_errors_with_500() {
    assert!(is_database_failure(&expenses::get_all_response(Err(sqlx::Error::RowNotFound))));
    assert!(is_database_failure(&expenses::get_by_id_response(1, Err(sqlx::Error::RowNotFound))));
    assert!(is_database_failure(&expenses::delete_response(Err(sqlx::Error::RowNotFound))));
    assert!(is_database_failure(&expenses::create_response(Err(sqlx::Error::RowNotFound))));
    assert!(is_database_failure(&expenses::update_response(Err(sqlx::Error::RowNotFound))));
}

#[test]
fn expense_routes_answer_success_with_their_payloads() {
    let r = expenses::get_all_response(Ok(vec![]));
    assert_eq!(r.status, Status::Okay);
    assert!(matches!(r.body, Body::Success(Payload::Expenses(ref v)) if v.is_empty()));
    let r = expenses::delete_response(Ok(()));
    assert!(matches!(r.body, Body::Success(Payload::Nothing)));
    let r = expenses::create_response(Ok(55));
    assert!(matches!(r.body, Body::Success(Payload::ExpenseId(Some(55)))));
    let r = expenses::update_response(Ok(()));
    assert_eq!(r.status, Status::Okay);
    assert!(matches!(r.body, Body::Success(Payload::ExpenseId(None))));
}

#[test]
fn creating_for_another_user_is_forbidden() {
    let e = CreateExpense { user_id: 2, amount: Decimal::new(5, 0), description: "x".to_string(), tags: vec![1] };
    let r = expenses::create_request(3, e).unwrap_err();
    assert_eq!(r.status, Status::Forbidden);
    assert_eq!(message(&r), (ErrorType::Forbidden, "You can only create expenses for yourself".to_string()));
}

#[test]
fn creating_for_oneself_goes_through_unchanged() {
    let e = CreateExpense { user_id: 3, amount: Decimal::new(5, 0), description: "x".to_string(), tags: vec![1, 2] };
    let e = expenses::create_request(3, e).unwrap();
    assert_eq!(e.user_id, 3);
    assert_eq!(e.description, "x");
    assert_eq!(e.tags, vec![1, 2]);
}

#[test]
fn missing_tag_is_answered_404() {
    let r = tags::get_by_id_response(Ok(None));
    assert_eq!(r.status, Status::NotFound);
    assert_eq!(message(&r), (ErrorType::NotFound, "Tag not found".to_string()));
    let r = tags::get_by_id_response(Ok(Some(Tag { tag_id: 1, tagname: "a".to_string() })));
    assert!(matches!(r.body, Body::Success(Payload::Tag(ref t)) if t.tag_id == 1));
}

#[test]
fn tag_update_with_mismatched_ids_is_a_bad_request() {
    let r = tags::update_request(4, Tag { tag_id: 5, tagname: "a".to_string() }).unwrap_err();
    assert_eq!(r.status, Status::BadRequest);
    assert_eq!(message(&r), (ErrorType::BadRequest, "Tag id in path and body do not match".to_string()));
    let t = tags::update_request(5, Tag { tag_id: 5, tagname: "a".to_string() }).unwrap();
    assert_eq!(t.tagname, "a");
}

#[test]
fn tag_routes_answer_database_errors_with_500() {
    assert!(is_database_failure(&tags::get_all_response(Err(sqlx::Error::RowNotFound))));
    assert!(is_database_failure(&tags::get_by_id_response(Err(sqlx::Error::RowNotFound))));
    assert!(is_database_failure(&tags::create_response(Err(sqlx::Error::RowNotFound))));
    assert!(is_database_failure(&tags::update_response(Err(sqlx::Error::RowNotFound))));
    assert!(is_database_failure(&tags::delete_response(Err(sqlx::Error::RowNotFound))));
}

#[test]
fn tag_routes_answer_success_with_their_payloads() {
    let r = tags::get_all_response(Ok(vec![Tag { tag_id: 1, tagname: "a".to_string() }]));
    assert!(matches!(r.body, Body::Success(Payload::Tags(ref v)) if v.len() == 1));
    let r = tags::create_response(Ok(Tag { tag_id: 9, tagname: "n".to_string() }));
    assert!(matches!(r.body, Body::Success(Payload::Tag(ref t)) if t.tag_id == 9 && t.tagname == "n"));
    let r = tags::update_response(Ok(Tag { tag_id: 9, tagname: "m".to_string() }));
    assert_eq!(r.status, Status::Okay);
    let r = tags::delete_response(Ok(()));
    assert!(matches!(r.body, Body::Success(Payload::Nothing)));
}

