//! The routes under `/api/expenses`. Every route acts for the user who made
//! the request.
use vstd::prelude::*;
use vstd::string::*;
use crate::models::Expense;
use crate::response::{
    database_failure, decimal, failure, is_database_failure, is_failure, is_success, consistent, push_decimal, success,
    ApiResponse, ErrorType, Payload, Status,
};
use crate::routes::{is_route, Method, Route};
use crate::services::expense_service::CreateExpense;

verus! {

/// The routes, in the order in which they are mounted. No two of them share
/// both method and path.
pub fn get_routes() -> (res: Vec<Route>)
    ensures
        res@.len() == 5,
        forall|i: int, j: int|
            0 <= i < j < res@.len() ==> !(#[trigger] res@[i].method == #[trigger] res@[j].method && res@[i].uri@ == res@[j].uri@),
        is_route(res@[0], Method::Get, "/"@, None, "get_all"@),
        is_route(res@[1], Method::Get, "/<expense_id>"@, None, "get_by_id"@),
        is_route(res@[2], Method::Delete, "/<expense_id>"@, None, "delete"@),
        is_route(res@[3], Method::Post, "/"@, Some("<expense>"@), "create"@),
        is_route(res@[4], Method::Put, "/<expense_id>"@, Some("<expense>"@), "update"@),
{
    proof {
        reveal_strlit("/");
        reveal_strlit("/<expense_id>");
        assert("/"@.len() != "/<expense_id>"@.len());
    }
    let mut res = Vec::new();
    res.push(Route { method: Method::Get, uri: "/", data: None, name: "get_all" });
    res.push(Route { method: Method::Get, uri: "/<expense_id>", data: None, name: "get_by_id" });
    res.push(Route { method: Method::Delete, uri: "/<expense_id>", data: None, name: "delete" });
    res.push(Route { method: Method::Post, uri: "/", data: Some("<expense>"), name: "create" });
    res.push(Route { method: Method::Put, uri: "/<expense_id>", data: Some("<expense>"), name: "update" });
    assert forall|i: int, j: int| 0 <= i < j < res@.len() implies
        !(#[trigger] res@[i].method == #[trigger] res@[j].method && res@[i].uri@ == res@[j].uri@) by {
        assert(res@[i].uri@.len() != res@[j].uri@.len() || res@[i].method != res@[j].method);
    }
    res
}

/// `GET /`: the user's expenses.
pub fn get_all_response(result: Result<Vec<Expense>, sqlx::Error>) -> (r: ApiResponse)
    ensures
        consistent(r),
        match result {
            Ok(v) => is_success(r, Payload::Expenses(v)),
            Err(e) => is_database_failure(r, e),
        },
{
    match result {
        Ok(v) => success(Payload::Expenses(v)),
        Err(e) => database_failure(e),
    }
}

/// The message of a request for an expense that the user does not have.
pub open spec fn missing_expense_text(expense_id: i32) -> Seq<char> {
    "Expense with id `"@ + decimal(expense_id as int) + "` does not exist"@
}

/// `GET /<expense_id>`: the expense, where it belongs to the user; 404 where it
/// does not exist or belongs to another user.
pub fn get_by_id_response(expense_id: i32, result: Result<Option<Expense>, sqlx::Error>) -> (r: ApiResponse)
    ensures
        consistent(r),
        match result {
            Ok(Some(e)) => is_success(r, Payload::Expense(e)),
            Ok(None) => is_failure(r, Status::NotFound, ErrorType::NotFound, missing_expense_text(expense_id)),
            Err(e) => is_database_failure(r, e),
        },
{
    match result {
        Ok(Some(e)) => success(Payload::Expense(e)),
        Ok(None) => {
            let mut msg = String::from_str("Expense with id `");
            push_decimal(&mut msg, expense_id);
            msg.append("` does not exist");
            failure(ErrorType::NotFound, msg)
        },
        Err(e) => database_failure(e),
    }
}

/// `DELETE /<expense_id>`: success whether or not an expense was deleted.
pub fn delete_response(result: Result<(), sqlx::Error>) -> (r: ApiResponse)
    ensures
        consistent(r),
        match result {
            Ok(_) => is_success(r, Payload::Nothing),
            Err(e) => is_database_failure(r, e),
        },
{
    match result {
        Ok(_) => success(Payload::Nothing),
        Err(e) => database_failure(e),
    }
}

/// The message of a request to create an expense for another user.
pub open spec fn forbidden_create_text() -> Seq<char> {
    "You can only create expenses for yourself"@
}

/// `POST /`, before the database: an expense may only be created for the user
/// who asks; any other is answered 403 and goes no further.
pub fn create_request(user_id: i32, expense: CreateExpense) -> (res: Result<CreateExpense, ApiResponse>)
    ensures
        expense.user_id == user_id ==> res == Ok::<CreateExpense, ApiResponse>(expense),
        expense.user_id != user_id ==> (res matches Err(r) && consistent(r)
            && is_failure(r, Status::Forbidden, ErrorType::Forbidden, forbidden_create_text())),
{
    if expense.user_id != user_id {
        Err(failure(ErrorType::Forbidden, String::from_str("You can only create expenses for yourself")))
    } else {
        Ok(expense)
    }
}

/// `POST /`: the id of the new expense.
pub fn create_response(result: Result<i32, sqlx::Error>) -> (r: ApiResponse)
    ensures
        consistent(r),
        match result {
            Ok(id) => is_success(r, Payload::ExpenseId(Some(id))),
            Err(e) => is_database_failure(r, e),
        },
{
    match result {
        Ok(id) => success(Payload::ExpenseId(Some(id))),
        Err(e) => database_failure(e),
    }
}

/// `PUT /<expense_id>`: success, with an `expense_id` of `null`, since the
/// change gives no value back.
pub fn update_response(result: Result<(), sqlx::Error>) -> (r: ApiResponse)
    ensures
        consistent(r),
        match result {
            Ok(_) => is_success(r, Payload::ExpenseId(None)),
            Err(e) => is_database_failure(r, e),
        },
{
    match result {
        Ok(_) => success(Payload::ExpenseId(None)),
        Err(e) => database_failure(e),
    }
}

/// The messages of the expense routes: a request for an expense that the user
/// does not have names the id, written in decimal; a request to create an
/// expense for another user is told it may only create its own.
pub proof fn expense_messages_are_fixed(expense_id: i32)
    ensures
        missing_expense_text(expense_id) == "Expense with id `"@ + decimal(expense_id as int) + "` does not exist"@,
        forbidden_create_text() == "You can only create expenses for yourself"@,
{
}

} // verus!
