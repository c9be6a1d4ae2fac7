//! The routes under `/api/tags`. Every route acts for the user who made the
//! request.
use vstd::prelude::*;
use vstd::string::*;
use crate::models::Tag;
use crate::response::{
    database_failure, failure, is_database_failure, is_failure, is_success, consistent, success, ApiResponse, ErrorType,
    Payload, Status,
};
use crate::routes::{is_route, Method, Route};

verus! {

/// The routes, in the order in which they are mounted. No two of them share
/// both method and path.
pub fn get_routes() -> (res: Vec<Route>)
    ensures
        res@.len() == 5,
        forall|i: int, j: int|
            0 <= i < j < res@.len() ==> !(#[trigger] res@[i].method == #[trigger] res@[j].method && res@[i].uri@ == res@[j].uri@),
        is_route(res@[0], Method::Get, "/"@, None, "get_all"@),
        is_route(res@[1], Method::Get, "/<tag_id>"@, None, "get_by_id"@),
        is_route(res@[2], Method::Delete, "/<tag_id>"@, None, "delete"@),
        is_route(res@[3], Method::Post, "/"@, Some("<create_tag>"@), "create"@),
        is_route(res@[4], Method::Put, "/<tag_id>"@, Some("<tag>"@), "update"@),
{
    proof {
        reveal_strlit("/");
        reveal_strlit("/<tag_id>");
        assert("/"@.len() != "/<tag_id>"@.len());
    }
    let mut res = Vec::new();
    res.push(Route { method: Method::Get, uri: "/", data: None, name: "get_all" });
    res.push(Route { method: Method::Get, uri: "/<tag_id>", data: None, name: "get_by_id" });
    res.push(Route { method: Method::Delete, uri: "/<tag_id>", data: None, name: "delete" });
    res.push(Route { method: Method::Post, uri: "/", data: Some("<create_tag>"), name: "create" });
    res.push(Route { method: Method::Put, uri: "/<tag_id>", data: Some("<tag>"), name: "update" });
    assert forall|i: int, j: int| 0 <= i < j < res@.len() implies
        !(#[trigger] res@[i].method == #[trigger] res@[j].method && res@[i].uri@ == res@[j].uri@) by {
        assert(res@[i].uri@.len() != res@[j].uri@.len() || res@[i].method != res@[j].method);
    }
    res
}

/// `GET /`: the user's tags.
pub fn get_all_response(result: Result<Vec<Tag>, sqlx::Error>) -> (r: ApiResponse)
    ensures
        consistent(r),
        match result {
            Ok(v) => is_success(r, Payload::Tags(v)),
            Err(e) => is_database_failure(r, e),
        },
{
    match result {
        Ok(v) => success(Payload::Tags(v)),
        Err(e) => database_failure(e),
    }
}

/// The message of a request for a tag that the user does not have.
pub open spec fn missing_tag_text() -> Seq<char> {
    "Tag not found"@
}

/// `GET /<tag_id>`: the tag, where it belongs to the user; 404 where it does
/// not exist or belongs to another user.
pub fn get_by_id_response(result: Result<Option<Tag>, sqlx::Error>) -> (r: ApiResponse)
    ensures
        consistent(r),
        match result {
            Ok(Some(t)) => is_success(r, Payload::Tag(t)),
            Ok(None) => is_failure(r, Status::NotFound, ErrorType::NotFound, missing_tag_text()),
            Err(e) => is_database_failure(r, e),
        },
{
    match result {
        Ok(Some(t)) => success(Payload::Tag(t)),
        Ok(None) => failure(ErrorType::NotFound, String::from_str("Tag not found")),
        Err(e) => database_failure(e),
    }
}

/// `POST /`: the new tag.
pub fn create_response(result: Result<Tag, sqlx::Error>) -> (r: ApiResponse)
    ensures
        consistent(r),
        match result {
            Ok(t) => is_success(r, Payload::Tag(t)),
            Err(e) => is_database_failure(r, e),
        },
{
    match result {
        Ok(t) => success(Payload::Tag(t)),
        Err(e) => database_failure(e),
    }
}

/// The message of a change whose path and body name different tags.
pub open spec fn mismatched_tag_text() -> Seq<char> {
    "Tag id in path and body do not match"@
}

/// `PUT /<tag_id>`, before the database: the body must name the tag of the
/// path; any other is answered 400 and goes no further.
pub fn update_request(tag_id: i32, tag: Tag) -> (res: Result<Tag, ApiResponse>)
    ensures
        tag.tag_id == tag_id ==> res == Ok::<Tag, ApiResponse>(tag),
        tag.tag_id != tag_id ==> (res matches Err(r) && consistent(r)
            && is_failure(r, Status::BadRequest, ErrorType::BadRequest, mismatched_tag_text())),
{
    if tag.tag_id != tag_id {
        Err(failure(ErrorType::BadRequest, String::from_str("Tag id in path and body do not match")))
    } else {
        Ok(tag)
    }
}

/// `PUT /<tag_id>`: the changed tag.
pub fn update_response(result: Result<Tag, sqlx::Error>) -> (r: ApiResponse)
    ensures
        consistent(r),
        match result {
            Ok(t) => is_success(r, Payload::Tag(t)),
            Err(e) => is_database_failure(r, e),
        },
{
    match result {
        Ok(t) => success(Payload::Tag(t)),
        Err(e) => database_failure(e),
    }
}

/// `DELETE /<tag_id>`: success whether or not a tag was deleted.
pub fn delete_response(result: Result<(), sqlx::Error>) -> (r: ApiResponse)
    ensures
        consistent(r),
        match result {
            Ok(_) => is_success(r, Payload::Nothing),
            Err(e) => is_database_failure(r, e),
        },
{
    match result {
        Ok(_) => success(Payload::Nothing),
        Err(e) => database_failure(e),
    }
}

/// The messages of the tag routes: a tag that the user does not have is "not
/// found", and a change whose path and body name different tags is told so.
pub proof fn tag_messages_are_fixed()
    ensures
        missing_tag_text() == "Tag not found"@,
        mismatched_tag_text() == "Tag id in path and body do not match"@,
{
}

} // verus!
