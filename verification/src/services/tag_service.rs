//! The operations on tags. Each one is a single statement: the library gives
//! the statement, and makes the operation's result of its outcome.
use vstd::prelude::*;
use crate::db::{is_query, query1, query2, well_formed, Param, Query, QueryKind, Reply};
use crate::models::Tag;

verus! {

/// All tags of a user.
pub fn get_all_query(user_id: i32) -> (q: Query)
    ensures
        is_query(q, QueryKind::TagsOfUser, seq![Param::Int(user_id)]),
        well_formed(q),
{
    query1(QueryKind::TagsOfUser, user_id)
}

/// The tag `tag_id`, whoever owns it.
pub fn get_by_id_query(tag_id: i32) -> (q: Query)
    ensures
        is_query(q, QueryKind::TagById, seq![Param::Int(tag_id)]),
        well_formed(q),
{
    query1(QueryKind::TagById, tag_id)
}

/// The tag `tag_id` where it belongs to `user_id`.
pub fn get_by_id_checked_query(tag_id: i32, user_id: i32) -> (q: Query)
    ensures
        is_query(q, QueryKind::TagOfUser, seq![Param::Int(tag_id), Param::Int(user_id)]),
        well_formed(q),
{
    query2(QueryKind::TagOfUser, tag_id, user_id)
}

/// A new tag named `tagname` for `user_id`; the database gives back the new tag.
pub fn create_query(tagname: String, user_id: i32) -> (q: Query)
    ensures
        is_query(q, QueryKind::InsertTag, seq![Param::Text(tagname), Param::Int(user_id)]),
        well_formed(q),
{
    let mut params = Vec::new();
    params.push(Param::Text(tagname));
    params.push(Param::Int(user_id));
    assert(params@ =~= seq![Param::Text(tagname), Param::Int(user_id)]);
    Query { kind: QueryKind::InsertTag, params }
}

/// The new name of tag `tag.tag_id`, where it belongs to `user_id`; the
/// database gives back the changed tag.
pub fn update_query(tag: Tag, user_id: i32) -> (q: Query)
    ensures
        is_query(q, QueryKind::UpdateTag, seq![Param::Text(tag.tagname), Param::Int(tag.tag_id), Param::Int(user_id)]),
        well_formed(q),
{
    let Tag { tag_id, tagname } = tag;
    let mut params = Vec::new();
    params.push(Param::Text(tagname));
    params.push(Param::Int(tag_id));
    params.push(Param::Int(user_id));
    assert(params@ =~= seq![Param::Text(tagname), Param::Int(tag_id), Param::Int(user_id)]);
    Query { kind: QueryKind::UpdateTag, params }
}

/// The deletion of tag `tag_id`, where it belongs to `user_id`.
pub fn delete_by_id_checked_query(tag_id: i32, user_id: i32) -> (q: Query)
    ensures
        is_query(q, QueryKind::DeleteTag, seq![Param::Int(tag_id), Param::Int(user_id)]),
        well_formed(q),
{
    query2(QueryKind::DeleteTag, tag_id, user_id)
}

/// The tags that a statement gave back, or its error.
pub fn tags_result(outcome: Result<Reply, sqlx::Error>) -> (res: Result<Vec<Tag>, sqlx::Error>)
    requires
        outcome matches Ok(r) ==> r is Tags,
    ensures
        match outcome {
            Ok(Reply::Tags(v)) => res == Ok::<Vec<Tag>, sqlx::Error>(v),
            Err(e) => res == Err::<Vec<Tag>, sqlx::Error>(e),
            _ => false,
        },
{
    match outcome {
        Ok(Reply::Tags(v)) => Ok(v),
        Err(e) => Err(e),
        _ => {
            assert(false);
            Ok(Vec::new())
        },
    }
}

/// The tag that a statement gave back, or its error.
pub fn tag_result(outcome: Result<Reply, sqlx::Error>) -> (res: Result<Tag, sqlx::Error>)
    requires
        outcome matches Ok(r) ==> r is Tag,
    ensures
        match outcome {
            Ok(Reply::Tag(t)) => res == Ok::<Tag, sqlx::Error>(t),
            Err(e) => res == Err::<Tag, sqlx::Error>(e),
            _ => false,
        },
{
    match outcome {
        Ok(Reply::Tag(t)) => Ok(t),
        Err(e) => Err(e),
        _ => {
            assert(false);
            Ok(Tag { tag_id: 0, tagname: String::new() })
        },
    }
}

/// The tag, if any, that a statement gave back, or its error.
pub fn maybe_tag_result(outcome: Result<Reply, sqlx::Error>) -> (res: Result<Option<Tag>, sqlx::Error>)
    requires
        outcome matches Ok(r) ==> r is MaybeTag,
    ensures
        match outcome {
            Ok(Reply::MaybeTag(t)) => res == Ok::<Option<Tag>, sqlx::Error>(t),
            Err(e) => res == Err::<Option<Tag>, sqlx::Error>(e),
            _ => false,
        },
{
    match outcome {
        Ok(Reply::MaybeTag(t)) => Ok(t),
        Err(e) => Err(e),
        _ => {
            assert(false);
            Ok(None)
        },
    }
}

} // verus!
