//! The records that the service hands out.
use vstd::prelude::*;
use rust_decimal::Decimal;
use chrono::NaiveDateTime;
use secrecy::SecretBytesMut;

verus! {

/// A label that a user attaches to expenses.
#[derive(Debug)]
pub struct Tag {
    pub tag_id: i32,
    pub tagname: String,
}

impl Clone for Tag {
    fn clone(&self) -> (res: Self)
        ensures
            res == *self,
    {
        Tag { tag_id: self.tag_id, tagname: self.tagname.clone() }
    }
}

/// A user as the service shows it.
#[derive(Debug, Clone)]
pub struct User {
    pub user_id: i32,
    pub display_name: String,
    pub email: String,
    /// `None` when the password is hidden, as it is in every user that the
    /// services hand out.
    pub password: Option<SecretBytesMut>,
    pub creation_time: NaiveDateTime,
}

/// An expense with its owner and its tags.
#[derive(Debug, Clone)]
pub struct Expense {
    pub expense_id: i32,
    pub user: User,
    pub amount: Decimal,
    pub description: String,
    pub expense_time: NaiveDateTime,
    pub tags: Vec<Tag>,
}

} // verus!
