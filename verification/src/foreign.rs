//! Declarations of the outside types that the library carries through.
//! Each one is opaque: a value of it is moved and compared as a whole.
use vstd::prelude::*;

verus! {

/// `rust_decimal::Decimal`, the amount of an expense.
#[verifier::external_type_specification]
#[verifier::external_body]
pub struct ExDecimal(rust_decimal::Decimal);

/// `chrono::NaiveDateTime`, the time of an expense or of a user's creation.
#[verifier::external_type_specification]
#[verifier::external_body]
pub struct ExNaiveDateTime(chrono::NaiveDateTime);


/// `Decimal::clone`: `Decimal` derives `Clone` beside `Copy`, so the clone is
/// the value itself.
pub assume_specification[ <rust_decimal::Decimal as Clone>::clone ](d: &rust_decimal::Decimal) -> (res: rust_decimal::Decimal)
    ensures
        res == *d,
;

/// `NaiveDateTime::clone`: `NaiveDateTime` derives `Clone` beside `Copy`, so
/// the clone is the value itself.
pub assume_specification[ <chrono::NaiveDateTime as Clone>::clone ](t: &chrono::NaiveDateTime) -> (res: chrono::NaiveDateTime)
    ensures
        res == *t,
;

/// `secrecy::SecretBytesMut`, which holds a password: it is wiped when dropped,
/// and its `Debug` writes `SecretBytesMut([REDACTED])` in place of the text.
#[verifier::external_type_specification]
#[verifier::external_body]
pub struct ExSecretBytesMut(secrecy::SecretBytesMut);

/// `SecretBytesMut::clone`, which the derived `Clone` of `User` calls. Nothing
/// is stated of the copy: the type shows nothing of its contents.
pub assume_specification[ <secrecy::SecretBytesMut as Clone>::clone ](s: &secrecy::SecretBytesMut) -> secrecy::SecretBytesMut;

/// `sqlx::Error`, the error of a database call.
#[verifier::external_type_specification]
#[verifier::external_body]
pub struct ExSqlxError(sqlx::Error);

} // verus!
