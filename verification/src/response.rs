//! The answers of the HTTP API: a status, and a JSON object that is either
//! `{"status": "success", <key>: <payload>}` or
//! `{"status": "error", "error_type": <type>, "error": <text>}`.
use vstd::prelude::*;
use vstd::string::*;
use crate::models::{Expense, Tag};

verus! {

/// The statuses the API answers with.
#[derive(Clone, Copy, Debug, PartialEq, Eq, Structural)]
pub enum Status {
    /// 200 OK.
    Okay,
    BadRequest,
    Forbidden,
    NotFound,
    InternalServerError,
}

/// The HTTP code of each status.
pub open spec fn code_of(s: Status) -> u16 {
    match s {
        Status::Okay => 200,
        Status::BadRequest => 400,
        Status::Forbidden => 403,
        Status::NotFound => 404,
        Status::InternalServerError => 500,
    }
}

impl Status {
    /// The HTTP code of the status.
    pub fn code(self) -> (c: u16)
        ensures
            c == code_of(self),
    {
        match self {
            Status::Okay => 200,
            Status::BadRequest => 400,
            Status::Forbidden => 403,
            Status::NotFound => 404,
            Status::InternalServerError => 500,
        }
    }
}

/// The kinds of failure the API reports.
#[derive(Clone, Copy, Debug, PartialEq, Eq, Structural)]
pub enum ErrorType {
    DatabaseError,
    NotFound,
    Forbidden,
    BadRequest,
}

/// The name under which each kind of failure is reported.
pub open spec fn error_type_text(t: ErrorType) -> Seq<char> {
    match t {
        ErrorType::DatabaseError => "database_error"@,
        ErrorType::NotFound => "not_found"@,
        ErrorType::Forbidden => "forbidden"@,
        ErrorType::BadRequest => "bad_request"@,
    }
}

impl ErrorType {
    /// The name under which the failure is reported.
    pub fn name(self) -> (s: &'static str)
        ensures
            s@ == error_type_text(self),
    {
        match self {
            ErrorType::DatabaseError => "database_error",
            ErrorType::NotFound => "not_found",
            ErrorType::Forbidden => "forbidden",
            ErrorType::BadRequest => "bad_request",
        }
    }
}

/// What a successful answer carries.
#[derive(Debug)]
pub enum Payload {
    Nothing,
    Expenses(Vec<Expense>),
    Expense(Expense),
    /// The id of an expense; `None` is written as `null`.
    ExpenseId(Option<i32>),
    Tags(Vec<Tag>),
    Tag(Tag),
}

/// The key under which each payload stands in the answer.
pub open spec fn payload_key(p: Payload) -> Option<Seq<char>> {
    match p {
        Payload::Nothing => None,
        Payload::Expenses(_) => Some("expenses"@),
        Payload::Expense(_) => Some("expense"@),
        Payload::ExpenseId(_) => Some("expense_id"@),
        Payload::Tags(_) => Some("tags"@),
        Payload::Tag(_) => Some("tag"@),
    }
}

impl Payload {
    /// The key under which the payload stands in the answer, if it has one.
    pub fn key(&self) -> (k: Option<&'static str>)
        ensures
            match k {
                Some(s) => payload_key(*self) == Some(s@),
                None => payload_key(*self) is None,
            },
    {
        match self {
            Payload::Nothing => None,
            Payload::Expenses(_) => Some("expenses"),
            Payload::Expense(_) => Some("expense"),
            Payload::ExpenseId(_) => Some("expense_id"),
            Payload::Tags(_) => Some("tags"),
            Payload::Tag(_) => Some("tag"),
        }
    }
}

/// The text of a failure: a message of the API's own, or a database error,
/// which is written as that error displays itself.
#[derive(Debug)]
pub enum ErrorText {
    Message(String),
    Database(sqlx::Error),
}

/// The JSON object of an answer.
#[derive(Debug)]
pub enum Body {
    Success(Payload),
    Failure { error_type: ErrorType, error: ErrorText },
}

/// The value of the `"status"` field of each body.
pub open spec fn status_text(b: Body) -> Seq<char> {
    match b {
        Body::Success(_) => "success"@,
        Body::Failure { .. } => "error"@,
    }
}

impl Body {
    /// The value of the `"status"` field of the body.
    pub fn status_text(&self) -> (s: &'static str)
        ensures
            s@ == status_text(*self),
    {
        match self {
            Body::Success(_) => "success",
            Body::Failure { .. } => "error",
        }
    }
}

/// An answer of the API.
#[derive(Debug)]
pub struct ApiResponse {
    pub status: Status,
    pub body: Body,
}

/// The status that goes with each kind of failure.
pub open spec fn status_of(t: ErrorType) -> Status {
    match t {
        ErrorType::DatabaseError => Status::InternalServerError,
        ErrorType::NotFound => Status::NotFound,
        ErrorType::Forbidden => Status::Forbidden,
        ErrorType::BadRequest => Status::BadRequest,
    }
}

/// An answer pairs its status with its body: 200 with a success, and each
/// failure with the status of its kind; exactly the database failures carry a
/// database error.
pub open spec fn consistent(r: ApiResponse) -> bool {
    match r.body {
        Body::Success(_) => r.status == Status::Okay,
        Body::Failure { error_type, error } => {
            &&& r.status == status_of(error_type)
            &&& (error is Database <==> error_type == ErrorType::DatabaseError)
        },
    }
}

/// `r` answers 200 with `payload`.
pub open spec fn is_success(r: ApiResponse, payload: Payload) -> bool {
    r.status == Status::Okay && r.body == Body::Success(payload)
}

/// `r` answers `status` with a failure of type `t` and the message `msg`.
pub open spec fn is_failure(r: ApiResponse, status: Status, t: ErrorType, msg: Seq<char>) -> bool {
    &&& r.status == status
    &&& r.body matches Body::Failure { error_type, error: ErrorText::Message(m) } && error_type == t && m@ == msg
}

/// `r` answers 500 with the database error `e`.
pub open spec fn is_database_failure(r: ApiResponse, e: sqlx::Error) -> bool {
    r.status == Status::InternalServerError
        && r.body == (Body::Failure { error_type: ErrorType::DatabaseError, error: ErrorText::Database(e) })
}

/// The answer to a request that succeeded.
pub fn success(payload: Payload) -> (r: ApiResponse)
    ensures
        is_success(r, payload),
        consistent(r),
{
    ApiResponse { status: Status::Okay, body: Body::Success(payload) }
}

/// The answer to a request that failed in the database.
pub fn database_failure(e: sqlx::Error) -> (r: ApiResponse)
    ensures
        is_database_failure(r, e),
        consistent(r),
{
    ApiResponse {
        status: Status::InternalServerError,
        body: Body::Failure { error_type: ErrorType::DatabaseError, error: ErrorText::Database(e) },
    }
}

/// The answer to a request that the API refuses, with the status of the kind
/// of failure.
pub fn failure(error_type: ErrorType, message: String) -> (r: ApiResponse)
    requires
        error_type != ErrorType::DatabaseError,
    ensures
        is_failure(r, status_of(error_type), error_type, message@),
        consistent(r),
{
    let status = match error_type {
        ErrorType::DatabaseError => Status::InternalServerError,
        ErrorType::NotFound => Status::NotFound,
        ErrorType::Forbidden => Status::Forbidden,
        ErrorType::BadRequest => Status::BadRequest,
    };
    ApiResponse { status, body: Body::Failure { error_type, error: ErrorText::Message(message) } }
}

/// The digit `d`.
pub open spec fn digit_char(d: nat) -> char {
    ((('0' as u32) as nat) + d) as char
}

/// The decimal digits of `n`, without leading zeros.
pub open spec fn digits(n: nat) -> Seq<char>
    decreases n,
{
    if n < 10 {
        seq![digit_char(n)]
    } else {
        digits(n / 10).push(digit_char(n % 10))
    }
}

/// `n` written in decimal, with a `-` before a negative number.
pub open spec fn decimal(n: int) -> Seq<char> {
    if n < 0 {
        seq!['-'] + digits((-n) as nat)
    } else {
        digits(n as nat)
    }
}

fn digit_str(d: u32) -> (s: &'static str)
    requires
        d < 10,
    ensures
        s@ == seq![digit_char(d as nat)],
{
    proof {
        reveal_strlit("0");
        reveal_strlit("1");
        reveal_strlit("2");
        reveal_strlit("3");
        reveal_strlit("4");
        reveal_strlit("5");
        reveal_strlit("6");
        reveal_strlit("7");
        reveal_strlit("8");
        reveal_strlit("9");
    }
    let s = if d == 0 {
        "0"
    } else if d == 1 {
        "1"
    } else if d == 2 {
        "2"
    } else if d == 3 {
        "3"
    } else if d == 4 {
        "4"
    } else if d == 5 {
        "5"
    } else if d == 6 {
        "6"
    } else if d == 7 {
        "7"
    } else if d == 8 {
        "8"
    } else {
        "9"
    };
    assert(s@ =~= seq![digit_char(d as nat)]);
    s
}

fn push_digits(s: &mut String, n: u32)
    ensures
        final(s)@ == old(s)@ + digits(n as nat),
    decreases n,
{
    if n >= 10 {
        push_digits(s, n / 10);
    }
    s.append(digit_str(n % 10));
    assert(final(s)@ =~= old(s)@ + digits(n as nat));
}

/// Appends `n` written in decimal to `s`.
pub fn push_decimal(s: &mut String, n: i32)
    ensures
        final(s)@ == old(s)@ + decimal(n as int),
{
    if n < 0 {
        s.append("-");
        proof {
            reveal_strlit("-");
        }
        let m: u32 = (0i64 - (n as i64)) as u32;
        push_digits(s, m);
        assert(final(s)@ =~= old(s)@ + decimal(n as int));
    } else {
        push_digits(s, n as u32);
    }
}

/// The number that a string of decimal digits stands for.
pub open spec fn digits_value(s: Seq<char>) -> int
    decreases s.len(),
{
    if s.len() == 0 {
        0
    } else {
        10 * digits_value(s.drop_last()) + ((s.last() as int) - ('0' as int))
    }
}

/// A string of decimal digits with no leading zero.
pub open spec fn plain_digits(s: Seq<char>) -> bool {
    &&& s.len() > 0
    &&& forall|i: int| 0 <= i < s.len() ==> '0' <= #[trigger] s[i] <= '9'
    &&& s.len() > 1 ==> s[0] != '0'
}

proof fn digits_write_the_number(n: nat)
    ensures
        plain_digits(digits(n)),
        digits_value(digits(n)) == n,
        n < 10 <==> digits(n).len() == 1,
    decreases n,
{
    assert(('0' as u32) as nat == 48);
    assert((digit_char(n % 10) as int) == 48 + n % 10);
    assert(('0' as int) == 48);
    if n >= 10 {
        digits_write_the_number(n / 10);
        let d = digits(n / 10);
        let s = d.push(digit_char(n % 10));
        assert(s.drop_last() =~= d);
        assert forall|i: int| 0 <= i < s.len() implies '0' <= #[trigger] s[i] <= '9' by {
            if i < d.len() {
                assert(s[i] == d[i]);
            }
        }
        assert(s[0] == d[0]);
        assert(digits(n) == s);
        assert(digits_value(s) == 10 * digits_value(d) + ((s.last() as int) - ('0' as int)));
    } else {
        let s = seq![digit_char(n)];
        assert(digits(n) == s);
        assert(s.drop_last() =~= Seq::<char>::empty());
        assert(digits_value(Seq::<char>::empty()) == 0);
        assert(digits_value(s) == 10 * digits_value(s.drop_last()) + ((s.last() as int) - ('0' as int)));
    }
}

/// `decimal(n)` writes `n` as Rust displays an integer: digits `0` to `9`
/// with no leading zero, standing for `|n|`, after a `-` when `n` is negative.
pub proof fn decimal_writes_the_number(n: int)
    ensures
        n >= 0 ==> plain_digits(decimal(n)) && digits_value(decimal(n)) == n,
        n < 0 ==> decimal(n).len() > 1 && decimal(n)[0] == '-'
            && plain_digits(decimal(n).drop_first()) && digits_value(decimal(n).drop_first()) == -n,
{
    if n >= 0 {
        digits_write_the_number(n as nat);
    } else {
        digits_write_the_number((-n) as nat);
        assert(decimal(n).drop_first() =~= digits((-n) as nat));
    }
}

/// The numbers, names and keys of the answers: each status has its HTTP code,
/// each kind of failure its name and its status, each payload its key, and
/// each body its `"status"` text.
pub proof fn every_answer_word_is_fixed()
    ensures
        code_of(Status::Okay) == 200,
        code_of(Status::BadRequest) == 400,
        code_of(Status::Forbidden) == 403,
        code_of(Status::NotFound) == 404,
        code_of(Status::InternalServerError) == 500,
        error_type_text(ErrorType::DatabaseError) == "database_error"@,
        error_type_text(ErrorType::NotFound) == "not_found"@,
        error_type_text(ErrorType::Forbidden) == "forbidden"@,
        error_type_text(ErrorType::BadRequest) == "bad_request"@,
        status_of(ErrorType::DatabaseError) == Status::InternalServerError,
        status_of(ErrorType::NotFound) == Status::NotFound,
        status_of(ErrorType::Forbidden) == Status::Forbidden,
        status_of(ErrorType::BadRequest) == Status::BadRequest,
        payload_key(Payload::Nothing) is None,
        forall|v: Vec<Expense>| #[trigger] payload_key(Payload::Expenses(v)) == Some("expenses"@),
        forall|e: Expense| #[trigger] payload_key(Payload::Expense(e)) == Some("expense"@),
        forall|id: Option<i32>| #[trigger] payload_key(Payload::ExpenseId(id)) == Some("expense_id"@),
        forall|v: Vec<Tag>| #[trigger] payload_key(Payload::Tags(v)) == Some("tags"@),
        forall|t: Tag| #[trigger] payload_key(Payload::Tag(t)) == Some("tag"@),
        forall|p: Payload| #[trigger] status_text(Body::Success(p)) == "success"@,
        forall|t: ErrorType, x: ErrorText| #[trigger] status_text(Body::Failure { error_type: t, error: x }) == "error"@,
{
}

/// What the descriptions of answers mean: a success is status 200 with that
/// payload; a refusal is the given status with the given kind of failure and
/// message; a database failure is status 500, kind `database_error`, with that
/// very error; and a consistent answer pairs 200 with success and each failure
/// with the status of its kind.
pub proof fn answer_descriptions_mean(r: ApiResponse, p: Payload, s: Status, t: ErrorType, m: Seq<char>, e: sqlx::Error)
    ensures
        is_success(r, p) <==> (r.status == Status::Okay && r.body == Body::Success(p)),
        is_failure(r, s, t, m) <==> (r.status == s && (r.body matches Body::Failure { error_type, error: ErrorText::Message(msg) }
            && error_type == t && msg@ == m)),
        is_database_failure(r, e) <==> (r.status == Status::InternalServerError
            && r.body == (Body::Failure { error_type: ErrorType::DatabaseError, error: ErrorText::Database(e) })),
        consistent(r) <==> match r.body {
            Body::Success(_) => r.status == Status::Okay,
            Body::Failure { error_type, error } => r.status == status_of(error_type)
                && (error is Database <==> error_type == ErrorType::DatabaseError),
        },
{
}

} // verus!
