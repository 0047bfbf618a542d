//! Problem documents: how an error is told to the caller of the webhook.

use crate::address::text_of;
use crate::error::{status_of, Error};
use vstd::prelude::*;
use vstd::string::*;

verus! {

/// The media type of a problem document in JSON.
pub const PROBLEM_JSON_MEDIA_TYPE: &'static str = "application/problem+json";

/// Where the description of each status is found; the status follows in three digits.
pub const STATUS_TYPE_BASE: &'static str = "https://httpstatuses.com/";

/// The status of a problem that states none.
pub const INTERNAL_SERVER_ERROR: u16 = 500;

pub const INVALID_TOKEN_TITLE: &'static str = "Invalid token.";

pub const INVALID_TOKEN_DETAIL: &'static str = "The passed token was invalid.";

pub const MALFORMED_HEADER_TITLE: &'static str = "Invalid `Authorization` header.";

pub const MALFORMED_HEADER_DETAIL: &'static str =
    "The `Authorization` header must hold `Token`, a space and the token.";

pub const DECODE_ERROR_TITLE: &'static str = "Invalid request body.";

pub const DECODE_ERROR_DETAIL: &'static str =
    "A field of the form is missing, repeated or malformed.";

/// A problem document.
#[derive(Debug, PartialEq, Eq)]
pub struct Problem {
    /// A URL that identifies the kind of problem.
    pub type_url: Option<String>,
    /// The HTTP status that goes with the problem.
    pub status: Option<u16>,
    /// A short summary of the kind of problem.
    pub title: String,
    /// What went wrong this time.
    pub detail: Option<String>,
}

/// A `Problem` as plain values.
pub struct ProblemView {
    pub type_url: Option<Seq<char>>,
    pub status: Option<u16>,
    pub title: Seq<char>,
    pub detail: Option<Seq<char>>,
}

impl View for Problem {
    type V = ProblemView;

    open spec fn view(&self) -> ProblemView {
        ProblemView {
            type_url: text_of(self.type_url),
            status: self.status,
            title: self.title@,
            detail: text_of(self.detail),
        }
    }
}

/// The title that `http_api_problem::HttpApiProblem::with_title_and_type_from_status` gives to
/// a problem of the status `code`: the usual reason phrase of the status, or a stand-in where
/// the status has none.
pub uninterp spec fn status_title(code: int) -> Seq<char>;

/// The character of a decimal digit.
pub open spec fn digit(d: int) -> char {
    ((48 + d) as u8) as char
}

/// The three decimal digits of a status.
pub open spec fn status_digits(code: int) -> Seq<char> {
    seq![digit(code / 100), digit(code / 10 % 10), digit(code % 10)]
}

/// The problem that stands for the status `code` alone, whose title is `title`.
pub open spec fn status_view(code: u16, title: Seq<char>) -> ProblemView {
    ProblemView {
        type_url: Some(STATUS_TYPE_BASE@ + status_digits(code as int)),
        status: Some(code),
        title,
        detail: None,
    }
}

/// A problem of the status `code` that is described in words.
pub open spec fn described(title: Seq<char>, code: u16, detail: Seq<char>) -> ProblemView {
    ProblemView { type_url: None, status: Some(code), title, detail: Some(detail) }
}

/// The problem document that tells of `e`.
pub open spec fn problem_of(e: Error) -> ProblemView {
    match e {
        Error::InvalidToken => described(INVALID_TOKEN_TITLE@, 401, INVALID_TOKEN_DETAIL@),
        Error::MalformedHeader => described(
            MALFORMED_HEADER_TITLE@,
            400,
            MALFORMED_HEADER_DETAIL@,
        ),
        Error::DecodeError => described(DECODE_ERROR_TITLE@, 400, DECODE_ERROR_DETAIL@),
        _ => status_view(INTERNAL_SERVER_ERROR, status_title(INTERNAL_SERVER_ERROR as int)),
    }
}

/// `http_api_problem::HttpApiProblem::with_title_and_type_from_status`, for the status that
/// `http::StatusCode::from_u16` makes of `code`. A status is made of the numbers from 100 to
/// 999 and of no others. The problem carries that status, a type URL that ends in the status,
/// the title that the crate has for the status, and no detail.
#[verifier::external_body]
fn status_problem(code: u16) -> (problem: Option<Problem>)
    ensures
        problem is Some <==> 100 <= code < 1000,
        problem matches Some(p) ==> p@ == status_view(code, status_title(code as int)),
{
    let status = http_api_problem::StatusCode::from_u16(code).ok()?;
    let p = http_api_problem::HttpApiProblem::with_title_and_type_from_status(status);
    Some(
        Problem {
            type_url: p.type_url,
            status: p.status.map(|s| s.as_u16()),
            title: p.title,
            detail: p.detail,
        },
    )
}

impl Problem {
    /// A problem with the title `title` and nothing else.
    pub fn new(title: &str) -> (problem: Problem)
        ensures
            problem@ == (ProblemView {
                type_url: None,
                status: None,
                title: title@,
                detail: None,
            }),
    {
        Problem { type_url: None, status: None, title: String::from_str(title), detail: None }
    }

    /// This problem with the status `status`.
    pub fn set_status(self, status: u16) -> (problem: Problem)
        ensures
            problem@ == (ProblemView { status: Some(status), ..self@ }),
    {
        Problem {
            type_url: self.type_url,
            status: Some(status),
            title: self.title,
            detail: self.detail,
        }
    }

    /// This problem with the detail `detail`.
    pub fn set_detail(self, detail: &str) -> (problem: Problem)
        ensures
            problem@ == (ProblemView { detail: Some(detail@), ..self@ }),
    {
        Problem {
            type_url: self.type_url,
            status: self.status,
            title: self.title,
            detail: Some(String::from_str(detail)),
        }
    }

    /// The status that answers with this problem: its own, or an internal server error where
    /// it states none.
    pub fn status_or_internal_server_error(&self) -> (code: u16)
        ensures
            code == reply_status(self@),
    {
        match self.status {
            Some(code) => code,
            None => INTERNAL_SERVER_ERROR,
        }
    }
}

/// The status that answers with `problem`.
pub open spec fn reply_status(problem: ProblemView) -> u16 {
    match problem.status {
        Some(code) => code,
        None => INTERNAL_SERVER_ERROR,
    }
}

/// Turns an error into the problem document that tells of it.
///
/// A request without a valid token is unauthorized; a malformed header or form is a bad
/// request; every other error is an internal one, of which the caller learns the status alone.
pub fn pack(err: &Error) -> (problem: Problem)
    ensures
        problem@ == problem_of(*err),
        problem@.status == Some(status_of(*err) as u16),
{
    match err {
        Error::InvalidToken => Problem::new(INVALID_TOKEN_TITLE).set_status(err.status()).set_detail(
            INVALID_TOKEN_DETAIL,
        ),
        Error::MalformedHeader => Problem::new(MALFORMED_HEADER_TITLE).set_status(
            err.status(),
        ).set_detail(MALFORMED_HEADER_DETAIL),
        Error::DecodeError => Problem::new(DECODE_ERROR_TITLE).set_status(err.status()).set_detail(
            DECODE_ERROR_DETAIL,
        ),
        _ => status_problem(err.status()).unwrap(),
    }
}

/// An HTTP response that carries a problem document.
#[derive(Debug, PartialEq, Eq)]
pub struct ProblemReply {
    /// The status of the response.
    pub status: u16,
    /// The value of the `Content-Type` header.
    pub content_type: String,
    /// The document, which is sent as JSON.
    pub body: Problem,
}

/// A `ProblemReply` as plain values.
pub struct ProblemReplyView {
    pub status: u16,
    pub content_type: Seq<char>,
    pub body: ProblemView,
}

impl View for ProblemReply {
    type V = ProblemReplyView;

    open spec fn view(&self) -> ProblemReplyView {
        ProblemReplyView {
            status: self.status,
            content_type: self.content_type@,
            body: self.body@,
        }
    }
}

/// The response that carries `problem`.
pub open spec fn reply_of(problem: ProblemView) -> ProblemReplyView {
    ProblemReplyView {
        status: reply_status(problem),
        content_type: PROBLEM_JSON_MEDIA_TYPE@,
        body: problem,
    }
}

/// Turns what a request was turned away with into a response.
///
/// A problem becomes a response of its status, marked as a problem document. Where there is no
/// problem, there is no response either, and the matter is left to others.
pub fn unpack(problem: Option<Problem>) -> (reply: Option<ProblemReply>)
    ensures
        match problem {
            Some(p) => reply is Some && reply.unwrap()@ == reply_of(p@),
            None => reply is None,
        },
{
    match problem {
        Some(body) => {
            let status = body.status_or_internal_server_error();
            Some(ProblemReply { status, content_type: String::from_str(PROBLEM_JSON_MEDIA_TYPE), body })
        },
        None => None,
    }
}

} // verus!
