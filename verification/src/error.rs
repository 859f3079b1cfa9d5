//! The backend's error codes, and the JSON documents by which it reports
//! how a command went.

use vstd::prelude::*;
use crate::json::{json_quote, json_string_of};
use crate::text::{followed_by, decimal, decimal_string};

verus! {

/// The ways in which the backend ends. Each has a number of its own, which
/// is both the process's exit code and the `code` of the error document.
#[derive(Debug, PartialEq, Eq, Clone, Copy)]
pub enum ErrorCode {
    Success,
    InvalidArgs,
    PackageNotFound,
    DependencyCycle,
    InstallFailed,
    RemoveFailed,
    VerificationFailed,
    UnknownCommand,
}

/// The number of an error code.
pub open spec fn code_of(code: ErrorCode) -> i32 {
    match code {
        ErrorCode::Success => 0,
        ErrorCode::InvalidArgs => 1,
        ErrorCode::PackageNotFound => 2,
        ErrorCode::DependencyCycle => 3,
        ErrorCode::InstallFailed => 4,
        ErrorCode::RemoveFailed => 5,
        ErrorCode::VerificationFailed => 6,
        ErrorCode::UnknownCommand => 99,
    }
}

impl ErrorCode {
    /// The number of this code.
    pub fn code(self) -> (n: i32)
        ensures
            n == code_of(self),
    {
        match self {
            ErrorCode::Success => 0,
            ErrorCode::InvalidArgs => 1,
            ErrorCode::PackageNotFound => 2,
            ErrorCode::DependencyCycle => 3,
            ErrorCode::InstallFailed => 4,
            ErrorCode::RemoveFailed => 5,
            ErrorCode::VerificationFailed => 6,
            ErrorCode::UnknownCommand => 99,
        }
    }
}

/// No two error codes share a number.
pub proof fn lemma_codes_distinct(a: ErrorCode, b: ErrorCode)
    requires
        code_of(a) == code_of(b),
    ensures
        a == b,
{
}

/// What an error document says.
#[derive(Clone, Debug, PartialEq, Eq)]
pub struct ErrorInner {
    pub code: i32,
    pub message: String,
}

/// An error document: `{"err":{"code":..,"message":..}}`.
#[derive(Clone, Debug, PartialEq, Eq)]
pub struct ErrorPayload {
    pub err: ErrorInner,
}

/// The decimal numeral of an integer, with a minus sign where it is negative.
pub open spec fn signed_decimal(n: int) -> Seq<char> {
    if n < 0 {
        "-"@ + decimal((-n) as nat)
    } else {
        decimal(n as nat)
    }
}

/// Renders `n` in decimal.
pub fn signed_decimal_string(n: i32) -> (s: String)
    ensures
        s@ == signed_decimal(n as int),
{
    if n < 0 {
        let magnitude: u64 = (-(n as i64)) as u64;
        followed_by("-", decimal_string(magnitude).as_str())
    } else {
        decimal_string(n as u64)
    }
}

/// The error document with the given code and the given message, which is
/// already a JSON string literal.
pub open spec fn error_document(code: int, quoted_message: Seq<char>) -> Seq<char> {
    "{\"err\":{\"code\":"@ + signed_decimal(code) + ",\"message\":"@ + quoted_message + "}}"@
}

/// Writes the error document around a code and a message that is already a
/// JSON string literal.
pub fn frame_error(code: i32, quoted_message: &str) -> (doc: String)
    ensures
        doc@ == error_document(code as int, quoted_message@),
{
    let mut doc = followed_by("{\"err\":{\"code\":", signed_decimal_string(code).as_str());
    doc.append(",\"message\":");
    doc.append(quoted_message);
    doc.append("}}");
    doc
}

impl ErrorPayload {
    /// The error document for a code and a message.
    pub fn new(code: ErrorCode, msg: &str) -> (p: ErrorPayload)
        ensures
            p.err.code == code_of(code),
            p.err.message@ == msg@,
    {
        ErrorPayload { err: ErrorInner { code: code.code(), message: msg.to_string() } }
    }

    /// The document as JSON, on one line and without spaces.
    pub fn to_json(&self) -> (doc: String)
        ensures
            doc@ == error_document(self.err.code as int, json_string_of(self.err.message@)),
    {
        frame_error(self.err.code, json_quote(self.message()).as_str())
    }

    /// The message.
    pub fn message(&self) -> (m: &str)
        ensures
            m@ == self.err.message@,
    {
        self.err.message.as_str()
    }
}

/// What the backend leaves behind when it ends: a line on standard output or
/// on standard error, and its exit code.
#[derive(Clone, Debug, PartialEq, Eq)]
pub struct Report {
    /// The line for standard output, if any.
    pub stdout: Option<String>,
    /// The line for standard error, if any.
    pub stderr: Option<String>,
    /// The exit code.
    pub exit_code: i32,
}

/// Reports a failure: the error document goes to standard error, and the
/// process ends with the code's number.
pub fn output_error(code: ErrorCode, msg: &str) -> (r: Report)
    ensures
        r.stdout.is_none(),
        r.stderr.is_some(),
        r.stderr.unwrap()@ == error_document(code_of(code) as int, json_string_of(msg@)),
        r.exit_code == code_of(code),
{
    let payload = ErrorPayload::new(code, msg);
    Report { stdout: None, stderr: Some(payload.to_json()), exit_code: code.code() }
}

/// The document that reports success.
pub open spec fn success_document() -> Seq<char> {
    "{\"success\":true}"@
}

/// The document that reports success for a package, whose name is given as
/// a JSON string literal.
pub open spec fn package_success_document(quoted_name: Seq<char>) -> Seq<char> {
    "{\"success\":true,\"package_name\":"@ + quoted_name + "}"@
}

/// Writes the success document around a package name that is already a
/// JSON string literal.
pub fn frame_package_success(quoted_name: &str) -> (doc: String)
    ensures
        doc@ == package_success_document(quoted_name@),
{
    let mut doc = followed_by("{\"success\":true,\"package_name\":", quoted_name);
    doc.append("}");
    doc
}

/// Reports success: the document goes to standard output, naming the
/// package where there is one, and the process ends with 0.
pub fn output_success(package_name: Option<&str>) -> (r: Report)
    ensures
        r.stderr.is_none(),
        r.exit_code == 0,
        r.stdout.is_some(),
        r.stdout.unwrap()@ == match package_name {
            Some(name) => package_success_document(json_string_of(name@)),
            None => success_document(),
        },
{
    let doc = match package_name {
        Some(name) => frame_package_success(json_quote(name).as_str()),
        None => "{\"success\":true}".to_string(),
    };
    Report { stdout: Some(doc), stderr: None, exit_code: 0 }
}

} // verus!
