//! Reading the user's menu choices and turning the service's replies into
//! results.
use vstd::prelude::*;
use vstd::string::*;

use crate::text::{decimal, decimal_string, parse_at_most, parse_bounded, str_eq, trim_line, trimmed};
use crate::{moves_to, shows, ActionOutput, Frame};

verus! {

/// What came back for a request: a successful reply with its body `B` (the
/// body as read, parsed or to be read), a reply with an error status and its
/// body (`None` where the body could not be read), or no reply at all.
pub enum HttpReply<B> {
    Received(B),
    Status(u16, Option<String>),
    Unreachable,
}

/// The text shown when an error reply's body could not be read.
pub open spec fn too_large_error_text() -> Seq<char> {
    "The error response was too large."@
}

/// The code and text that a failed request is reported with.
pub open spec fn failure_of<B>(reply: HttpReply<B>) -> (u16, Seq<char>) {
    match reply {
        HttpReply::Status(code, body) => (
            code,
            decimal(code as nat) + ": "@ + match body {
                Some(b) => b@,
                None => too_large_error_text(),
            },
        ),
        _ => (500, "Connection error."@),
    }
}

/// `r` reports the failure of `reply`.
pub open spec fn reports_failure<B, T>(r: Result<T, (u16, String)>, reply: HttpReply<B>) -> bool {
    r matches Err(e) && e.0 == failure_of(reply).0 && e.1@ == failure_of(reply).1
}

/// Keeps the body of a successful reply and turns a failure into its code and
/// text: `"{code}: {body}"` for an error status, `(500, "Connection error.")`
/// when nothing came back.
pub fn ureq_result_to_response<B>(result: HttpReply<B>) -> (r: Result<B, (u16, String)>)
    ensures
        match result {
            HttpReply::Received(b) => r == Ok::<B, (u16, String)>(b),
            _ => reports_failure(r, result),
        },
{
    match result {
        HttpReply::Received(b) => Ok(b),
        HttpReply::Status(code, body) => {
            let mut text = decimal_string(code as u64);
            text.append(": ");
            match body {
                Some(b) => text.append(b.as_str()),
                None => text.append("The error response was too large."),
            }
            Err((code, text))
        },
        HttpReply::Unreachable => Err((500, String::from_str("Connection error."))),
    }
}

/// The reply's body as a stream, or the failure.
pub fn ureq_result_to_reader<B>(result: HttpReply<B>) -> (r: Result<B, (u16, String)>)
    ensures
        match result {
            HttpReply::Received(b) => r == Ok::<B, (u16, String)>(b),
            _ => reports_failure(r, result),
        },
{
    ureq_result_to_response(result)
}

/// The value a successful reply's body was parsed into; a body that did not
/// parse is reported with code 500 and the parser's message.
pub fn ureq_result_to_json<T>(result: HttpReply<Result<T, String>>) -> (r: Result<T, (u16, String)>)
    ensures
        match result {
            HttpReply::Received(Ok(v)) => r == Ok::<T, (u16, String)>(v),
            HttpReply::Received(Err(m)) => r == Err::<T, (u16, String)>((500u16, m)),
            _ => reports_failure(r, result),
        },
{
    let r = ureq_result_to_response(result);
    match r {
        Ok(Ok(v)) => Ok(v),
        Ok(Err(m)) => Err((500, m)),
        Err(e) => Err(e),
    }
}

/// The text of a successful reply (a fixed notice where its body could not be
/// read), or the failure.
pub fn ureq_result_to_string(result: HttpReply<Option<String>>) -> (r: Result<String, (u16, String)>)
    ensures
        match result {
            HttpReply::Received(Some(s)) => r == Ok::<String, (u16, String)>(s),
            HttpReply::Received(None) => r matches Ok(s) && s@ == "The ok response was too large."@,
            _ => reports_failure(r, result),
        },
{
    let r = ureq_result_to_response(result);
    match r {
        Ok(Some(s)) => Ok(s),
        Ok(None) => Ok(String::from_str("The ok response was too large.")),
        Err(e) => Err(e),
    }
}

/// The text shown for a menu entry that does not exist.
pub open spec fn unavailable_text(input: Seq<char>) -> Seq<char> {
    "Action '"@ + input + "' not available"@
}

/// Reads a menu choice from the line the user typed, without the white space
/// around it: `home` and `forums` move to those screens, an unsigned number no
/// larger than `limit` is the choice, and anything else is answered with
/// "Action '{input}' not available".
pub fn proccess_input(line: &str, limit: u64) -> (r: Result<u64, ActionOutput>)
    ensures
        trimmed(line@) == "home"@ ==> (r matches Err(o) && moves_to(o, Frame::Home)),
        trimmed(line@) == "forums"@ ==> (r matches Err(o) && moves_to(o, Frame::Forums)),
        trimmed(line@) != "home"@ && trimmed(line@) != "forums"@ ==> match parse_at_most(
            trimmed(line@),
            limit as nat,
        ) {
            Some(v) => r == Ok::<u64, ActionOutput>(v as u64),
            None => r matches Err(o) && shows(o, unavailable_text(trimmed(line@))),
        },
{
    let owned = trim_line(line);
    let input = owned.as_str();
    if str_eq(input, "home") {
        proof {
            reveal_strlit("home");
            reveal_strlit("forums");
        }
        return Err(ActionOutput::redirect(Frame::Home));
    }
    if str_eq(input, "forums") {
        return Err(ActionOutput::redirect(Frame::Forums));
    }
    match parse_bounded(input, limit) {
        Some(v) => Ok(v),
        None => {
            let mut text = String::from_str("Action '");
            text.append(input);
            text.append("' not available");
            Err(ActionOutput::response(text))
        },
    }
}

} // verus!
