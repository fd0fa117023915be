//! The screens of one forum, and its chat: the stream of messages that others
//! post, and the messages the user sends.
use vstd::prelude::*;
use vstd::string::*;

use crate::frames::forums::{forum_hex_id, hex_lower, ForumListItem};
use crate::text::{has_prefix, str_eq, strip_prefix};
use crate::{
    chat_error_output, endpoint, field, form_view, shows_and_moves_to, ActionOutput, Frame,
    Method, Request, HOST,
};

pub mod owned;
pub mod permitted;

verus! {

/// A chat message: who wrote it, in which forum, and what it says.
pub struct Message {
    pub user: String,
    pub forum_hex_id: String,
    pub value: String,
}

/// A GET request for `path` followed by the forum's hexadecimal id, with the
/// origin header.
pub(crate) fn forum_query(path: &str, item: &ForumListItem) -> (r: Request)
    ensures
        r.method is Get,
        r.url@ == HOST@ + path@ + hex_lower(item._id@),
        r.with_origin,
        r.form@.len() == 0,
{
    let mut url = endpoint(path);
    url.append(forum_hex_id(item).as_str());
    Request { method: Method::Get, url, with_origin: true, form: Vec::new() }
}

/// The request that opens the stream of a forum's messages.
pub fn stream_request(item: &ForumListItem) -> (r: Request)
    ensures
        r.method is Get,
        r.url@ == HOST@ + "forum/listen-messages?f="@ + hex_lower(item._id@),
        r.with_origin,
        r.form@.len() == 0,
{
    forum_query("forum/listen-messages?f=", item)
}

/// The request that closes the stream of a forum's messages.
pub fn unsubscribe_request(item: &ForumListItem) -> (r: Request)
    ensures
        r.method is Get,
        r.url@ == HOST@ + "forum/unsubscribe-messages?f="@ + hex_lower(item._id@),
        r.with_origin,
        r.form@.len() == 0,
{
    forum_query("forum/unsubscribe-messages?f=", item)
}

/// What opening the message stream leads to: the stream, or the failure as
/// `chat_error_output` reports it.
pub fn get_stream<R>(result: Result<R, (u16, String)>) -> (r: Result<R, ActionOutput>)
    ensures
        match result {
            Ok(reader) => r == Ok::<R, ActionOutput>(reader),
            Err((code, message)) => r matches Err(o) && o.response == Some(message)
                && o.frame_redirect == (if code == 401 {
                Some(Frame::Home)
            } else {
                None
            }),
        },
{
    match result {
        Ok(reader) => Ok(reader),
        Err((code, message)) => Err(chat_error_output(code, message)),
    }
}

/// A line of the message stream.
pub enum StreamLine {
    /// The service closed the stream.
    Closed,
    /// A message, still as text.
    Data(String),
    /// Anything else, which is passed over.
    Other,
}

/// Reads a line of the message stream: a line that begins with `event:closed`
/// ends the stream; one that begins with `data:` carries a message (what
/// follows the prefix); anything else is passed over.
pub fn classify_line(line: &str) -> (r: StreamLine)
    ensures
        has_prefix(line@, "event:closed"@) ==> r is Closed,
        !has_prefix(line@, "event:closed"@) && has_prefix(line@, "data:"@) ==> (r matches StreamLine::Data(d) && d@ == line@.subrange(5, line@.len() as int)),
        !has_prefix(line@, "event:closed"@) && !has_prefix(line@, "data:"@) ==> r is Other,
{
    if strip_prefix(line, "event:closed").is_some() {
        return StreamLine::Closed;
    }
    match strip_prefix(line, "data:") {
        Some(data) => {
            proof {
                reveal_strlit("data:");
            }
            StreamLine::Data(data)
        },
        None => StreamLine::Other,
    }
}

/// The line shown for a message from the stream: messages by others are shown
/// as "{user}: {value}"; the user's own are not shown.
pub fn incoming_text(user_name: &str, message: &Message) -> (r: Option<String>)
    ensures
        message.user@ == user_name@ ==> r is None,
        message.user@ != user_name@ ==> (r matches Some(t) && t@ == message.user@ + ": "@
            + message.value@),
{
    if str_eq(message.user.as_str(), user_name) {
        None
    } else {
        let mut t = message.user.clone();
        t.append(": ");
        t.append(message.value.as_str());
        Some(t)
    }
}

/// The text that leaves the chat.
pub open spec fn exit_text() -> Seq<char> {
    "--Exiting chat--"@
}

/// What a line typed in the chat leads to: `exit` leaves the chat for the
/// forums screen; anything else is a message to send.
pub fn chat_input(line: &str) -> (r: Option<ActionOutput>)
    ensures
        line@ == "exit"@ ==> (r matches Some(o) && shows_and_moves_to(o, exit_text(), Frame::Forums)),
        line@ != "exit"@ ==> r is None,
{
    if str_eq(line, "exit") {
        Some(ActionOutput::new(String::from_str("--Exiting chat--"), Frame::Forums))
    } else {
        None
    }
}

/// The request that posts a chat message to a forum.
pub fn message_request(item: &ForumListItem, user_name: &str, value: &str) -> (r: Request)
    ensures
        r.method is PostForm,
        r.url@ == HOST@ + "forum/message"@,
        r.with_origin,
        form_view(r.form@) == seq![
            ("forum_hex_id"@, hex_lower(item._id@)),
            ("user"@, user_name@),
            ("value"@, value@),
        ],
{
    let id = forum_hex_id(item);
    let mut form: Vec<(String, String)> = Vec::new();
    form.push(field("forum_hex_id", id.as_str()));
    form.push(field("user", user_name));
    form.push(field("value", value));
    assert(form_view(form@) =~= seq![
        ("forum_hex_id"@, hex_lower(item._id@)),
        ("user"@, user_name@),
        ("value"@, value@),
    ]);
    Request { method: Method::PostForm, url: endpoint("forum/message"), with_origin: true, form }
}

/// What posting a chat message leads to: the chat goes on after a success; a
/// failure ends it as `chat_error_output` reports it.
pub fn message(result: Result<String, (u16, String)>) -> (r: Option<ActionOutput>)
    ensures
        match result {
            Ok(_) => r is None,
            Err((code, text)) => r matches Some(o) && o.response == Some(text)
                && o.frame_redirect == (if code == 401 {
                Some(Frame::Home)
            } else {
                None
            }),
        },
{
    match result {
        Ok(_) => None,
        Err((code, text)) => Some(chat_error_output(code, text)),
    }
}

} // verus!
