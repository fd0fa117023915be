//! A terminal client for a forum service: the screens ("frames") that the user
//! moves between, the requests each screen sends and what each reply leads to.
//! Reading the terminal and talking to the server is left to the caller; this
//! crate decides what is sent and what comes of each answer.
use vstd::prelude::*;
use vstd::string::*;

pub mod frames;
pub mod text;
pub mod util;

use crate::frames::forums::ForumListItem;

verus! {

/// Where the forum service listens.
pub const HOST: &'static str = "http://127.0.0.1:8000/";

/// The `Origin` header that the chat and forum-detail requests carry.
pub const ORIGIN: &'static str = "http://127.0.0.1:5173";

/// The screen the client is on.
pub enum Frame {
    Home,
    Forums,
    OwnedForums(Vec<ForumListItem>),
    OwnedForum(ForumListItem),
    PermittedForums(Vec<ForumListItem>),
    PermittedForum(ForumListItem),
}

/// What a user action leads to: a text to show, a screen to move to, or both.
pub struct ActionOutput {
    pub response: Option<String>,
    pub frame_redirect: Option<Frame>,
}

/// `o` shows `text` and stays on the current screen.
pub open spec fn shows(o: ActionOutput, text: Seq<char>) -> bool {
    &&& o.response matches Some(s) && s@ == text
    &&& o.frame_redirect is None
}

/// `o` shows nothing and moves to `f`.
pub open spec fn moves_to(o: ActionOutput, f: Frame) -> bool {
    &&& o.response is None
    &&& o.frame_redirect == Some(f)
}

/// `o` shows `text` and moves to `f`.
pub open spec fn shows_and_moves_to(o: ActionOutput, text: Seq<char>, f: Frame) -> bool {
    &&& o.response matches Some(s) && s@ == text
    &&& o.frame_redirect == Some(f)
}

impl ActionOutput {
    pub fn new(response: String, frame: Frame) -> (r: Self)
        ensures
            r.response == Some(response),
            r.frame_redirect == Some(frame),
    {
        ActionOutput { response: Some(response), frame_redirect: Some(frame) }
    }

    pub fn response(response: String) -> (r: Self)
        ensures
            r.response == Some(response),
            r.frame_redirect is None,
    {
        ActionOutput { response: Some(response), frame_redirect: None }
    }

    pub fn redirect(frame: Frame) -> (r: Self)
        ensures
            r.response is None,
            r.frame_redirect == Some(frame),
    {
        ActionOutput { response: None, frame_redirect: Some(frame) }
    }
}

/// Applies an action's outcome to the current screen: returns the text to show,
/// if any, and the screen to be on next (the redirect when there is one, else
/// the current screen).
pub fn respond_redirect(output: ActionOutput, frame: Frame) -> (r: (Option<String>, Frame))
    ensures
        r.0 == output.response,
        r.1 == (match output.frame_redirect {
            Some(f) => f,
            None => frame,
        }),
{
    let ActionOutput { response, frame_redirect } = output;
    match frame_redirect {
        Some(f) => (response, f),
        None => (response, frame),
    }
}

/// Whether a failed request with this status sends the user back home.
pub open spec fn sends_home(code: u16) -> bool {
    code == 500 || code == 401
}

/// What a failed request leads to on the home and forum screens: the error text,
/// and a move home when the server failed (500) or the session is not
/// authorised (401).
pub fn error_output(code: u16, message: String) -> (r: ActionOutput)
    ensures
        r.response == Some(message),
        (code == 500 || code == 401) ==> r.frame_redirect == Some(Frame::Home),
        (code != 500 && code != 401) ==> r.frame_redirect is None,
        r.frame_redirect == (if sends_home(code) {
            Some(Frame::Home)
        } else {
            None
        }),
{
    if code == 500 || code == 401 {
        ActionOutput::new(message, Frame::Home)
    } else {
        ActionOutput::response(message)
    }
}

/// What a failed chat request leads to: the error text, and a move home only
/// when the session is not authorised (401).
pub fn chat_error_output(code: u16, message: String) -> (r: ActionOutput)
    ensures
        r.response == Some(message),
        r.frame_redirect == (if code == 401 {
            Some(Frame::Home)
        } else {
            None
        }),
{
    if code == 401 {
        ActionOutput::new(message, Frame::Home)
    } else {
        ActionOutput::response(message)
    }
}

/// What a request whose reply is plain text leads to: the reply is shown, and a
/// failure is handled by `error_output`.
pub fn reply_output(result: Result<String, (u16, String)>) -> (r: ActionOutput)
    ensures
        match result {
            Ok(s) => r.response == Some(s) && r.frame_redirect is None,
            Err((code, message)) => {
                &&& r.response == Some(message)
                &&& (code == 500 || code == 401) ==> r.frame_redirect == Some(Frame::Home)
                &&& (code != 500 && code != 401) ==> r.frame_redirect is None
            },
        },
        match result {
            Ok(s) => r.response == Some(s) && r.frame_redirect is None,
            Err((code, message)) => r.response == Some(message) && r.frame_redirect == (if sends_home(code) {
                Some(Frame::Home)
            } else {
                None
            }),
        },
{
    match result {
        Ok(s) => ActionOutput::response(s),
        Err((code, message)) => error_output(code, message),
    }
}

/// A failed request moves the user home exactly when the status is 500 or 401;
/// every other status (400, 403, 404, 409, ...) keeps the current screen.
pub proof fn lemma_sends_home_exactly(code: u16)
    ensures
        sends_home(code) <==> (code == 500 || code == 401),
        code == 400 ==> !sends_home(code),
        code == 403 ==> !sends_home(code),
        code == 404 ==> !sends_home(code),
        code == 409 ==> !sends_home(code),
{
}

/// How a request is sent.
pub enum Method {
    Get,
    PostForm,
}

/// A request to the forum service: the method, the full URL, whether it carries
/// the `ORIGIN` header, and the form fields of a post, in order.
pub struct Request {
    pub method: Method,
    pub url: String,
    pub with_origin: bool,
    pub form: Vec<(String, String)>,
}

/// The form fields as pairs of texts.
pub open spec fn form_view(form: Seq<(String, String)>) -> Seq<(Seq<char>, Seq<char>)> {
    form.map_values(|p: (String, String)| (p.0@, p.1@))
}

/// The full URL of a path of the service.
pub fn endpoint(path: &str) -> (r: String)
    ensures
        r@ == HOST@ + path@,
{
    let mut s = String::from_str(HOST);
    s.append(path);
    s
}

/// One form field.
pub fn field(key: &str, value: &str) -> (r: (String, String))
    ensures
        r.0@ == key@,
        r.1@ == value@,
{
    (String::from_str(key), String::from_str(value))
}

} // verus!
