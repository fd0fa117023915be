//! The home screen: creating a user and signing in.
use vstd::prelude::*;
use vstd::string::*;

use crate::frames::forums::reply_output_spec;
use crate::text::{decimal, decimal_string, str_eq};
use crate::{
    endpoint, error_output, field, form_view, moves_to, reply_output, shows,
    shows_and_moves_to, ActionOutput, Frame, Method, Request, HOST,
};

verus! {

/// The signed-in user, once known.
pub struct User {
    pub name: Option<String>,
}

/// The text shown when no user has signed in.
pub open spec fn no_user_text() -> Seq<char> {
    "Could not find a user name. Try signing in again"@
}

impl User {
    /// The signed-in user's name; without one, the user is sent home with a
    /// notice to sign in again.
    pub fn get_name(&self) -> (r: Result<String, ActionOutput>)
        ensures
            match self.name {
                Some(n) => r == Ok::<String, ActionOutput>(n),
                None => r matches Err(o) && shows_and_moves_to(o, no_user_text(), Frame::Home),
            },
    {
        match &self.name {
            Some(n) => Ok(n.clone()),
            None => Err(
                ActionOutput::new(
                    String::from_str("Could not find a user name. Try signing in again"),
                    Frame::Home,
                ),
            ),
        }
    }
}

/// The menu of the home screen.
pub const HOME_MENU: &'static str = "Home:\n(1) 'create user'\n(2) 'sign in'";

/// What the user chose on the home screen.
pub enum HomeAction {
    CreateUser,
    SignIn,
    Finish(ActionOutput),
}

/// The home screen's menu: 1 creates a user, 2 signs in; any other number is
/// answered with "Action {n} not available.".
pub fn run(input: u32) -> (r: HomeAction)
    ensures
        input == 1 ==> r is CreateUser,
        input == 2 ==> r is SignIn,
        (input < 1 || input > 2) ==> (r matches HomeAction::Finish(o) && shows(
            o,
            "Action "@ + decimal(input as nat) + " not available."@,
        )),
{
    if input == 1 {
        HomeAction::CreateUser
    } else if input == 2 {
        HomeAction::SignIn
    } else {
        let mut text = String::from_str("Action ");
        text.append(decimal_string(input as u64).as_str());
        text.append(" not available.");
        HomeAction::Finish(ActionOutput::response(text))
    }
}

/// Whether the confirmation typed matches the password.
pub fn passwords_match(password: &str, confirmation: &str) -> (r: bool)
    ensures
        r == (password@ == confirmation@),
{
    str_eq(password, confirmation)
}

/// A form post of a name and a password to `path`.
fn credentials_request(path: &str, name: &str, password: &str) -> (r: Request)
    ensures
        r.method is PostForm,
        r.url@ == HOST@ + path@,
        !r.with_origin,
        form_view(r.form@) == seq![("name"@, name@), ("password"@, password@)],
{
    let mut form: Vec<(String, String)> = Vec::new();
    form.push(field("name", name));
    form.push(field("password", password));
    assert(form_view(form@) =~= seq![("name"@, name@), ("password"@, password@)]);
    Request { method: Method::PostForm, url: endpoint(path), with_origin: false, form }
}

/// The request that creates a user.
pub fn create_user_request(name: &str, password: &str) -> (r: Request)
    ensures
        r.method is PostForm,
        r.url@ == HOST@ + "user/create"@,
        !r.with_origin,
        form_view(r.form@) == seq![("name"@, name@), ("password"@, password@)],
{
    credentials_request("user/create", name, password)
}

/// What creating a user leads to: the service's answer is shown; failures go
/// through `error_output`.
pub fn create_user(result: Result<String, (u16, String)>) -> (r: ActionOutput)
    ensures
        r == reply_output_spec(result),
        match result {
            Ok(s) => r.response == Some(s) && r.frame_redirect is None,
            Err((code, message)) => {
                &&& r.response == Some(message)
                &&& (code == 500 || code == 401) ==> r.frame_redirect == Some(Frame::Home)
                &&& (code != 500 && code != 401) ==> r.frame_redirect is None
            },
        },
{
    reply_output(result)
}

/// The request that signs a user in.
pub fn sign_in_request(name: &str, password: &str) -> (r: Request)
    ensures
        r.method is PostForm,
        r.url@ == HOST@ + "user/sign-in"@,
        !r.with_origin,
        form_view(r.form@) == seq![("name"@, name@), ("password"@, password@)],
{
    credentials_request("user/sign-in", name, password)
}

/// The user after a sign-in with this reply: named by the service on success,
/// unchanged otherwise.
pub open spec fn after_sign_in(user: User, result: Result<String, (u16, String)>) -> User {
    match result {
        Ok(s) => User { name: Some(s) },
        Err(_) => user,
    }
}

/// The notice shown when a user has signed in.
pub open spec fn signed_in_text(name: Seq<char>) -> Seq<char> {
    "User "@ + name + " signed in"@
}

/// What signing in leads to. On success the service answers with the user's
/// name: it is announced (the first part of the result), remembered in `user`,
/// and the forums screen follows. A failure goes through `error_output` and
/// leaves `user` as it was.
pub fn sign_in(user: &mut User, result: Result<String, (u16, String)>) -> (r: (
    Option<String>,
    ActionOutput,
))
    ensures
        *final(user) == after_sign_in(*old(user), result),
        match result {
            Ok(s) => {
                &&& r.0 matches Some(t) && t@ == signed_in_text(s@)
                &&& moves_to(r.1, Frame::Forums)
            },
            Err((code, message)) => r.0 is None && r.1 == reply_output_spec(Err((code, message))),
        },
{
    match result {
        Ok(s) => {
            let mut notice = String::from_str("User ");
            notice.append(s.as_str());
            notice.append(" signed in");
            user.name = Some(s);
            (Some(notice), ActionOutput::redirect(Frame::Forums))
        },
        Err((code, message)) => (None, error_output(code, message)),
    }
}

/// After a successful sign-in the user's name is the one the service answered
/// with, so `get_name` gives it back; a failed sign-in changes nothing.
pub proof fn lemma_sign_in_then_name(user: User, result: Result<String, (u16, String)>)
    ensures
        result matches Ok(s) ==> after_sign_in(user, result).name == Some(s),
        result is Err ==> after_sign_in(user, result) == user,
{
}

} // verus!
