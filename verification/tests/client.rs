use forum_client::frames::forum::owned::{
    copy_item, owned_menu, pretty_print, update_users, update_users_request,
    view_permitted_users, view_permitted_users_request, OwnedAction,
};
use forum_client::frames::forum::permitted::permitted_heading;
use forum_client::frames::forum::{
    chat_input, classify_line, get_stream, incoming_text, message, message_request,
    stream_request, unsubscribe_request, Message, StreamLine,
};
use forum_client::frames::forums::{
    choose_forum, create, create_request, forum_hex_id, items_to_prompt, list_owned,
    list_owned_request, list_permitted, list_permitted_request, run_get_item, ForumListItem,
    ForumsAction, FORUMS_MENU,
};
use forum_client::frames::home::{
    create_user, create_user_request, passwords_match, sign_in, sign_in_request, HomeAction,
    User, HOME_MENU,
};
use forum_client::text::{decimal_string, parse_bounded, str_eq, strip_prefix, trim_line};
use forum_client::util::{
    proccess_input, ureq_result_to_json, ureq_result_to_reader, ureq_result_to_response,
    ureq_result_to_string, HttpReply,
};
use forum_client::{
    chat_error_output, endpoint, error_output, reply_output, respond_redirect, ActionOutput,
    Frame, Method, Request, HOST, ORIGIN,
};

fn item(id_byte: u8, name: &str) -> ForumListItem {
    let mut id = [0u8; 12];
    id[11] = id_byte;
    id[0] = 0xab;
    ForumListItem { _id: id, name: name.to_string(), permitted_users: vec!["ann".to_string()] }
}

fn form(r: &Request) -> Vec<(String, String)> {
    r.form.clone()
}

fn pair(a: &str, b: &str) -> (String, String) {
    (a.to_string(), b.to_string())
}

// ---- text helpers ----

#[test]
fn decimal_renders_numbers() {
    assert_eq!(decimal_string(0), "0");
    assert_eq!(decimal_string(7), "7");
    assert_eq!(decimal_string(10), "10");
    assert_eq!(decimal_string(65535), "65535");
    assert_eq!(decimal_string(u64::MAX), "18446744073709551615");
}

#[test]
fn parse_reads_unsigned_numbers() {
    assert_eq!(parse_bounded("42", 100), Some(42));
    assert_eq!(parse_bounded("+5", 100), Some(5));
    assert_eq!(parse_bounded("007", 100), Some(7));
    assert_eq!(parse_bounded("", 100), None);
    assert_eq!(parse_bounded("+", 100), None);
    assert_eq!(parse_bounded("-1", 100), None);
    assert_eq!(parse_bounded("-0", 100), None);
    assert_eq!(parse_bounded("1a", 100), None);
    assert_eq!(parse_bounded(" 1", 100), None);
    assert_eq!(parse_bounded("101", 100), None);
    assert_eq!(parse_bounded("65535", 65535), Some(65535));
    assert_eq!(parse_bounded("65536", 65535), None);
    assert_eq!(parse_bounded("18446744073709551615", u64::MAX), Some(u64::MAX));
    assert_eq!(parse_bounded("18446744073709551616", u64::MAX), None);
    assert_eq!(parse_bounded("99999999999999999999999x", u64::MAX), None);
}

#[test]
fn parse_agrees_with_std_on_u16() {
    for s in ["0", "1", "+12", "65535", "65536", "", "+", "-", "x", "12 ", "٣"] {
        assert_eq!(parse_bounded(s, u16::MAX as u64), s.parse::<u16>().ok().map(|v| v as u64), "{s}");
    }
}

#[test]
fn decimal_reads_back() {
    for n in [0u64, 1, 9, 10, 99, 100, 12345, u64::MAX] {
        assert_eq!(parse_bounded(&decimal_string(n), u64::MAX), Some(n));
    }
}

#[test]
fn trim_line_agrees_with_std() {
    for s in ["", "  ", "abc", "  42 \n", "\t x y \r\n", "\u{3000}a\u{85}", "\u{200b}a", " \u{a0}\u{2028}"] {
        assert_eq!(trim_line(s), s.trim(), "{s:?}");
    }
}

#[test]
fn proccess_input_trims_the_line() {
    assert!(matches!(proccess_input("  42 \n", u32::MAX as u64), Ok(42)));
    assert!(matches!(proccess_input(" home\n", 10), Err(o) if matches!(o.frame_redirect, Some(Frame::Home))));
    match proccess_input("  x \n", 10) {
        Err(o) => assert_eq!(o.response.as_deref(), Some("Action 'x' not available")),
        Ok(_) => panic!("x is no number"),
    }
}

#[test]
fn str_helpers() {
    assert!(str_eq("abc", "abc"));
    assert!(!str_eq("abc", "abd"));
    assert!(!str_eq("abc", "ab"));
    assert_eq!(strip_prefix("data:{}", "data:"), Some("{}".to_string()));
    assert_eq!(strip_prefix("dat", "data:"), None);
    assert_eq!(strip_prefix("event:closed", "event:closed"), Some(String::new()));
    assert_eq!(strip_prefix("héllo", "hé"), Some("llo".to_string()));
}

// ---- outputs and frames ----

#[test]
fn action_output_constructors() {
    let o = ActionOutput::new("hi".to_string(), Frame::Forums);
    assert_eq!(o.response.as_deref(), Some("hi"));
    assert!(matches!(o.frame_redirect, Some(Frame::Forums)));
    let o = ActionOutput::response("hi".to_string());
    assert!(o.frame_redirect.is_none());
    let o = ActionOutput::redirect(Frame::Home);
    assert!(o.response.is_none());
    assert!(matches!(o.frame_redirect, Some(Frame::Home)));
}

#[test]
fn respond_redirect_keeps_frame_without_redirect() {
    let (text, f) = respond_redirect(ActionOutput::response("x".to_string()), Frame::Forums);
    assert_eq!(text.as_deref(), Some("x"));
    assert!(matches!(f, Frame::Forums));
    let (text, f) = respond_redirect(ActionOutput::redirect(Frame::Home), Frame::Forums);
    assert!(text.is_none());
    assert!(matches!(f, Frame::Home));
}

#[test]
fn error_codes_decide_the_move_home() {
    assert!(matches!(error_output(500, "e".into()).frame_redirect, Some(Frame::Home)));
    assert!(matches!(error_output(401, "e".into()).frame_redirect, Some(Frame::Home)));
    assert!(error_output(404, "e".into()).frame_redirect.is_none());
    assert_eq!(error_output(404, "e".into()).response.as_deref(), Some("e"));
    assert!(matches!(chat_error_output(401, "e".into()).frame_redirect, Some(Frame::Home)));
    assert!(chat_error_output(500, "e".into()).frame_redirect.is_none());
    let o = reply_output(Ok("done".into()));
    assert_eq!(o.response.as_deref(), Some("done"));
    assert!(o.frame_redirect.is_none());
}

// ---- replies ----

#[test]
fn replies_become_results() {
    let r = ureq_result_to_response(HttpReply::Received(5u8));
    assert_eq!(r, Ok(5));
    let r = ureq_result_to_response::<u8>(HttpReply::Status(404, Some("not found".into())));
    assert_eq!(r, Err((404, "404: not found".to_string())));
    let r = ureq_result_to_response::<u8>(HttpReply::Status(413, None));
    assert_eq!(r, Err((413, "413: The error response was too large.".to_string())));
    let r = ureq_result_to_reader::<u8>(HttpReply::Unreachable);
    assert_eq!(r, Err((500, "Connection error.".to_string())));
    assert_eq!(ureq_result_to_string(HttpReply::Received(Some("ok".into()))), Ok("ok".to_string()));
    assert_eq!(
        ureq_result_to_string(HttpReply::Received(None)),
        Ok("The ok response was too large.".to_string())
    );
    assert_eq!(ureq_result_to_json::<u32>(HttpReply::Received(Ok(3))), Ok(3));
    assert_eq!(
        ureq_result_to_json::<u32>(HttpReply::Received(Err("bad json".into()))),
        Err((500, "bad json".to_string()))
    );
    assert_eq!(
        ureq_result_to_json::<u32>(HttpReply::Status(401, Some("no".into()))),
        Err((401, "401: no".to_string()))
    );
}

#[test]
fn proccess_input_reads_choices() {
    assert!(matches!(proccess_input("home", 10), Err(o) if o.response.is_none() && matches!(o.frame_redirect, Some(Frame::Home))));
    assert!(matches!(proccess_input("forums", 10), Err(o) if matches!(o.frame_redirect, Some(Frame::Forums))));
    assert!(matches!(proccess_input("3", 10), Ok(3)));
    match proccess_input("x", 10) {
        Err(o) => {
            assert_eq!(o.response.as_deref(), Some("Action 'x' not available"));
            assert!(o.frame_redirect.is_none());
        }
        Ok(_) => panic!("x is no number"),
    }
    match proccess_input("70000", u16::MAX as u64) {
        Err(o) => assert_eq!(o.response.as_deref(), Some("Action '70000' not available")),
        Ok(_) => panic!("too large for u16"),
    }
}

// ---- forums screen ----

#[test]
fn forum_ids_are_lowercase_hex() {
    let it = item(0x0f, "a");
    assert_eq!(forum_hex_id(&it), "ab000000000000000000000f");
    let oid = bson::oid::ObjectId::from_bytes(it._id);
    assert_eq!(forum_hex_id(&it), oid.to_hex());
}

#[test]
fn different_ids_give_different_hex() {
    let a = item(1, "a");
    let b = item(0x10, "a");
    assert_ne!(forum_hex_id(&a), forum_hex_id(&b));
}

#[test]
fn forums_requests() {
    let r = create_request("cats");
    assert!(matches!(r.method, Method::PostForm));
    assert_eq!(r.url, format!("{HOST}forum/create"));
    assert!(!r.with_origin);
    assert_eq!(form(&r), vec![pair("name", "cats")]);
    let r = list_owned_request();
    assert!(matches!(r.method, Method::Get));
    assert_eq!(r.url, "http://127.0.0.1:8000/forum/list-owned");
    assert!(r.form.is_empty());
    let r = list_permitted_request();
    assert_eq!(r.url, "http://127.0.0.1:8000/forum/list-permitted");
    assert_eq!(endpoint("x"), "http://127.0.0.1:8000/x");
}

#[test]
fn forums_outcomes() {
    let o = create(Ok("Forum created".into()));
    assert_eq!(o.response.as_deref(), Some("Forum created"));
    let o = create(Err((401, "401: no".into())));
    assert!(matches!(o.frame_redirect, Some(Frame::Home)));
    let o = list_owned(Ok(vec![item(1, "a")]));
    assert_eq!(o.response.as_deref(), Some("Forums owned by you:"));
    assert!(matches!(&o.frame_redirect, Some(Frame::OwnedForums(v)) if v.len() == 1 && v[0].name == "a"));
    let o = list_permitted(Ok(vec![]));
    assert_eq!(o.response.as_deref(), Some("Permitted forums:"));
    assert!(matches!(&o.frame_redirect, Some(Frame::PermittedForums(v)) if v.is_empty()));
    let o = list_permitted(Err((404, "404: x".into())));
    assert!(o.frame_redirect.is_none());
    assert_eq!(o.response.as_deref(), Some("404: x"));
}

#[test]
fn forums_menu() {
    assert!(matches!(forum_client::frames::forums::run(1), ForumsAction::Create));
    assert!(matches!(forum_client::frames::forums::run(2), ForumsAction::ListOwned));
    assert!(matches!(forum_client::frames::forums::run(3), ForumsAction::ListPermitted));
    match forum_client::frames::forums::run(4) {
        ForumsAction::Finish(o) => assert_eq!(o.response.as_deref(), Some("Action '4' not available")),
        _ => panic!("4 is no entry"),
    }
    assert!(FORUMS_MENU.starts_with("Forums:\n(1) 'create new forum'"));
}

#[test]
fn prompt_numbers_each_forum() {
    let items = vec![item(1, "cats"), item(2, "dogs")];
    assert_eq!(items_to_prompt(&items), "(0) 'cats'\n(1) 'dogs'\n");
    assert_eq!(items_to_prompt(&[]), "");
}

#[test]
fn get_item_removes_the_chosen_forum() {
    let mut items = vec![item(1, "cats"), item(2, "dogs"), item(3, "owls")];
    let got = run_get_item(&mut items, 1).ok().unwrap();
    assert_eq!(got.name, "dogs");
    assert_eq!(items.iter().map(|i| i.name.clone()).collect::<Vec<_>>(), vec!["cats", "owls"]);
    match run_get_item(&mut items, 2) {
        Err(o) => assert_eq!(o.response.as_deref(), Some("Action 2 not available")),
        Ok(_) => panic!("only two left"),
    }
    assert_eq!(items.len(), 2);
}

#[test]
fn choosing_the_shown_number_opens_that_forum() {
    let items = vec![item(1, "cats"), item(2, "dogs")];
    let prompt = items_to_prompt(&items);
    assert!(prompt.contains("(1) 'dogs'"));
    let choice = proccess_input("1", usize::MAX as u64).map(|v| v as usize);
    let (text, f) = choose_forum(Frame::OwnedForums(items), choice);
    assert!(text.is_none());
    assert!(matches!(f, Frame::OwnedForum(i) if i.name == "dogs"));

    let items = vec![item(1, "cats")];
    let (text, f) = choose_forum(Frame::PermittedForums(items), Ok(0));
    assert!(text.is_none());
    assert!(matches!(f, Frame::PermittedForum(i) if i.name == "cats"));

    let items = vec![item(1, "cats")];
    let (text, f) = choose_forum(Frame::PermittedForums(items), Ok(5));
    assert_eq!(text.as_deref(), Some("Action 5 not available"));
    assert!(matches!(f, Frame::PermittedForums(v) if v.len() == 1));

    let items = vec![item(1, "cats")];
    let (text, f) = choose_forum(Frame::OwnedForums(items), proccess_input("home", 10).map(|v| v as usize));
    assert!(text.is_none());
    assert!(matches!(f, Frame::Home));
}

// ---- home screen ----

#[test]
fn get_name_needs_a_signed_in_user() {
    let u = User { name: Some("ann".into()) };
    assert_eq!(u.get_name().ok(), Some("ann".to_string()));
    let u = User { name: None };
    match u.get_name() {
        Err(o) => {
            assert_eq!(o.response.as_deref(), Some("Could not find a user name. Try signing in again"));
            assert!(matches!(o.frame_redirect, Some(Frame::Home)));
        }
        Ok(_) => panic!("nobody signed in"),
    }
}

#[test]
fn sign_in_remembers_the_user() {
    let mut u = User { name: None };
    let (notice, o) = sign_in(&mut u, Ok("ann".into()));
    assert_eq!(notice.as_deref(), Some("User ann signed in"));
    assert!(o.response.is_none());
    assert!(matches!(o.frame_redirect, Some(Frame::Forums)));
    assert_eq!(u.get_name().ok(), Some("ann".to_string()));

    let (notice, o) = sign_in(&mut u, Err((401, "401: wrong password".into())));
    assert!(notice.is_none());
    assert_eq!(o.response.as_deref(), Some("401: wrong password"));
    assert!(matches!(o.frame_redirect, Some(Frame::Home)));
    assert_eq!(u.name.as_deref(), Some("ann"));
}

#[test]
fn home_requests_and_menu() {
    let r = create_user_request("ann", "pw");
    assert_eq!(r.url, "http://127.0.0.1:8000/user/create");
    assert_eq!(form(&r), vec![pair("name", "ann"), pair("password", "pw")]);
    let r = sign_in_request("ann", "pw");
    assert_eq!(r.url, "http://127.0.0.1:8000/user/sign-in");
    assert!(matches!(r.method, Method::PostForm));
    assert_eq!(form(&r), vec![pair("name", "ann"), pair("password", "pw")]);
    assert!(matches!(forum_client::frames::home::run(1), HomeAction::CreateUser));
    assert!(matches!(forum_client::frames::home::run(2), HomeAction::SignIn));
    match forum_client::frames::home::run(9) {
        HomeAction::Finish(o) => assert_eq!(o.response.as_deref(), Some("Action 9 not available.")),
        _ => panic!("9 is no entry"),
    }
    assert_eq!(HOME_MENU, "Home:\n(1) 'create user'\n(2) 'sign in'");
    assert!(passwords_match("a", "a"));
    assert!(!passwords_match("a", "b"));
    let o = create_user(Ok("User created".into()));
    assert_eq!(o.response.as_deref(), Some("User created"));
}

// ---- forum screens and chat ----

#[test]
fn chat_requests() {
    let it = item(0x10, "cats");
    let r = stream_request(&it);
    assert!(matches!(r.method, Method::Get));
    assert!(r.with_origin);
    assert_eq!(r.url, "http://127.0.0.1:8000/forum/listen-messages?f=ab0000000000000000000010");
    let r = unsubscribe_request(&it);
    assert_eq!(r.url, "http://127.0.0.1:8000/forum/unsubscribe-messages?f=ab0000000000000000000010");
    let r = message_request(&it, "ann", "hello");
    assert!(matches!(r.method, Method::PostForm));
    assert_eq!(r.url, "http://127.0.0.1:8000/forum/message");
    assert_eq!(
        form(&r),
        vec![
            pair("forum_hex_id", "ab0000000000000000000010"),
            pair("user", "ann"),
            pair("value", "hello")
        ]
    );
    assert_eq!(ORIGIN, "http://127.0.0.1:5173");
}

#[test]
fn stream_lines_are_classified() {
    assert!(matches!(classify_line("event:closed"), StreamLine::Closed));
    assert!(matches!(classify_line("event:closed now"), StreamLine::Closed));
    assert!(matches!(classify_line("data:{\"a\":1}"), StreamLine::Data(d) if d == "{\"a\":1}"));
    assert!(matches!(classify_line("event:message"), StreamLine::Other));
    assert!(matches!(classify_line(""), StreamLine::Other));
}

#[test]
fn own_messages_are_not_echoed() {
    let m = Message { user: "bob".into(), forum_hex_id: "x".into(), value: "hi".into() };
    assert_eq!(incoming_text("ann", &m), Some("bob: hi".to_string()));
    assert_eq!(incoming_text("bob", &m), None);
}

#[test]
fn chat_steps() {
    match chat_input("exit") {
        Some(o) => {
            assert_eq!(o.response.as_deref(), Some("--Exiting chat--"));
            assert!(matches!(o.frame_redirect, Some(Frame::Forums)));
        }
        None => panic!("exit leaves the chat"),
    }
    assert!(chat_input("hello").is_none());
    assert!(message(Ok("sent".into())).is_none());
    let o = message(Err((401, "401: x".into()))).unwrap();
    assert!(matches!(o.frame_redirect, Some(Frame::Home)));
    let o = message(Err((500, "500: x".into()))).unwrap();
    assert!(o.frame_redirect.is_none());
    assert!(matches!(get_stream::<u8>(Ok(1)), Ok(1)));
    assert!(matches!(get_stream::<u8>(Err((401, "n".into()))), Err(o) if matches!(o.frame_redirect, Some(Frame::Home))));
    assert!(matches!(get_stream::<u8>(Err((500, "n".into()))), Err(o) if o.frame_redirect.is_none()));
}

#[test]
fn permitted_users_are_pretty_printed() {
    let users = vec!["ann".to_string(), "b\"o".to_string()];
    assert_eq!(pretty_print(&users), format!("{:#?}", users));
    assert_eq!(pretty_print(&vec![]), format!("{:#?}", Vec::<String>::new()));
    let o = view_permitted_users("cats", Ok(users.clone()));
    assert_eq!(
        o.response.as_deref().unwrap(),
        format!("Forum 'cats' permitted users:\n{:#?}", users)
    );
    let o = view_permitted_users("cats", Err((500, "500: x".into())));
    assert!(matches!(o.frame_redirect, Some(Frame::Home)));
    let r = view_permitted_users_request(&item(1, "cats"));
    assert_eq!(r.url, "http://127.0.0.1:8000/forum/forum?f=ab0000000000000000000001");
    assert!(r.with_origin);
}

#[test]
fn owned_forum_screen() {
    let it = item(2, "cats");
    let r = update_users_request(&it, "ann,bob");
    assert_eq!(r.url, "http://127.0.0.1:8000/forum/update-users");
    assert!(r.with_origin);
    assert_eq!(
        form(&r),
        vec![pair("forum_hex_id", "ab0000000000000000000002"), pair("permitted_users", "ann,bob")]
    );
    let o = update_users(&it, Ok("Users updated".into()));
    assert_eq!(o.response.as_deref(), Some("Users updated"));
    assert!(matches!(&o.frame_redirect, Some(Frame::OwnedForum(c)) if c.name == "cats" && c._id == it._id));
    let o = update_users(&it, Err((404, "404: x".into())));
    assert!(o.frame_redirect.is_none());
    let c = copy_item(&it);
    assert_eq!(c.permitted_users, it.permitted_users);
    assert_eq!(
        owned_menu("cats"),
        "Forum 'cats':\n(1) 'view permitted users'\n(2) 'update permitted users'\n(3) 'chat'"
    );
    assert!(matches!(forum_client::frames::forum::owned::run(1), OwnedAction::ViewPermittedUsers));
    assert!(matches!(forum_client::frames::forum::owned::run(2), OwnedAction::UpdateUsers));
    assert!(matches!(forum_client::frames::forum::owned::run(3), OwnedAction::Chat));
    match forum_client::frames::forum::owned::run(0) {
        OwnedAction::Finish(o) => assert_eq!(o.response.as_deref(), Some("Action '0' not available")),
        _ => panic!("0 is no entry"),
    }
    assert_eq!(permitted_heading("cats"), "Forum 'cats'");
}
