//! The screen of a forum the user owns: who may use it, changing that, and the chat.
use vstd::prelude::*;
use vstd::string::*;

use crate::frames::forums::{forum_hex_id, hex_lower, reply_output_spec, ForumListItem};
use crate::frames::forum::forum_query;
use crate::text::{decimal, decimal_string};
use crate::util::unavailable_text;
use crate::{
    endpoint, error_output, field, form_view, shows, ActionOutput, Frame, Method, Request, HOST,
};

verus! {

/// What std's `Debug` writes for a string.
pub uninterp spec fn debug_str(s: Seq<char>) -> Seq<char>;

/// std's `Debug` for `str` (`format!("{:?}", s)`): the text in double quotes,
/// with quotes, backslashes and control characters escaped. The contract only
/// names the result; how each character is escaped is left unsaid.
#[verifier::external_body]
fn debug_quoted(s: &str) -> (r: String)
    ensures
        r@ == debug_str(s@),
{
    format!("{:?}", s)
}

/// The texts of a list of strings.
pub open spec fn texts(v: Seq<String>) -> Seq<Seq<char>> {
    v.map_values(|s: String| s@)
}

/// The indented lines of a pretty-printed list, one per entry.
pub open spec fn pretty_entries(entries: Seq<Seq<char>>) -> Seq<char>
    decreases entries.len(),
{
    if entries.len() == 0 {
        Seq::empty()
    } else {
        pretty_entries(entries.drop_last()) + "    "@ + debug_str(entries.last()) + ",\n"@
    }
}

/// A list of strings as `{:#?}` prints it: `[]` when empty, else one indented,
/// quoted entry per line between brackets.
pub open spec fn pretty_list(entries: Seq<Seq<char>>) -> Seq<char> {
    if entries.len() == 0 {
        "[]"@
    } else {
        "[\n"@ + pretty_entries(entries) + "]"@
    }
}

/// How `{:#?}` lays out a list, entry by entry: an empty list is `[]`; a list of
/// one entry is `[`, a line with that entry indented and followed by a comma,
/// and `]`; and adding an entry at the end of a non-empty list adds exactly its
/// line before the closing `]`. So every entry is printed, once and in order.
pub proof fn lemma_pretty_list_layout(entries: Seq<Seq<char>>, x: Seq<char>)
    ensures
        pretty_list(Seq::<Seq<char>>::empty()) == "[]"@,
        pretty_list(seq![x]) == "[\n"@ + "    "@ + debug_str(x) + ",\n"@ + "]"@,
        entries.len() > 0 ==> pretty_list(entries.push(x)) == pretty_list(entries).drop_last()
            + "    "@ + debug_str(x) + ",\n"@ + "]"@,
{
    reveal_strlit("]");
    assert(seq![x].drop_last() =~= Seq::<Seq<char>>::empty());
    assert(seq![x].last() == x);
    assert(pretty_entries(Seq::<Seq<char>>::empty()) == Seq::<char>::empty());
    assert(pretty_entries(seq![x]) =~= "    "@ + debug_str(x) + ",\n"@);
    assert(pretty_list(seq![x]) =~= "[\n"@ + "    "@ + debug_str(x) + ",\n"@ + "]"@);
    if entries.len() > 0 {
        let e = entries.push(x);
        assert(e.drop_last() =~= entries);
        assert(e.last() == x);
        let before = "[\n"@ + pretty_entries(entries);
        assert(pretty_list(entries) == before + "]"@);
        assert(pretty_list(entries).drop_last() =~= before);
        assert(pretty_list(e) =~= before + "    "@ + debug_str(x) + ",\n"@ + "]"@);
    }
}

/// Pretty-prints a list of strings.
pub fn pretty_print(users: &Vec<String>) -> (r: String)
    ensures
        r@ == pretty_list(texts(users@)),
{
    let n = users.len();
    if n == 0 {
        return String::from_str("[]");
    }
    let mut s = String::from_str("[\n");
    let mut i: usize = 0;
    assert(texts(users@).subrange(0, 0) =~= Seq::<Seq<char>>::empty());
    while i < n
        invariant
            n == users@.len(),
            i <= n,
            s@ == "[\n"@ + pretty_entries(texts(users@).subrange(0, i as int)),
        decreases n - i,
    {
        let ghost before = s@;
        s.append("    ");
        s.append(debug_quoted(users[i].as_str()).as_str());
        s.append(",\n");
        let ghost next = texts(users@).subrange(0, i + 1);
        assert(next.drop_last() =~= texts(users@).subrange(0, i as int));
        assert(next.last() == users@[i as int]@);
        assert(s@ =~= before + "    "@ + debug_str(users@[i as int]@) + ",\n"@);
        i = i + 1;
    }
    assert(texts(users@).subrange(0, n as int) =~= texts(users@));
    s.append("]");
    s
}

/// The request for a forum's details.
pub fn view_permitted_users_request(item: &ForumListItem) -> (r: Request)
    ensures
        r.method is Get,
        r.url@ == HOST@ + "forum/forum?f="@ + hex_lower(item._id@),
        r.with_origin,
        r.form@.len() == 0,
{
    forum_query("forum/forum?f=", item)
}

/// The text that lists who may use a forum.
pub open spec fn permitted_users_text(forum_name: Seq<char>, users: Seq<String>) -> Seq<char> {
    "Forum '"@ + forum_name + "' permitted users:\n"@ + pretty_list(texts(users))
}

/// What a forum's details lead to: the list of its permitted users is shown, or
/// the failure through `error_output`.
pub fn view_permitted_users(forum_name: &str, result: Result<Vec<String>, (u16, String)>) -> (r:
    ActionOutput)
    ensures
        match result {
            Ok(users) => shows(r, permitted_users_text(forum_name@, users@)),
            Err((code, message)) => r == reply_output_spec(Err((code, message))),
        },
{
    match result {
        Ok(users) => {
            let mut text = String::from_str("Forum '");
            text.append(forum_name);
            text.append("' permitted users:\n");
            text.append(pretty_print(&users).as_str());
            ActionOutput::response(text)
        },
        Err((code, message)) => error_output(code, message),
    }
}

/// The request that replaces who may use a forum with `users`, a comma
/// separated list of user names.
pub fn update_users_request(item: &ForumListItem, users: &str) -> (r: Request)
    ensures
        r.method is PostForm,
        r.url@ == HOST@ + "forum/update-users"@,
        r.with_origin,
        form_view(r.form@) == seq![
            ("forum_hex_id"@, hex_lower(item._id@)),
            ("permitted_users"@, users@),
        ],
{
    let id = forum_hex_id(item);
    let mut form: Vec<(String, String)> = Vec::new();
    form.push(field("forum_hex_id", id.as_str()));
    form.push(field("permitted_users", users));
    assert(form_view(form@) =~= seq![
        ("forum_hex_id"@, hex_lower(item._id@)),
        ("permitted_users"@, users@),
    ]);
    Request {
        method: Method::PostForm,
        url: endpoint("forum/update-users"),
        with_origin: true,
        form,
    }
}

/// A copy of a list of strings.
fn copy_strings(v: &Vec<String>) -> (r: Vec<String>)
    ensures
        r@ == v@,
{
    let mut r: Vec<String> = Vec::new();
    let n = v.len();
    let mut i: usize = 0;
    while i < n
        invariant
            n == v@.len(),
            i <= n,
            r@ == v@.subrange(0, i as int),
        decreases n - i,
    {
        r.push(v[i].clone());
        assert(r@ =~= v@.subrange(0, i + 1));
        i = i + 1;
    }
    assert(v@.subrange(0, n as int) =~= v@);
    r
}

/// A copy of a listed forum.
pub fn copy_item(item: &ForumListItem) -> (r: ForumListItem)
    ensures
        r._id == item._id,
        r.name == item.name,
        r.permitted_users@ == item.permitted_users@,
{
    ForumListItem {
        _id: item._id,
        name: item.name.clone(),
        permitted_users: copy_strings(&item.permitted_users),
    }
}

/// What changing a forum's users leads to: the service's answer is shown and
/// the forum's screen opens again; a failure goes through `error_output`.
pub fn update_users(item: &ForumListItem, result: Result<String, (u16, String)>) -> (r:
    ActionOutput)
    ensures
        match result {
            Ok(s) => {
                &&& r.response == Some(s)
                &&& r.frame_redirect matches Some(Frame::OwnedForum(c)) && c._id == item._id
                    && c.name == item.name && c.permitted_users@ == item.permitted_users@
            },
            Err((code, message)) => r == reply_output_spec(Err((code, message))),
        },
{
    match result {
        Ok(s) => ActionOutput::new(s, Frame::OwnedForum(copy_item(item))),
        Err((code, message)) => error_output(code, message),
    }
}

/// The menu of an owned forum's screen.
pub open spec fn owned_menu_text(forum_name: Seq<char>) -> Seq<char> {
    "Forum '"@ + forum_name
        + "':\n(1) 'view permitted users'\n(2) 'update permitted users'\n(3) 'chat'"@
}

/// The menu of an owned forum's screen.
pub fn owned_menu(forum_name: &str) -> (r: String)
    ensures
        r@ == owned_menu_text(forum_name@),
{
    let mut s = String::from_str("Forum '");
    s.append(forum_name);
    s.append("':\n(1) 'view permitted users'\n(2) 'update permitted users'\n(3) 'chat'");
    s
}

/// What the user chose on an owned forum's screen.
pub enum OwnedAction {
    ViewPermittedUsers,
    UpdateUsers,
    Chat,
    Finish(ActionOutput),
}

/// An owned forum's menu: 1 shows who may use it, 2 changes that, 3 opens the
/// chat; any other number is answered with "Action '{n}' not available".
pub fn run(input: u16) -> (r: OwnedAction)
    ensures
        input == 1 ==> r is ViewPermittedUsers,
        input == 2 ==> r is UpdateUsers,
        input == 3 ==> r is Chat,
        (input < 1 || input > 3) ==> (r matches OwnedAction::Finish(o) && shows(
            o,
            unavailable_text(decimal(input as nat)),
        )),
{
    if input == 1 {
        OwnedAction::ViewPermittedUsers
    } else if input == 2 {
        OwnedAction::UpdateUsers
    } else if input == 3 {
        OwnedAction::Chat
    } else {
        let mut text = String::from_str("Action '");
        text.append(decimal_string(input as u64).as_str());
        text.append("' not available");
        OwnedAction::Finish(ActionOutput::response(text))
    }
}

} // verus!
