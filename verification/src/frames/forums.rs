//! The forums screen: creating a forum, listing the forums one owns or may use,
//! and picking one of a listed set.
use vstd::prelude::*;
use vstd::string::*;

use crate::text::{decimal, decimal_string};
use crate::util::unavailable_text;
use crate::{
    endpoint, error_output, field, form_view, reply_output, shows, shows_and_moves_to,
    ActionOutput, Frame, Method, Request, HOST,
};

verus! {

/// A forum as the service lists it: its twelve-byte id, its name and the users
/// allowed in it.
pub struct ForumListItem {
    pub _id: [u8; 12],
    pub name: String,
    pub permitted_users: Vec<String>,
}

/// The lowercase hexadecimal digit for `d` (below 16).
pub open spec fn hex_digit(d: int) -> char {
    if d < 10 {
        (48 + d) as char
    } else {
        (87 + d) as char
    }
}

/// The lowercase hexadecimal text of `bytes`: two digits per byte, the high
/// half first.
pub open spec fn hex_lower(bytes: Seq<u8>) -> Seq<char> {
    Seq::new(
        2 * bytes.len(),
        |i: int|
            if i % 2 == 0 {
                hex_digit((bytes[i / 2] / 16) as int)
            } else {
                hex_digit((bytes[i / 2] % 16) as int)
            },
    )
}

/// bson's `ObjectId::to_hex` on the id made of these bytes (`ObjectId::from_bytes`).
/// The contract claims what bson's source shows: `hex::encode` of the twelve
/// bytes, lowercase, two digits per byte with the high half first.
#[verifier::external_body]
pub(crate) fn object_id_hex(id: &[u8; 12]) -> (r: String)
    ensures
        r@ == hex_lower(id@),
{
    bson::oid::ObjectId::from_bytes(*id).to_hex()
}

proof fn lemma_hex_digit_injective(a: int, b: int)
    requires
        0 <= a < 16,
        0 <= b < 16,
        hex_digit(a) == hex_digit(b),
    ensures
        a == b,
{
    let ca: int = if a < 10 { 48 + a } else { 87 + a };
    let cb: int = if b < 10 { 48 + b } else { 87 + b };
    assert(hex_digit(a) as int == ca);
    assert(hex_digit(b) as int == cb);
}

/// Different ids have different hexadecimal texts, so a forum's hexadecimal id
/// names that forum alone.
pub proof fn lemma_hex_lower_injective(a: Seq<u8>, b: Seq<u8>)
    requires
        hex_lower(a) == hex_lower(b),
    ensures
        a == b,
{
    assert(a.len() == b.len()) by {
        assert(hex_lower(a).len() == 2 * a.len());
        assert(hex_lower(b).len() == 2 * b.len());
    }
    assert forall|j: int| 0 <= j < a.len() implies a[j] == b[j] by {
        let ha = hex_lower(a);
        let hb = hex_lower(b);
        assert(ha[2 * j] == hb[2 * j]);
        assert(ha[2 * j + 1] == hb[2 * j + 1]);
        assert((2 * j) / 2 == j);
        assert((2 * j + 1) / 2 == j);
        assert((2 * j) % 2 == 0);
        assert((2 * j + 1) % 2 == 1);
        let x = a[j];
        let y = b[j];
        assert(x / 16 < 16 && y / 16 < 16);
        lemma_hex_digit_injective((x / 16) as int, (y / 16) as int);
        lemma_hex_digit_injective((x % 16) as int, (y % 16) as int);
        assert(x == 16 * (x / 16) + x % 16);
        assert(y == 16 * (y / 16) + y % 16);
    }
    assert(a =~= b);
}

/// The hexadecimal id of a forum, as the service's query strings and forms carry it.
pub fn forum_hex_id(item: &ForumListItem) -> (r: String)
    ensures
        r@ == hex_lower(item._id@),
        r@.len() == 24,
{
    object_id_hex(&item._id)
}

/// The request that creates a forum named `name`.
pub fn create_request(name: &str) -> (r: Request)
    ensures
        r.method is PostForm,
        r.url@ == HOST@ + "forum/create"@,
        !r.with_origin,
        form_view(r.form@) == seq![("name"@, name@)],
{
    let mut form: Vec<(String, String)> = Vec::new();
    form.push(field("name", name));
    assert(form_view(form@) =~= seq![("name"@, name@)]);
    Request { method: Method::PostForm, url: endpoint("forum/create"), with_origin: false, form }
}

/// What creating a forum leads to: the service's answer is shown; failures go
/// through `error_output`.
pub fn create(result: Result<String, (u16, String)>) -> (r: ActionOutput)
    ensures
        r == reply_output_spec(result),
        match result {
            Ok(s) => r.response == Some(s) && r.frame_redirect is None,
            Err((code, message)) => {
                &&& r.response == Some(message)
                &&& (code == 500 || code == 401) ==> r.frame_redirect == Some(Frame::Home)
                &&& (code != 500 && code != 401) ==> r.frame_redirect is None
            },
        },
{
    reply_output(result)
}

/// A reply with text shows that text and keeps the current screen; a failure
/// shows its message and moves home exactly when the status is 500 or 401.
pub proof fn lemma_reply_outcomes(s: String, code: u16, message: String)
    ensures
        reply_output_spec(Ok(s)).response == Some(s),
        reply_output_spec(Ok(s)).frame_redirect is None,
        reply_output_spec(Err((code, message))).response == Some(message),
        (code == 500 || code == 401) ==> reply_output_spec(Err((code, message))).frame_redirect
            == Some(Frame::Home),
        (code != 500 && code != 401) ==> reply_output_spec(Err((code, message))).frame_redirect is None,
{
}

/// The outcome `reply_output` gives.
pub open spec fn reply_output_spec(result: Result<String, (u16, String)>) -> ActionOutput {
    match result {
        Ok(s) => ActionOutput { response: Some(s), frame_redirect: None },
        Err((code, message)) => ActionOutput {
            response: Some(message),
            frame_redirect: if crate::sends_home(code) {
                Some(Frame::Home)
            } else {
                None
            },
        },
    }
}

/// A request without form fields or origin header.
fn plain_get(path: &str) -> (r: Request)
    ensures
        r.method is Get,
        r.url@ == HOST@ + path@,
        !r.with_origin,
        r.form@.len() == 0,
{
    Request { method: Method::Get, url: endpoint(path), with_origin: false, form: Vec::new() }
}

/// The request for the forums the user owns.
pub fn list_owned_request() -> (r: Request)
    ensures
        r.method is Get,
        r.url@ == HOST@ + "forum/list-owned"@,
        !r.with_origin,
        r.form@.len() == 0,
{
    plain_get("forum/list-owned")
}

/// What the list of owned forums leads to: the list screen with a heading, or
/// the failure through `error_output`.
pub fn list_owned(result: Result<Vec<ForumListItem>, (u16, String)>) -> (r: ActionOutput)
    ensures
        match result {
            Ok(v) => shows_and_moves_to(r, "Forums owned by you:"@, Frame::OwnedForums(v)),
            Err((code, message)) => r == reply_output_spec(Err((code, message))),
        },
{
    match result {
        Ok(v) => ActionOutput::new(String::from_str("Forums owned by you:"), Frame::OwnedForums(v)),
        Err((code, message)) => error_output(code, message),
    }
}

/// The request for the forums the user may use.
pub fn list_permitted_request() -> (r: Request)
    ensures
        r.method is Get,
        r.url@ == HOST@ + "forum/list-permitted"@,
        !r.with_origin,
        r.form@.len() == 0,
{
    plain_get("forum/list-permitted")
}

/// What the list of permitted forums leads to: the list screen with a heading,
/// or the failure through `error_output`.
pub fn list_permitted(result: Result<Vec<ForumListItem>, (u16, String)>) -> (r: ActionOutput)
    ensures
        match result {
            Ok(v) => shows_and_moves_to(r, "Permitted forums:"@, Frame::PermittedForums(v)),
            Err((code, message)) => r == reply_output_spec(Err((code, message))),
        },
{
    match result {
        Ok(v) => ActionOutput::new(String::from_str("Permitted forums:"), Frame::PermittedForums(v)),
        Err((code, message)) => error_output(code, message),
    }
}

/// The menu of the forums screen.
pub const FORUMS_MENU: &'static str = "Forums:\n(1) 'create new forum'\n(2) 'list forums owned by you'\n(3) 'list permitted forums'";

/// What the user chose on the forums screen.
pub enum ForumsAction {
    Create,
    ListOwned,
    ListPermitted,
    Finish(ActionOutput),
}

/// The forums screen's menu: 1 creates a forum, 2 lists the owned forums, 3 the
/// permitted ones; any other number is answered with "Action '{n}' not available".
pub fn run(input: u16) -> (r: ForumsAction)
    ensures
        input == 1 ==> r is Create,
        input == 2 ==> r is ListOwned,
        input == 3 ==> r is ListPermitted,
        (input < 1 || input > 3) ==> (r matches ForumsAction::Finish(o) && shows(
            o,
            unavailable_text(decimal(input as nat)),
        )),
{
    if input == 1 {
        ForumsAction::Create
    } else if input == 2 {
        ForumsAction::ListOwned
    } else if input == 3 {
        ForumsAction::ListPermitted
    } else {
        let mut text = String::from_str("Action '");
        text.append(decimal_string(input as u64).as_str());
        text.append("' not available");
        ForumsAction::Finish(ActionOutput::response(text))
    }
}

/// The line that offers the forum at `index` for choosing.
pub open spec fn prompt_line(index: nat, name: Seq<char>) -> Seq<char> {
    "("@ + decimal(index) + ") '"@ + name + "'\n"@
}

/// The lines that offer each of `items`, numbered from 0.
pub open spec fn prompt_of(items: Seq<ForumListItem>) -> Seq<char>
    decreases items.len(),
{
    if items.len() == 0 {
        Seq::empty()
    } else {
        prompt_of(items.drop_last()) + prompt_line((items.len() - 1) as nat, items.last().name@)
    }
}

/// The numbered list from which the user picks a forum: one line
/// "({index}) '{name}'" per forum.
pub fn items_to_prompt(items: &[ForumListItem]) -> (r: String)
    ensures
        r@ == prompt_of(items@),
{
    let mut s = String::new();
    let n = items.len();
    let mut i: usize = 0;
    assert(items@.subrange(0, 0) =~= Seq::<ForumListItem>::empty());
    while i < n
        invariant
            n == items@.len(),
            i <= n,
            s@ == prompt_of(items@.subrange(0, i as int)),
        decreases n - i,
    {
        let ghost before = s@;
        s.append("(");
        s.append(decimal_string(i as u64).as_str());
        s.append(") '");
        s.append(items[i].name.as_str());
        s.append("'\n");
        let ghost next = items@.subrange(0, i + 1);
        assert(next.drop_last() =~= items@.subrange(0, i as int));
        assert(next.last() == items@[i as int]);
        assert(s@ =~= before + prompt_line(i as nat, items@[i as int].name@));
        i = i + 1;
    }
    assert(items@.subrange(0, n as int) =~= items@);
    s
}

/// The text shown for a list position that does not exist.
pub open spec fn missing_item_text(index: nat) -> Seq<char> {
    "Action "@ + decimal(index) + " not available"@
}

/// Takes the forum at `index` out of the list; a position past the end is
/// answered with "Action {index} not available" and leaves the list as it was.
pub fn run_get_item(forum_items: &mut Vec<ForumListItem>, index: usize) -> (r: Result<
    ForumListItem,
    ActionOutput,
>)
    ensures
        index < old(forum_items)@.len() ==> {
            &&& r == Ok::<ForumListItem, ActionOutput>(old(forum_items)@[index as int])
            &&& final(forum_items)@ == old(forum_items)@.remove(index as int)
        },
        index >= old(forum_items)@.len() ==> {
            &&& r matches Err(o) && shows(o, missing_item_text(index as nat))
            &&& final(forum_items)@ == old(forum_items)@
        },
{
    if index >= forum_items.len() {
        let mut text = String::from_str("Action ");
        text.append(decimal_string(index as u64).as_str());
        text.append(" not available");
        return Err(ActionOutput::response(text));
    }
    let item = forum_items.remove(index);
    Ok(item)
}

/// The screen a listed forum opens on: the owner's screen for an owned forum,
/// the chat screen for a permitted one.
pub open spec fn opened(frame: Frame, item: ForumListItem) -> Frame {
    match frame {
        Frame::OwnedForums(_) => Frame::OwnedForum(item),
        _ => Frame::PermittedForum(item),
    }
}

/// The forums that a list screen shows.
pub open spec fn listed(frame: Frame) -> Seq<ForumListItem> {
    match frame {
        Frame::OwnedForums(v) => v@,
        Frame::PermittedForums(v) => v@,
        _ => Seq::empty(),
    }
}

/// Whether `f` is one of the two list screens.
pub open spec fn is_list(f: Frame) -> bool {
    f is OwnedForums || f is PermittedForums
}

/// Picks a forum on a list screen. `choice` is what the user typed, read by
/// `proccess_input`: a redirect or a notice from there is applied as
/// `respond_redirect` does; a listed position opens that forum; any other
/// position shows "Action {index} not available" and keeps the list.
pub fn choose_forum(frame: Frame, choice: Result<usize, ActionOutput>) -> (r: (Option<String>, Frame))
    requires
        is_list(frame),
    ensures
        match choice {
            Err(o) => r.0 == o.response && r.1 == (match o.frame_redirect {
                Some(f) => f,
                None => frame,
            }),
            Ok(i) => if i < listed(frame).len() {
                r.0 is None && r.1 == opened(frame, listed(frame)[i as int])
            } else {
                &&& r.0 matches Some(s) && s@ == missing_item_text(i as nat)
                &&& is_list(r.1)
                &&& (r.1 is OwnedForums <==> frame is OwnedForums)
                &&& listed(r.1) == listed(frame)
            },
        },
        match (choice, frame) {
            (Ok(i), Frame::OwnedForums(v)) => i < v@.len() ==> (r.0 is None && r.1
                == Frame::OwnedForum(v@[i as int])),
            (Ok(i), Frame::PermittedForums(v)) => i < v@.len() ==> (r.0 is None && r.1
                == Frame::PermittedForum(v@[i as int])),
            _ => true,
        },
{
    let index = match choice {
        Err(o) => return crate::respond_redirect(o, frame),
        Ok(i) => i,
    };
    match frame {
        Frame::OwnedForums(mut list) => match run_get_item(&mut list, index) {
            Ok(item) => (None, Frame::OwnedForum(item)),
            Err(o) => crate::respond_redirect(o, Frame::OwnedForums(list)),
        },
        Frame::PermittedForums(mut list) => match run_get_item(&mut list, index) {
            Ok(item) => (None, Frame::PermittedForum(item)),
            Err(o) => crate::respond_redirect(o, Frame::PermittedForums(list)),
        },
        _ => {
            assert(false);
            (None, frame)
        },
    }
}


proof fn lemma_prompt_prefix(items: Seq<ForumListItem>, k: int)
    requires
        0 <= k <= items.len(),
    ensures
        has_prefix_of(prompt_of(items), prompt_of(items.subrange(0, k))),
    decreases items.len() - k,
{
    if k == items.len() {
        assert(items.subrange(0, k) =~= items);
        let p = prompt_of(items);
        assert(p.subrange(0, p.len() as int) =~= p);
    } else {
        lemma_prompt_prefix(items, k + 1);
        let longer = items.subrange(0, k + 1);
        assert(longer.drop_last() =~= items.subrange(0, k));
        let a = prompt_of(items.subrange(0, k));
        let b = prompt_of(longer);
        assert(b == prompt_of(longer.drop_last()) + prompt_line(k as nat, longer.last().name@));
        assert(b == a + prompt_line(k as nat, longer.last().name@));
        assert(b.subrange(0, a.len() as int) =~= a);
        assert(prompt_of(items).subrange(0, b.len() as int) == b);
        assert(prompt_of(items).subrange(0, a.len() as int) =~= b.subrange(0, a.len() as int));
        assert(prompt_of(items).subrange(0, a.len() as int) =~= a);
    }
}

/// `p` is the beginning of `s`.
pub open spec fn has_prefix_of<T>(s: Seq<T>, p: Seq<T>) -> bool {
    p.len() <= s.len() && s.subrange(0, p.len() as int) == p
}

/// The list offered for choosing shows, in order, one line per forum, and the
/// number in the line of position `index`, typed back, is read by
/// `proccess_input` as `index` (trimming leaves it whole, and it is neither
/// `home` nor `forums`); `choose_forum` then opens the forum at that position.
pub proof fn lemma_shown_number_picks_item(items: Seq<ForumListItem>, index: nat, limit: nat)
    requires
        index < items.len(),
        index <= limit,
    ensures
        has_prefix_of(
            prompt_of(items),
            prompt_of(items.subrange(0, index as int)) + "("@ + decimal(index) + ") '"@
                + items[index as int].name@ + "'\n"@,
        ),
        crate::text::trimmed(decimal(index)) == decimal(index),
        decimal(index) != "home"@,
        decimal(index) != "forums"@,
        crate::text::parse_at_most(decimal(index), limit) == Some(index),
{
    lemma_prompt_prefix(items, index + 1int);
    let longer = items.subrange(0, index + 1int);
    assert(longer.drop_last() =~= items.subrange(0, index as int));
    assert(prompt_of(items.subrange(0, index as int)) + prompt_line(index, items[index as int].name@)
        =~= prompt_of(items.subrange(0, index as int)) + "("@ + decimal(index) + ") '"@
        + items[index as int].name@ + "'\n"@);
    crate::text::lemma_decimal_parses_back(index);
    crate::text::lemma_decimal_is_digits(index);
    reveal_strlit("home");
    reveal_strlit("forums");
    let d = decimal(index);
    assert(crate::text::is_digit(d[0]));
    assert(crate::text::is_digit(d.last()));
    assert(crate::text::leading_white_space(d) == 0);
    assert(d.skip(0) =~= d);
    assert(crate::text::trailing_white_space(d) == 0);
    assert(d.take(d.len() as int) =~= d);
    assert("home"@[0] == 'h');
    assert("forums"@[0] == 'f');
}

/// The list screens hold the forums in the order the service listed them, and
/// a listed forum opens on the screen of its kind: owned forums on the owner's
/// screen, permitted ones on the chat screen.
pub proof fn lemma_list_screens(v: Vec<ForumListItem>, x: ForumListItem)
    ensures
        listed(Frame::OwnedForums(v)) == v@,
        listed(Frame::PermittedForums(v)) == v@,
        opened(Frame::OwnedForums(v), x) == Frame::OwnedForum(x),
        opened(Frame::PermittedForums(v), x) == Frame::PermittedForum(x),
        is_list(Frame::OwnedForums(v)),
        is_list(Frame::PermittedForums(v)),
{
}

/// The prompt of no forums is empty, and adding a forum at the end adds exactly
/// one line, "({n}) '{name}'", where `n` is the number of forums before it;
/// so line `i` of the prompt is the one of forum `i`, numbered `i`.
pub proof fn lemma_prompt_lines(items: Seq<ForumListItem>, x: ForumListItem)
    ensures
        prompt_of(Seq::<ForumListItem>::empty()) == Seq::<char>::empty(),
        prompt_of(items.push(x)) == prompt_of(items) + "("@ + decimal(items.len()) + ") '"@
            + x.name@ + "'\n"@,
{
    assert(items.push(x).drop_last() =~= items);
}

} // verus!
