//! The screen of a forum the user may use: its chat.
use vstd::prelude::*;
use vstd::string::*;

verus! {

/// The heading of a permitted forum's screen.
pub open spec fn permitted_heading_text(forum_name: Seq<char>) -> Seq<char> {
    "Forum '"@ + forum_name + "'"@
}

/// The heading of a permitted forum's screen, shown before its chat opens.
pub fn permitted_heading(forum_name: &str) -> (r: String)
    ensures
        r@ == permitted_heading_text(forum_name@),
{
    let mut s = String::from_str("Forum '");
    s.append(forum_name);
    s.append("'");
    s
}

} // verus!
