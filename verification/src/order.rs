//! Orders: the comment that a delivered order carries.
use vstd::prelude::*;
use crate::strings::owned;

verus! {

/// The separator between an order's comment and its track id.
pub open spec fn track_separator() -> Seq<char> {
    seq![' ', '|', ' ']
}

/// The words that introduce a track id.
pub open spec fn track_label() -> Seq<char> {
    seq!['T', 'r', 'a', 'c', 'k', ' ', 'i', 'd', ':', ' ']
}

/// The comment of an order set to delivered: where a track id is given, it
/// is added to the comment (after ` | ` where there is a comment).
pub open spec fn delivery_comment_spec(comment: Option<Seq<char>>, track_id: Option<Seq<char>>) -> Option<
    Seq<char>,
> {
    match track_id {
        None => comment,
        Some(t) => match comment {
            Some(c) => Some(c + track_separator() + track_label() + t),
            None => Some(track_label() + t),
        },
    }
}

/// The comment that an order set to delivered is sent with.
pub fn delivery_comment(comment: Option<String>, track_id: &Option<String>) -> (r: Option<String>)
    ensures
        (match r {
            Some(s) => Some(s@),
            None => None,
        }) == delivery_comment_spec(
            match comment {
                Some(c) => Some(c@),
                None => None,
            },
            match track_id {
                Some(t) => Some(t@),
                None => None,
            },
        ),
{
    proof {
        reveal_strlit(" | ");
        reveal_strlit("Track id: ");
        assert(" | "@ =~= track_separator());
        assert("Track id: "@ =~= track_label());
    }
    match track_id {
        None => comment,
        Some(t) => match comment {
            Some(c) => {
                let mut c = c;
                c.append(" | ");
                c.append("Track id: ");
                c.append(t.as_str());
                Some(c)
            },
            None => {
                let mut s: String = owned("Track id: ");
                s.append(t.as_str());
                Some(s)
            },
        },
    }
}

} // verus!
