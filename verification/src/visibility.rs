//! Visibility of nodes: which of a store's or product's states a request
//! may see.
use vstd::prelude::*;
use crate::strings::{owned, str_equal};

verus! {

/// Represents visibility of nodes. Possible values: `active`, `published`.
#[derive(Debug, Clone, Copy, PartialEq, Eq, Structural)]
pub enum Visibility {
    /// Every active node.
    Active,
    /// Published nodes only.
    Published,
}

/// A character's ASCII lower case: `A` to `Z` become `a` to `z`, every
/// other character stays.
pub open spec fn ascii_lower(c: char) -> char {
    if 'A' <= c && c <= 'Z' {
        ((c as u32) + 32) as char
    } else {
        c
    }
}

/// A string's ASCII lower case.
pub open spec fn ascii_lowercase(s: Seq<char>) -> Seq<char> {
    s.map_values(|c: char| ascii_lower(c))
}

/// `str::to_ascii_lowercase`: a copy of the string in which the ASCII
/// letters `A` to `Z` are mapped to `a` to `z` and every other character is
/// unchanged, as std documents it.
#[verifier::external_body]
fn to_ascii_lowercase(s: &str) -> (r: String)
    ensures
        r@ == ascii_lowercase(s@),
{
    s.to_ascii_lowercase()
}

/// How a visibility is written.
pub open spec fn visibility_text(v: Visibility) -> Seq<char> {
    match v {
        Visibility::Active => seq!['a', 'c', 't', 'i', 'v', 'e'],
        Visibility::Published => seq!['p', 'u', 'b', 'l', 'i', 's', 'h', 'e', 'd'],
    }
}

/// The visibility that a string is read as: its ASCII lower case must be
/// `active` or `published`.
pub open spec fn visibility_of(s: Seq<char>) -> Option<Visibility> {
    if ascii_lowercase(s) == visibility_text(Visibility::Active) {
        Some(Visibility::Active)
    } else if ascii_lowercase(s) == visibility_text(Visibility::Published) {
        Some(Visibility::Published)
    } else {
        None
    }
}

/// A string that names no visibility.
#[derive(Debug, Clone)]
pub struct UnknownVisibility {
    /// The string that was given, in ASCII lower case.
    pub value: String,
}

impl Visibility {
    /// How this visibility is written.
    pub fn as_str(&self) -> (s: &'static str)
        ensures
            s@ == visibility_text(*self),
    {
        match self {
            Visibility::Active => {
                proof { reveal_strlit("active"); }
                "active"
            },
            Visibility::Published => {
                proof { reveal_strlit("published"); }
                "published"
            },
        }
    }

    /// How this visibility is written, as an owned string.
    pub fn to_string(&self) -> (s: String)
        ensures
            s@ == visibility_text(*self),
    {
        owned(self.as_str())
    }

    /// Reads a visibility, whatever the case of its ASCII letters.
    pub fn from_str(visibility: &str) -> (r: Result<Visibility, UnknownVisibility>)
        ensures
            match r {
                Ok(v) => visibility_of(visibility@) == Some(v),
                Err(e) => visibility_of(visibility@) is None && e.value@ == ascii_lowercase(
                    visibility@,
                ),
            },
    {
        let lower: String = to_ascii_lowercase(visibility);
        if str_equal(lower.as_str(), Visibility::Active.as_str()) {
            Ok(Visibility::Active)
        } else if str_equal(lower.as_str(), Visibility::Published.as_str()) {
            Ok(Visibility::Published)
        } else {
            Err(UnknownVisibility { value: lower })
        }
    }
}

impl Default for Visibility {
    /// Published nodes only.
    fn default() -> (v: Self)
        ensures
            v == Visibility::Published,
    {
        Visibility::Published
    }
}

/// Lower-casing a lower-cased string changes nothing.
pub proof fn lemma_ascii_lowercase_idempotent(s: Seq<char>)
    ensures
        ascii_lowercase(ascii_lowercase(s)) == ascii_lowercase(s),
{
    assert forall|i: int| 0 <= i < s.len() implies ascii_lower(ascii_lower(s[i])) == ascii_lower(
        s[i],
    ) by {
        let c = s[i];
        if 'A' <= c && c <= 'Z' {
            assert((c as u32) + 32 >= 'a' as u32);
        }
    }
    assert(ascii_lowercase(ascii_lowercase(s)) =~= ascii_lowercase(s));
}

/// A visibility, written out, is read back as itself.
pub proof fn lemma_visibility_round_trip(v: Visibility)
    ensures
        visibility_of(visibility_text(v)) == Some(v),
{
    assert(ascii_lowercase(visibility_text(v)) =~= visibility_text(v));
}

/// Reading a visibility does not depend on the case of its ASCII
/// letters: a string is read as its lower case is.
pub proof fn lemma_visibility_ignores_case(s: Seq<char>)
    ensures
        visibility_of(s) == visibility_of(ascii_lowercase(s)),
{
    lemma_ascii_lowercase_idempotent(s);
}

} // verus!
