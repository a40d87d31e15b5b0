//! What the engine needs from the standard library's string slices.
use vstd::prelude::*;

verus! {

/// `str`'s `==` holds exactly when the two slices have the same characters.
pub assume_specification[ <str as PartialEq>::eq ](a: &str, b: &str) -> (r: bool)
    ensures
        r == (a@ == b@),
;

/// Whether two string slices hold the same characters.
pub fn same(a: &str, b: &str) -> (r: bool)
    ensures
        r == (a@ == b@),
{
    a.eq(b)
}

/// Whether `prefix` stands at the start of `s`.
pub open spec fn has_prefix(s: Seq<char>, prefix: Seq<char>) -> bool {
    prefix.len() <= s.len() && s.subrange(0, prefix.len() as int) == prefix
}

/// `str::starts_with` with a string slice as the pattern: true exactly when
/// the pattern's characters are the first characters of `s`.
#[verifier::external_body]
pub(crate) fn starts_with(s: &str, prefix: &str) -> (r: bool)
    ensures
        r == has_prefix(s@, prefix@),
{
    s.starts_with(prefix)
}

/// Whether `head` is the part of `s` before its first `.`: all of `s`
/// where `s` holds no `.`.
pub open spec fn is_head(s: Seq<char>, head: Seq<char>) -> bool {
    !head.contains('.') && (s == head || (head.len() < s.len() && s[head.len() as int] == '.'
        && s.subrange(0, head.len() as int) == head))
}

/// A text has one part before its first `.`.
pub proof fn lemma_head_unique(s: Seq<char>, a: Seq<char>, b: Seq<char>)
    requires
        is_head(s, a),
        is_head(s, b),
    ensures
        a == b,
{
    if a.len() == b.len() {
        assert(s.subrange(0, a.len() as int) == a);
        assert(s.subrange(0, b.len() as int) == b);
    } else if a.len() < b.len() {
        assert(s[a.len() as int] == '.');
        assert(s.subrange(0, b.len() as int) == b);
        assert(b[a.len() as int] == s[a.len() as int]);
        assert(b.contains('.'));
    } else {
        assert(s[b.len() as int] == '.');
        assert(s.subrange(0, a.len() as int) == a);
        assert(a[b.len() as int] == s[b.len() as int]);
        assert(a.contains('.'));
    }
}

/// `str::split_once` with the character `.` as the delimiter: the parts
/// before and after the first `.`, or nothing where `s` holds no `.`.
#[verifier::external_body]
pub(crate) fn split_at_dot(s: &str) -> (r: Option<(&str, &str)>)
    ensures
        match r {
            Some((head, tail)) => s@ == head@ + seq!['.'] + tail@ && !head@.contains('.'),
            None => !s@.contains('.'),
        },
{
    s.split_once('.')
}

/// The part of `s` before its first `.`.
pub fn head_before_dot(s: &str) -> (r: &str)
    ensures
        is_head(s@, r@),
{
    match split_at_dot(s) {
        Some((head, tail)) => {
            assert(s@.subrange(0, head@.len() as int) =~= head@);
            head
        },
        None => s,
    }
}

} // verus!
