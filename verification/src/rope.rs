//! The text buffer is a `ropey::Rope`. Every call into ropey stands in this
//! file, each behind a trusted item whose contract is stated over
//! `rope_text`, the sequence of chars that a rope holds.
use vstd::prelude::*;
use ropey::Rope;

verus! {

/// `ropey::Rope`, carried through verified code as an opaque value.
#[verifier::external_type_specification]
#[verifier::external_body]
pub struct ExRope(ropey::Rope);

/// The text held by a rope, as a sequence of chars.
pub uninterp spec fn rope_text(r: Rope) -> Seq<char>;

/// `Rope::from_str`: a rope that holds exactly the chars of `s`.
#[verifier::external_body]
pub(crate) fn rope_from_str(s: &str) -> (r: Rope)
    ensures
        rope_text(r) == s@,
{
    Rope::from_str(s)
}

/// `Rope::len_chars`: the number of chars the rope holds.
#[verifier::external_body]
pub(crate) fn rope_len_chars(r: &Rope) -> (n: usize)
    ensures
        n == rope_text(*r).len(),
{
    r.len_chars()
}

/// `Rope::insert_char`: `ch` is inserted before the char at `char_idx`
/// (appended when `char_idx` is the length). ropey panics when
/// `char_idx > len_chars()`, which `requires` rules out.
#[verifier::external_body]
pub(crate) fn rope_insert_char(r: &mut Rope, char_idx: usize, ch: char)
    requires
        char_idx <= rope_text(*old(r)).len(),
    ensures
        rope_text(*final(r)) == rope_text(*old(r)).insert(char_idx as int, ch),
{
    r.insert_char(char_idx, ch)
}

/// `Rope::remove` on the char range `start..end`: those chars are taken out,
/// the rest keeps its order. ropey panics when `start > end` or
/// `end > len_chars()`, which `requires` rules out.
#[verifier::external_body]
pub(crate) fn rope_remove(r: &mut Rope, start: usize, end: usize)
    requires
        start <= end <= rope_text(*old(r)).len(),
    ensures
        rope_text(*final(r)) == rope_text(*old(r)).subrange(0, start as int) + rope_text(
            *old(r),
        ).subrange(end as int, rope_text(*old(r)).len() as int),
{
    r.remove(start..end)
}

/// `String::from(&Rope)`: the rope's chars, in order, as a `String`.
#[verifier::external_body]
pub(crate) fn rope_to_string(r: &Rope) -> (s: String)
    ensures
        s@ == rope_text(*r),
{
    String::from(r)
}

/// `Rope::clone`: a rope with the same text.
#[verifier::external_body]
pub(crate) fn rope_clone(r: &Rope) -> (c: Rope)
    ensures
        rope_text(c) == rope_text(*r),
{
    r.clone()
}

} // verus!
