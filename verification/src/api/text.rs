//! Text operations of the standard library that the proofs lean on, each with
//! the contract its documentation gives, and a few verified helpers on top.

use vstd::prelude::*;
use vstd::utf8::*;

verus! {

/// `==` on `str` holds exactly when the two texts have the same characters.
/// Assumed of the standard library, not proved.
pub assume_specification[ <str as PartialEq>::eq ](a: &str, b: &str) -> (same: bool)
    ensures
        same == (a@ == b@),
;

/// `str::strip_suffix`: the text before `suffix` when `text` ends with it,
/// nothing otherwise. Assumed of the standard library, not proved.
#[verifier::external_body]
pub(crate) fn strip_suffix<'a>(text: &'a str, suffix: &str) -> (rest: Option<&'a str>)
    ensures
        match rest {
            Some(head) => text@ == head@ + suffix@,
            None => !suffix@.is_suffix_of(text@),
        },
{
    text.strip_suffix(suffix)
}

/// `std::str::from_utf8`: the text that `bytes` encode, when they are valid
/// UTF-8. Assumed of the standard library, not proved; validity and decoding
/// are those of `vstd::utf8`.
#[verifier::external_body]
pub(crate) fn utf8_text(bytes: &[u8]) -> (text: Option<&str>)
    ensures
        match text {
            Some(decoded) => valid_utf8(bytes@) && decoded@ == decode_utf8(bytes@),
            None => !valid_utf8(bytes@),
        },
{
    std::str::from_utf8(bytes).ok()
}

/// The views of a sequence of strings, in order.
pub open spec fn texts(items: Seq<String>) -> Seq<Seq<char>> {
    Seq::new(items.len(), |i: int| items[i]@)
}

/// The view of an optional string.
pub open spec fn opt_text(item: Option<String>) -> Option<Seq<char>> {
    match item {
        Some(text) => Some(text@),
        None => None,
    }
}

/// The view of an optional borrowed text.
pub open spec fn opt_str(item: Option<&str>) -> Option<Seq<char>> {
    match item {
        Some(text) => Some(text@),
        None => None,
    }
}

/// `text` without one trailing `suffix`, or unchanged if it does not end with it.
pub open spec fn without_suffix(text: Seq<char>, suffix: Seq<char>) -> Seq<char> {
    if suffix.is_suffix_of(text) {
        text.subrange(0, text.len() - suffix.len())
    } else {
        text
    }
}

/// An owned copy of an optional borrowed text.
pub fn owned(item: Option<&str>) -> (copy: Option<String>)
    ensures
        opt_text(copy) == opt_str(item),
{
    match item {
        Some(text) => Some(text.to_string()),
        None => None,
    }
}

/// A copy of a list of strings.
pub fn copy_texts(items: &Vec<String>) -> (copy: Vec<String>)
    ensures
        copy@ == items@,
{
    let mut copy: Vec<String> = Vec::new();
    let mut i: usize = 0;
    while i < items.len()
        invariant
            i <= items.len(),
            copy@ == items@.subrange(0, i as int),
        decreases items.len() - i,
    {
        copy.push(items[i].clone());
        i = i + 1;
    }
    copy
}

/// The characters of a text, in order.
pub fn chars_of(text: &str) -> (chars: Vec<char>)
    ensures
        chars@ == text@,
{
    let mut chars: Vec<char> = Vec::new();
    for c in it: text.chars()
        invariant
            chars@ == it.seq().take(it.index() as int),
    {
        chars.push(c);
    }
    chars
}

} // verus!
