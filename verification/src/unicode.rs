//! The Unicode facts the editor relies on but does not prove.
//!
//! Grapheme segmentation and display width are computed by the
//! `unicode-segmentation` and `unicode-width` crates, character classes by
//! the standard library. Each gets a name here, and the functions below are
//! the only places where those computations are called. Their contracts are
//! believed, not verified.

use unicode_segmentation::UnicodeSegmentation;
use unicode_width::UnicodeWidthStr;
use vstd::prelude::*;

verus! {

/// The extended grapheme clusters of `text`, in order, as
/// `UnicodeSegmentation::graphemes(text, true)` yields them.
pub uninterp spec fn grapheme_clusters(text: Seq<char>) -> Seq<Seq<char>>;

/// The number of terminal columns `text` occupies, as
/// `UnicodeWidthStr::width` computes it.
pub uninterp spec fn display_width(text: Seq<char>) -> nat;

/// Whether `c` has the Unicode property `White_Space`, as
/// `char::is_whitespace` decides it.
pub uninterp spec fn is_whitespace(c: char) -> bool;

/// Whether `c` is a control code (general category `Cc`), as
/// `char::is_control` decides it.
pub uninterp spec fn is_control(c: char) -> bool;

/// The texts of a sequence of strings.
pub open spec fn texts_of(strings: Seq<String>) -> Seq<Seq<char>> {
    Seq::new(strings.len(), |i: int| strings[i]@)
}

/// Calls `UnicodeSegmentation::graphemes` with extended clusters.
///
/// Believed: the clusters are those named by [`grapheme_clusters`]; the
/// iterator cuts the text at successive boundaries, so the clusters joined
/// give the text back, and none of them is empty.
#[verifier::external_body]
pub(crate) fn split_graphemes(text: &str) -> (clusters: Vec<String>)
    ensures
        texts_of(clusters@) == grapheme_clusters(text@),
        texts_of(clusters@).flatten() == text@,
        forall|i: int| 0 <= i < clusters@.len() ==> (#[trigger] clusters@[i])@.len() > 0,
{
    text.graphemes(true).map(|grapheme| grapheme.to_string()).collect()
}

/// Calls `UnicodeWidthStr::width`.
///
/// Believed: the result is the width named by [`display_width`].
#[verifier::external_body]
pub(crate) fn str_width(text: &str) -> (width: usize)
    ensures
        width == display_width(text@),
{
    text.width()
}

/// Calls `char::is_whitespace`.
///
/// Believed: the result is the property named by [`is_whitespace`].
#[verifier::external_body]
pub(crate) fn char_is_whitespace(c: char) -> (b: bool)
    ensures
        b == is_whitespace(c),
{
    c.is_whitespace()
}

/// Calls `char::is_control`.
///
/// Believed: the result is the property named by [`is_control`].
#[verifier::external_body]
pub(crate) fn char_is_control(c: char) -> (b: bool)
    ensures
        b == is_control(c),
{
    c.is_control()
}

/// Calls `String::push`.
///
/// Believed: the character is appended to the end of the string.
#[verifier::external_body]
pub(crate) fn push_char(string: &mut String, c: char)
    ensures
        final(string)@ == old(string)@.push(c),
{
    string.push(c);
}

} // verus!
