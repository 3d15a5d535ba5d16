//! Ordering the executables found in a game's folder: those whose path names
//! the folder first, shorter paths before longer ones.

use vstd::prelude::*;
use core::cmp::Ordering;

verus! {

/// A game folder found by a scan, with the executables under it.
#[derive(Clone, Debug)]
pub struct ScanResult {
    /// The folder's name, taken for the game's name.
    pub name: String,
    /// The folder's full path.
    pub path: String,
    /// The executables' paths relative to the folder.
    pub executables: Vec<String>,
}

/// The lower-case form of a text, by Unicode's case mapping.
pub uninterp spec fn lower_of(s: Seq<char>) -> Seq<char>;

/// Relies on `str::to_lowercase`: the result depends on the characters alone.
#[verifier::external_body]
fn lowercase(s: &str) -> (r: String)
    ensures
        r@ == lower_of(s@),
{
    s.to_lowercase()
}

/// `needle` occurs in `hay` as a run of consecutive characters.
pub open spec fn contains_seq(hay: Seq<char>, needle: Seq<char>) -> bool {
    exists|i: int|
        0 <= i && i + needle.len() <= hay.len() && #[trigger] hay.subrange(i, i + needle.len())
            == needle
}

/// Relies on `str::contains` with a `&str` pattern: whether `needle` occurs
/// in `hay`.
#[verifier::external_body]
fn contains_text(hay: &str, needle: &str) -> (r: bool)
    ensures
        r == contains_seq(hay@, needle@),
{
    hay.contains(needle)
}

/// The order of two executables: one whose path names the game comes first;
/// otherwise the one with the shorter path (in bytes).
pub open spec fn executable_order(a_names_game: bool, a_len: nat, b_names_game: bool, b_len: nat) -> Ordering {
    if a_names_game && !b_names_game {
        Ordering::Less
    } else if !a_names_game && b_names_game {
        Ordering::Greater
    } else if a_len < b_len {
        Ordering::Less
    } else if a_len == b_len {
        Ordering::Equal
    } else {
        Ordering::Greater
    }
}

/// Compares executables `a` and `b` given their lower-case forms and the
/// lower-case game name.
pub fn compare_lowered_executables(
    a: &str,
    a_lower: &str,
    b: &str,
    b_lower: &str,
    lower_name: &str,
) -> (r: Ordering)
    ensures
        r == executable_order(
            contains_seq(a_lower@, lower_name@),
            a.len() as nat,
            contains_seq(b_lower@, lower_name@),
            b.len() as nat,
        ),
{
    let a_names = contains_text(a_lower, lower_name);
    let b_names = contains_text(b_lower, lower_name);
    if a_names && !b_names {
        Ordering::Less
    } else if !a_names && b_names {
        Ordering::Greater
    } else {
        let al = a.len();
        let bl = b.len();
        if al < bl {
            Ordering::Less
        } else if al == bl {
            Ordering::Equal
        } else {
            Ordering::Greater
        }
    }
}

/// Compares executables `a` and `b` of the game folder `name`, ignoring case
/// when looking for the name in their paths.
pub fn compare_executables(a: &str, b: &str, name: &str) -> (r: Ordering)
    ensures
        r == executable_order(
            contains_seq(lower_of(a@), lower_of(name@)),
            a.len() as nat,
            contains_seq(lower_of(b@), lower_of(name@)),
            b.len() as nat,
        ),
{
    let a_lower = lowercase(a);
    let b_lower = lowercase(b);
    let lower_name = lowercase(name);
    compare_lowered_executables(a, a_lower.as_str(), b, b_lower.as_str(), lower_name.as_str())
}

} // verus!
