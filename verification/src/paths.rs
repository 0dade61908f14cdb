//! Path arithmetic, left to the standard library.
//!
//! Paths are held as text. Joining and splitting them follows the rules of
//! `std::path`, which this module calls and names but does not restate.

use vstd::prelude::*;

verus! {

/// The path that `std::path::PathBuf::push` leaves when `component` is
/// pushed onto `base`.
pub uninterp spec fn pushed_path(base: Seq<char>, component: Seq<char>) -> Seq<char>;

/// The parent that `std::path::Path::parent` gives for `path`, if it gives
/// one.
pub uninterp spec fn parent_path(path: Seq<char>) -> Option<Seq<char>>;

/// Calls `std::path::PathBuf::push` on a copy of `base`.
///
/// Not proved: that the text returned is the path that `push` leaves. Both
/// arguments are valid UTF-8, and so is the path made of them, so turning
/// it back into text loses nothing.
#[verifier::external_body]
pub(crate) fn push_path(base: &str, component: &str) -> (joined: String)
    ensures
        joined@ == pushed_path(base@, component@),
{
    let mut path = std::path::PathBuf::from(base);
    path.push(component);
    path.to_string_lossy().into_owned()
}

/// Calls `std::path::Path::parent`.
///
/// Not proved: that the text returned is the parent that `parent` gives,
/// and `None` exactly where it gives none. The parent of a UTF-8 path is a
/// prefix of it, so turning it into text loses nothing.
#[verifier::external_body]
pub(crate) fn parent_of(path: &str) -> (parent: Option<String>)
    ensures
        parent.deep_view() == parent_path(path@),
{
    match std::path::Path::new(path).parent() {
        Some(parent) => Some(parent.to_string_lossy().into_owned()),
        None => None,
    }
}

} // verus!
