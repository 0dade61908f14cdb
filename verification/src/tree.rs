//! A model of a file system, for saying what an action does to one.
//!
//! The model is a map from paths to what they name. A directory is one
//! entry, and stands for everything in it: renaming a directory moves the
//! entry, and with it all that the directory holds. The model takes every
//! request to succeed. Nothing here runs; the functions exist so that laws
//! about actions can speak of the machine before and after.

use vstd::prelude::*;
use crate::system::RequestView;

verus! {

/// What a path names.
pub enum Entry {
    /// A directory, with all that is in it.
    Directory(int),
    /// A file with its text.
    File(Seq<char>),
}

/// The directory that `create_dir_all` makes: an empty one.
pub open spec fn empty_directory() -> Entry {
    Entry::Directory(0)
}

/// A file system: what each path names.
pub type Tree = Map<Seq<char>, Entry>;

/// The tree after `request` was performed on it.
///
/// Questions leave the tree as it is. A rename moves the entry, over
/// whatever the target named. Creating a directory adds an empty one where
/// the path names nothing. Writing puts a file in place; removing takes the
/// entry away. Of the tree after a command nothing is known.
pub open spec fn performed(tree: Tree, request: RequestView) -> Tree {
    match request {
        RequestView::Metadata { path } => tree,
        RequestView::TryExists { path } => tree,
        RequestView::CreateDirAll { path } => if tree.contains_key(path) {
            tree
        } else {
            tree.insert(path, empty_directory())
        },
        RequestView::Rename { from, to } => if tree.contains_key(from) {
            tree.remove(from).insert(to, tree[from])
        } else {
            tree
        },
        RequestView::Write { path, contents } => tree.insert(path, Entry::File(contents)),
        RequestView::RemoveFile { path } => tree.remove(path),
        RequestView::Run { command } => arbitrary(),
    }
}

/// The tree after `requests` were performed on it, in order.
pub open spec fn performed_all(tree: Tree, requests: Seq<RequestView>) -> Tree
    decreases requests.len(),
{
    if requests.len() == 0 {
        tree
    } else {
        performed(performed_all(tree, requests.drop_last()), requests.last())
    }
}

} // verus!
