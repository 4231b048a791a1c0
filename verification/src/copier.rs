//! The directory copier, over an in-memory picture of a directory tree.
//!
//! A tree is read from the generator output, mirrored entry by entry, and
//! written below the destination crate: every file keeps its base name and
//! its exact bytes, every directory keeps its name and is recursed into.

use vstd::prelude::*;
use crate::manifest::clone_bytes;

verus! {

broadcast use vstd::std_specs::vec::group_vec_axioms;

/// One entry of a directory tree: a file with its bytes, or a directory
/// with its entries in order.
pub enum DirTree {
    /// A file, with its base name and its contents.
    File { name: Vec<u8>, data: Vec<u8> },
    /// A directory, with its base name and its entries.
    Dir { name: Vec<u8>, entries: Vec<DirTree> },
}

/// Whether two trees agree everywhere: same shape, same names, and the same
/// bytes in every file, recursively.
pub open spec fn same_tree(a: DirTree, b: DirTree) -> bool
    decreases a,
{
    match (a, b) {
        (DirTree::File { name: an, data: ad }, DirTree::File { name: bn, data: bd }) => an@ == bn@
            && ad@ == bd@,
        (DirTree::Dir { name: an, entries: ae }, DirTree::Dir { name: bn, entries: be }) => an@
            == bn@ && ae.len() == be.len() && (forall|i: int|
            0 <= i < ae.len() ==> same_tree(ae[i], be[i])),
        _ => false,
    }
}

/// The number of files in a tree, recursively; a file counts itself.
pub open spec fn file_count(t: DirTree) -> nat
    decreases t, 1int,
{
    match t {
        DirTree::File { .. } => 1,
        DirTree::Dir { entries, .. } => file_count_all(entries@),
    }
}

/// The number of files under all trees of a sequence.
pub open spec fn file_count_all(s: Seq<DirTree>) -> nat
    decreases s, 0int,
{
    if s.len() == 0 {
        0
    } else {
        file_count(s[0]) + file_count_all(s.subrange(1, s.len() as int))
    }
}

/// The number of directories in a tree, recursively; a directory counts
/// itself.
pub open spec fn dir_count(t: DirTree) -> nat
    decreases t, 1int,
{
    match t {
        DirTree::File { .. } => 0,
        DirTree::Dir { entries, .. } => 1 + dir_count_all(entries@),
    }
}

/// The number of directories under all trees of a sequence.
pub open spec fn dir_count_all(s: Seq<DirTree>) -> nat
    decreases s, 0int,
{
    if s.len() == 0 {
        0
    } else {
        dir_count(s[0]) + dir_count_all(s.subrange(1, s.len() as int))
    }
}

/// Copy a directory tree: the result agrees with the source everywhere.
pub fn copy_tree(t: &DirTree) -> (r: DirTree)
    ensures
        same_tree(*t, r),
    decreases *t,
{
    match t {
        DirTree::File { name, data } => DirTree::File {
            name: clone_bytes(name),
            data: clone_bytes(data),
        },
        DirTree::Dir { name, entries } => {
            let mut rs: Vec<DirTree> = Vec::new();
            let mut i: usize = 0;
            while i < entries.len()
                invariant
                    i <= entries@.len(),
                    rs@.len() == i,
                    *t == (DirTree::Dir { name: *name, entries: *entries }),
                    forall|j: int| 0 <= j < i ==> same_tree(entries@[j], #[trigger] rs@[j]),
                decreases entries@.len() - i,
            {
                proof {
                    let d = (DirTree::Dir { name: *name, entries: *entries });
                    assert(*t == d);
                    assert(d->Dir_entries == *entries);
                    assert(decreases_to!(d => d->Dir_entries));
                    assert(decreases_to!(*entries => entries[i as int]));
                }
                let c = copy_tree(&entries[i]);
                rs.push(c);
                i = i + 1;
            }
            DirTree::Dir { name: clone_bytes(name), entries: rs }
        },
    }
}

/// Trees that agree everywhere hold the same number of files and the same
/// number of directories.
pub proof fn lemma_same_tree_counts(a: DirTree, b: DirTree)
    requires
        same_tree(a, b),
    ensures
        file_count(a) == file_count(b),
        dir_count(a) == dir_count(b),
    decreases a, 1int,
{
    match (a, b) {
        (DirTree::Dir { entries: ae, .. }, DirTree::Dir { entries: be, .. }) => {
            lemma_same_tree_counts_all(ae@, be@);
        },
        _ => {},
    }
}

/// Sequences of trees that agree pairwise hold the same counts.
proof fn lemma_same_tree_counts_all(a: Seq<DirTree>, b: Seq<DirTree>)
    requires
        a.len() == b.len(),
        forall|i: int| 0 <= i < a.len() ==> same_tree(a[i], b[i]),
    ensures
        file_count_all(a) == file_count_all(b),
        dir_count_all(a) == dir_count_all(b),
    decreases a, 0int,
{
    if a.len() > 0 {
        lemma_same_tree_counts(a[0], b[0]);
        let at = a.subrange(1, a.len() as int);
        let bt = b.subrange(1, b.len() as int);
        assert(forall|i: int| 0 <= i < at.len() ==> same_tree(at[i], bt[i]));
        lemma_same_tree_counts_all(at, bt);
    }
}

} // verus!
