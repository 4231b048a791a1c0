//! Content assembly for a freshly scaffolded peripheral crate: the fixed
//! dependency block appended to the crate's dependency manifest, and the
//! library entry file built as a prelude followed by the generated module
//! body, byte for byte.

use vstd::prelude::*;
use vstd::string::StrSliceExecFns;
use vstd::string::StringSliceAdditionalSpecFns;
use crate::names::append_bytes;

verus! {

/// The fixed block appended to a new crate's dependency manifest: one pinned
/// dependency, then build metadata disabling tests and benchmarks.
pub open spec fn dep_block() -> Seq<u8> {
    ("vcell = \"0.1.2\"\n\n[lib]\nbench = false\ntest = false\n").spec_bytes()
}

/// The fixed dependency block, as bytes.
pub fn dep_block_vec() -> (r: Vec<u8>)
    ensures
        r@ == dep_block(),
{
    ("vcell = \"0.1.2\"\n\n[lib]\nbench = false\ntest = false\n").as_bytes_vec()
}

/// A dependency manifest with the fixed block appended, the earlier content
/// unchanged.
pub open spec fn with_dep_block(manifest: Seq<u8>) -> Seq<u8> {
    manifest + dep_block()
}

/// Append the fixed dependency block to a crate's dependency manifest.
pub fn append_dep_block(manifest: &mut Vec<u8>)
    ensures
        final(manifest)@ == with_dep_block(old(manifest)@),
{
    let block = dep_block_vec();
    append_bytes(manifest, &block);
}

/// The library entry file of a new crate: the given prelude, then the bytes
/// of the generated module body, verbatim.
pub open spec fn lib_entry_of(prelude: Seq<u8>, body: Seq<u8>) -> Seq<u8> {
    prelude + body
}

/// Build the library entry file from a prelude and the generated module
/// body.
pub fn lib_entry_for(prelude: &Vec<u8>, body: &Vec<u8>) -> (r: Vec<u8>)
    ensures
        r@ == lib_entry_of(prelude@, body@),
{
    let mut r: Vec<u8> = Vec::new();
    append_bytes(&mut r, prelude);
    append_bytes(&mut r, body);
    proof {
        assert(Seq::<u8>::empty() + prelude@ + body@ =~= prelude@ + body@);
    }
    r
}

/// A manifest with the fixed block appended ends with the block, and keeps
/// its earlier content as a prefix.
pub proof fn lemma_dep_block_appended(manifest: Seq<u8>)
    ensures
        with_dep_block(manifest).len() == manifest.len() + dep_block().len(),
        with_dep_block(manifest).subrange(0, manifest.len() as int) == manifest,
        with_dep_block(manifest).subrange(
            manifest.len() as int,
            with_dep_block(manifest).len() as int,
        ) == dep_block(),
{
    assert(with_dep_block(manifest).subrange(0, manifest.len() as int) =~= manifest);
    assert(with_dep_block(manifest).subrange(
        manifest.len() as int,
        with_dep_block(manifest).len() as int,
    ) =~= dep_block());
}

/// A library entry file begins with its prelude and ends with exactly the
/// bytes of the module body.
pub proof fn lemma_lib_entry_layout(prelude: Seq<u8>, body: Seq<u8>)
    ensures
        lib_entry_of(prelude, body).len() == prelude.len() + body.len(),
        lib_entry_of(prelude, body).subrange(0, prelude.len() as int) == prelude,
        lib_entry_of(prelude, body).subrange(
            prelude.len() as int,
            lib_entry_of(prelude, body).len() as int,
        ) == body,
{
    assert(lib_entry_of(prelude, body).subrange(0, prelude.len() as int) =~= prelude);
    assert(lib_entry_of(prelude, body).subrange(
        prelude.len() as int,
        lib_entry_of(prelude, body).len() as int,
    ) =~= body);
}

} // verus!
