//! Naming rules for imported peripheral crates.
//!
//! A module name taken from the generator output turns into a crate name by
//! replacing its internal underscores with hyphens and prefixing the fixed
//! project prefix. A crate name turns back into an importable module
//! identifier by replacing hyphens with underscores, and into a short alias
//! by stripping everything up to and including the first underscore of that
//! identifier. Names and text are handled as byte strings.

use vstd::prelude::*;
use vstd::string::StrSliceExecFns;
use vstd::string::StringSliceAdditionalSpecFns;
use vstd::utf8::is_ascii_chars;

verus! {

/// The byte `'-'`.
pub const DASH: u8 = 45;

/// The byte `'_'`.
pub const UNDERSCORE: u8 = 95;

/// `s` with every occurrence of `from` replaced by `to`.
pub open spec fn replaced(s: Seq<u8>, from: u8, to: u8) -> Seq<u8> {
    s.map_values(|b: u8| if b == from { to } else { b })
}

/// Replace every occurrence of the byte `from` with `to`.
pub fn replace_byte(s: &Vec<u8>, from: u8, to: u8) -> (r: Vec<u8>)
    ensures
        r@ == replaced(s@, from, to),
{
    let mut r: Vec<u8> = Vec::new();
    let mut i: usize = 0;
    while i < s.len()
        invariant
            i <= s@.len(),
            r@.len() == i,
            forall|j: int| 0 <= j < i ==> r@[j] == (if s@[j] == from { to } else { s@[j] }),
        decreases s@.len() - i,
    {
        let b = s[i];
        if b == from {
            r.push(to);
        } else {
            r.push(b);
        }
        i = i + 1;
    }
    proof {
        assert(r@ =~= replaced(s@, from, to));
    }
    r
}

/// Append a copy of `src` to `dst`.
pub fn append_bytes(dst: &mut Vec<u8>, src: &Vec<u8>)
    ensures
        final(dst)@ == old(dst)@ + src@,
{
    let mut i: usize = 0;
    while i < src.len()
        invariant
            i <= src@.len(),
            dst@ == old(dst)@ + src@.subrange(0, i as int),
        decreases src@.len() - i,
    {
        dst.push(src[i]);
        proof {
            assert(old(dst)@ + src@.subrange(0, i as int) + seq![src@[i as int]]
                =~= old(dst)@ + src@.subrange(0, i + 1));
        }
        i = i + 1;
    }
    proof {
        assert(src@.subrange(0, src@.len() as int) =~= src@);
    }
}

/// The fixed project prefix put before every imported crate's name.
pub open spec fn crate_prefix() -> Seq<u8> {
    ("project-").spec_bytes()
}

/// The fixed project prefix, as bytes.
pub fn crate_prefix_vec() -> (r: Vec<u8>)
    ensures
        r@ == crate_prefix(),
{
    ("project-").as_bytes_vec()
}

/// The crate name derived from a module name: the fixed project prefix,
/// then the module name with underscores turned into hyphens.
pub open spec fn crate_name_of(module: Seq<u8>) -> Seq<u8> {
    crate_prefix() + replaced(module, UNDERSCORE, DASH)
}

/// Derive the crate name for a module name.
pub fn crate_name_for(module: &Vec<u8>) -> (r: Vec<u8>)
    ensures
        r@ == crate_name_of(module@),
{
    let mut r = crate_prefix_vec();
    let body = replace_byte(module, UNDERSCORE, DASH);
    append_bytes(&mut r, &body);
    r
}

/// The importable module identifier of a crate name: hyphens turned back
/// into underscores.
pub open spec fn module_ident_of(crate_name: Seq<u8>) -> Seq<u8> {
    replaced(crate_name, DASH, UNDERSCORE)
}

/// Everything after the first occurrence of `b` in `s`; empty when `b` does
/// not occur.
pub open spec fn tail_after(s: Seq<u8>, b: u8) -> Seq<u8>
    decreases s.len(),
{
    if s.len() == 0 {
        Seq::empty()
    } else if s[0] == b {
        s.subrange(1, s.len() as int)
    } else {
        tail_after(s.subrange(1, s.len() as int), b)
    }
}

/// When `i` is the first index of `b` in `s`, the tail after `b` is
/// everything past `i`.
proof fn lemma_tail_after_at(s: Seq<u8>, b: u8, i: int)
    requires
        0 <= i < s.len(),
        s[i] == b,
        forall|j: int| 0 <= j < i ==> s[j] != b,
    ensures
        tail_after(s, b) == s.subrange(i + 1, s.len() as int),
    decreases i,
{
    if i == 0 {
    } else {
        let t = s.subrange(1, s.len() as int);
        lemma_tail_after_at(t, b, i - 1);
        assert(t.subrange(i, t.len() as int) =~= s.subrange(i + 1, s.len() as int));
    }
}

/// When `b` does not occur in `s`, the tail after `b` is empty.
proof fn lemma_tail_after_none(s: Seq<u8>, b: u8)
    requires
        forall|j: int| 0 <= j < s.len() ==> s[j] != b,
    ensures
        tail_after(s, b) == Seq::<u8>::empty(),
    decreases s.len(),
{
    if s.len() == 0 {
    } else {
        lemma_tail_after_none(s.subrange(1, s.len() as int), b);
    }
}

/// Return everything after the first occurrence of the byte `b`, or an empty
/// vector when `b` does not occur.
pub fn after_first(s: &Vec<u8>, b: u8) -> (r: Vec<u8>)
    ensures
        r@ == tail_after(s@, b),
{
    let mut i: usize = 0;
    while i < s.len()
        invariant
            i <= s@.len(),
            forall|j: int| 0 <= j < i ==> s@[j] != b,
        decreases s@.len() - i,
    {
        if s[i] == b {
            let mut r: Vec<u8> = Vec::new();
            let mut k: usize = i + 1;
            while k < s.len()
                invariant
                    i + 1 <= k <= s@.len(),
                    i < s@.len(),
                    r@ == s@.subrange(i + 1, k as int),
                decreases s@.len() - k,
            {
                r.push(s[k]);
                proof {
                    assert(s@.subrange(i + 1, k as int) + seq![s@[k as int]]
                        =~= s@.subrange(i + 1, k + 1));
                }
                k = k + 1;
            }
            proof {
                lemma_tail_after_at(s@, b, i as int);
            }
            return r;
        }
        i = i + 1;
    }
    proof {
        lemma_tail_after_none(s@, b);
    }
    Vec::new()
}

/// The short alias of a crate name: the importable identifier with its
/// leading prefix segment (through the first underscore) stripped.
pub open spec fn alias_of(crate_name: Seq<u8>) -> Seq<u8> {
    tail_after(module_ident_of(crate_name), UNDERSCORE)
}

/// The suggested re-export line for one crate name:
/// `pub use <identifier> as <alias>;`.
pub open spec fn reexport_line_of(crate_name: Seq<u8>) -> Seq<u8> {
    ("pub use ").spec_bytes() + module_ident_of(crate_name) + (" as ").spec_bytes()
        + alias_of(crate_name) + (";").spec_bytes()
}

/// Build the suggested re-export line for one crate name.
pub fn reexport_line_for(crate_name: &Vec<u8>) -> (r: Vec<u8>)
    ensures
        r@ == reexport_line_of(crate_name@),
{
    let ident = replace_byte(crate_name, DASH, UNDERSCORE);
    let alias = after_first(&ident, UNDERSCORE);
    let mut r = ("pub use ").as_bytes_vec();
    append_bytes(&mut r, &ident);
    let mid = (" as ").as_bytes_vec();
    append_bytes(&mut r, &mid);
    append_bytes(&mut r, &alias);
    let end = (";").as_bytes_vec();
    append_bytes(&mut r, &end);
    r
}

/// Replacement acts on each byte alone, so it distributes over
/// concatenation.
proof fn lemma_replaced_distributes(a: Seq<u8>, b: Seq<u8>, from: u8, to: u8)
    ensures
        replaced(a + b, from, to) == replaced(a, from, to) + replaced(b, from, to),
{
    assert(replaced(a + b, from, to) =~= replaced(a, from, to) + replaced(b, from, to));
}

/// Turning underscores into hyphens and back recovers any name that held no
/// hyphen of its own.
pub proof fn law_separator_swap_round_trip(name: Seq<u8>)
    requires
        forall|i: int| 0 <= i < name.len() ==> name[i] != DASH,
    ensures
        replaced(replaced(name, UNDERSCORE, DASH), DASH, UNDERSCORE) == name,
{
    assert(replaced(replaced(name, UNDERSCORE, DASH), DASH, UNDERSCORE) =~= name);
}

/// The bytes of the fixed project prefix: eight bytes, a hyphen at the end
/// and none of the two separators anywhere else.
proof fn lemma_prefix_bytes()
    ensures
        crate_prefix().len() == 8,
        crate_prefix()[7] == DASH,
        forall|i: int| 0 <= i < 7 ==> crate_prefix()[i] != DASH,
        forall|i: int| 0 <= i < 7 ==> crate_prefix()[i] != UNDERSCORE,
{
    reveal_strlit("project-");
    let v = ("project-")@;
    assert(is_ascii_chars(v)) by {
        assert forall|i: int| 0 <= i < v.len() implies '\0' <= #[trigger] v[i] <= '\u{7f}' by {
            assert(v.len() == 8);
        }
    }
    vstd::utf8::is_ascii_chars_encode_utf8(v);
    assert(crate_prefix() =~= Seq::new(v.len(), |i: int| v[i] as u8));
}

/// The advisor recovers the module name: for a module name without hyphens,
/// the short alias of its crate name is the module name itself.
pub proof fn law_alias_recovers_module_name(module: Seq<u8>)
    requires
        forall|i: int| 0 <= i < module.len() ==> module[i] != DASH,
    ensures
        alias_of(crate_name_of(module)) == module,
{
    lemma_prefix_bytes();
    let dashed = replaced(module, UNDERSCORE, DASH);
    lemma_replaced_distributes(crate_prefix(), dashed, DASH, UNDERSCORE);
    law_separator_swap_round_trip(module);
    let ident = module_ident_of(crate_name_of(module));
    let swapped_prefix = replaced(crate_prefix(), DASH, UNDERSCORE);
    assert(ident == swapped_prefix + module);
    assert(swapped_prefix.len() == 8);
    assert(ident[7] == UNDERSCORE);
    assert(forall|j: int| 0 <= j < 7 ==> ident[j] != UNDERSCORE);
    lemma_tail_after_at(ident, UNDERSCORE, 7);
    assert(ident.subrange(8, ident.len() as int) =~= module);
}

/// The re-export lines for a list of crate names, one per name, in order.
pub open spec fn reexport_lines_of(crate_names: Seq<Seq<u8>>) -> Seq<Seq<u8>> {
    crate_names.map_values(|n: Seq<u8>| reexport_line_of(n))
}

/// Build the suggested re-export lines for the given crate names, in order.
pub fn reexport_lines_for(crate_names: &Vec<Vec<u8>>) -> (r: Vec<Vec<u8>>)
    ensures
        r@.map_values(|v: Vec<u8>| v@) == reexport_lines_of(
            crate_names@.map_values(|v: Vec<u8>| v@),
        ),
{
    let mut r: Vec<Vec<u8>> = Vec::new();
    let mut i: usize = 0;
    while i < crate_names.len()
        invariant
            i <= crate_names@.len(),
            r@.len() == i,
            forall|j: int| 0 <= j < i ==> r@[j]@ == reexport_line_of(crate_names@[j]@),
        decreases crate_names@.len() - i,
    {
        let line = reexport_line_for(&crate_names[i]);
        r.push(line);
        i = i + 1;
    }
    proof {
        assert(r@.map_values(|v: Vec<u8>| v@) =~= reexport_lines_of(
            crate_names@.map_values(|v: Vec<u8>| v@),
        ));
    }
    r
}

} // verus!
