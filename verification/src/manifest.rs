//! Structured manifest documents, modelled as the parts this tool touches
//! plus the rest of the document kept verbatim.
//!
//! The workspace manifest holds an ordered member-path list; a run appends
//! one path per new crate and never removes or reorders entries. A crate's
//! dependency manifest holds an ordered name-to-specifier list; a run inserts
//! one entry per new crate, overwriting an entry in place when the name
//! collides. Both mutations leave the unrelated content untouched.

use vstd::prelude::*;
use vstd::string::StrSliceExecFns;
use vstd::string::StringSliceAdditionalSpecFns;
use crate::names::append_bytes;

verus! {

/// The directory under which imported crates live, as a path prefix of every
/// workspace member entry.
pub open spec fn pac_dir() -> Seq<u8> {
    ("project-pac").spec_bytes()
}

/// The byte `'/'`.
pub const SLASH: u8 = 47;

/// The workspace member path recorded for one crate name.
pub open spec fn member_path_of(crate_name: Seq<u8>) -> Seq<u8> {
    pac_dir() + seq![SLASH] + crate_name
}

/// Build the workspace member path for one crate name.
pub fn member_path_for(crate_name: &Vec<u8>) -> (r: Vec<u8>)
    ensures
        r@ == member_path_of(crate_name@),
{
    let mut r = ("project-pac").as_bytes_vec();
    r.push(SLASH);
    append_bytes(&mut r, crate_name);
    proof {
        assert(pac_dir().push(SLASH) =~= pac_dir() + seq![SLASH]);
    }
    r
}

/// The member paths for a list of crate names, in order.
pub open spec fn member_paths_of(crate_names: Seq<Seq<u8>>) -> Seq<Seq<u8>> {
    crate_names.map_values(|n: Seq<u8>| member_path_of(n))
}

/// A workspace manifest: its ordered member-path list, and every other part
/// of the document, preserved verbatim.
pub struct WorkspaceManifest {
    /// The document apart from the member list, kept unchanged.
    pub rest: Vec<u8>,
    /// The ordered member paths.
    pub members: Vec<Vec<u8>>,
}

impl WorkspaceManifest {
    /// The member list as a sequence of byte strings.
    pub open spec fn members_view(&self) -> Seq<Seq<u8>> {
        self.members@.map_values(|v: Vec<u8>| v@)
    }

    /// Append one member path per crate name, in the given order, leaving
    /// the rest of the document and the existing members unchanged.
    pub fn add_members(&mut self, crate_names: &Vec<Vec<u8>>)
        ensures
            final(self).rest@ == old(self).rest@,
            final(self).members_view() == old(self).members_view() + member_paths_of(
                crate_names@.map_values(|v: Vec<u8>| v@),
            ),
    {
        let ghost n0: int = self.members@.len() as int;
        let mut i: usize = 0;
        while i < crate_names.len()
            invariant
                i <= crate_names@.len(),
                self.rest@ == old(self).rest@,
                self.members@.len() == n0 + i,
                n0 == old(self).members@.len(),
                forall|j: int| 0 <= j < n0 ==> self.members@[j]@ == old(self).members@[j]@,
                forall|j: int|
                    0 <= j < i ==> self.members@[n0 + j]@ == member_path_of(
                        #[trigger] crate_names@[j]@,
                    ),
            decreases crate_names@.len() - i,
        {
            let path = member_path_for(&crate_names[i]);
            self.members.push(path);
            i = i + 1;
        }
        proof {
            let names = crate_names@.map_values(|v: Vec<u8>| v@);
            assert(self.members_view() =~= old(self).members_view() + member_paths_of(names));
        }
    }
}

/// Appending the same distinct crate names in two separate runs is
/// order-preserving and duplicate-tolerant: the member list afterwards is
/// the original list unchanged, then one path per name in order, then the
/// same paths once more — both runs' entries are present, none deduplicated.
pub proof fn law_member_append_two_runs(members: Seq<Seq<u8>>, names: Seq<Seq<u8>>)
    ensures
        (members + member_paths_of(names) + member_paths_of(names)).len() == members.len() + 2
            * names.len(),
        forall|k: int|
            0 <= k < members.len() ==> (members + member_paths_of(names) + member_paths_of(
                names,
            ))[k] == members[k],
        forall|k: int|
            0 <= k < names.len() ==> (members + member_paths_of(names) + member_paths_of(
                names,
            ))[members.len() + k] == member_path_of(#[trigger] names[k]),
        forall|k: int|
            0 <= k < names.len() ==> (members + member_paths_of(names) + member_paths_of(
                names,
            ))[members.len() + names.len() + k] == member_path_of(#[trigger] names[k]),
{
}

/// A dependency list with `(k, v)` inserted: an entry whose name is `k` is
/// overwritten in place (the first one, if several), otherwise `(k, v)` is
/// appended.
pub open spec fn upserted(
    deps: Seq<(Seq<u8>, Seq<u8>)>,
    k: Seq<u8>,
    v: Seq<u8>,
) -> Seq<(Seq<u8>, Seq<u8>)>
    decreases deps.len(),
{
    if deps.len() == 0 {
        seq![(k, v)]
    } else if deps[0].0 == k {
        seq![(k, v)] + deps.subrange(1, deps.len() as int)
    } else {
        seq![deps[0]] + upserted(deps.subrange(1, deps.len() as int), k, v)
    }
}

/// When `i` is the first index whose name is `k`, the insertion is an
/// in-place overwrite at `i`.
proof fn lemma_upserted_found(deps: Seq<(Seq<u8>, Seq<u8>)>, k: Seq<u8>, v: Seq<u8>, i: int)
    requires
        0 <= i < deps.len(),
        deps[i].0 == k,
        forall|j: int| 0 <= j < i ==> deps[j].0 != k,
    ensures
        upserted(deps, k, v) == deps.update(i, (k, v)),
    decreases i,
{
    if i == 0 {
        assert(upserted(deps, k, v) =~= deps.update(0, (k, v)));
    } else {
        let t = deps.subrange(1, deps.len() as int);
        lemma_upserted_found(t, k, v, i - 1);
        assert(seq![deps[0]] + t.update(i - 1, (k, v)) =~= deps.update(i, (k, v)));
    }
}

/// When no entry's name is `k`, the insertion is an append.
proof fn lemma_upserted_missing(deps: Seq<(Seq<u8>, Seq<u8>)>, k: Seq<u8>, v: Seq<u8>)
    requires
        forall|j: int| 0 <= j < deps.len() ==> deps[j].0 != k,
    ensures
        upserted(deps, k, v) == deps.push((k, v)),
    decreases deps.len(),
{
    if deps.len() == 0 {
        assert(upserted(deps, k, v) =~= deps.push((k, v)));
    } else {
        let t = deps.subrange(1, deps.len() as int);
        lemma_upserted_missing(t, k, v);
        assert(seq![deps[0]] + t.push((k, v)) =~= deps.push((k, v)));
    }
}

/// A dependency list after inserting, in order, one entry per crate name,
/// each entry's name and specifier both equal to the crate name.
pub open spec fn with_deps(
    deps: Seq<(Seq<u8>, Seq<u8>)>,
    crate_names: Seq<Seq<u8>>,
) -> Seq<(Seq<u8>, Seq<u8>)>
    decreases crate_names.len(),
{
    if crate_names.len() == 0 {
        deps
    } else {
        with_deps(
            upserted(deps, crate_names[0], crate_names[0]),
            crate_names.subrange(1, crate_names.len() as int),
        )
    }
}

/// Inserting one more name after a run of insertions inserts it into the
/// run's result.
proof fn lemma_with_deps_snoc(
    deps: Seq<(Seq<u8>, Seq<u8>)>,
    crate_names: Seq<Seq<u8>>,
    n: Seq<u8>,
)
    ensures
        with_deps(deps, crate_names.push(n)) == upserted(with_deps(deps, crate_names), n, n),
    decreases crate_names.len(),
{
    if crate_names.len() == 0 {
        assert(crate_names.push(n)[0] == n);
        let e = crate_names.push(n).subrange(1, 1);
        assert(e =~= Seq::<Seq<u8>>::empty());
        assert(with_deps(deps, crate_names.push(n)) == with_deps(upserted(deps, n, n), e));
        assert(with_deps(upserted(deps, n, n), e) == upserted(deps, n, n));
        assert(with_deps(deps, crate_names) == deps);
    } else {
        assert(crate_names.push(n)[0] == crate_names[0]);
        assert(crate_names.push(n).subrange(1, crate_names.len() as int + 1) =~= crate_names.subrange(
            1,
            crate_names.len() as int,
        ).push(n));
        lemma_with_deps_snoc(
            upserted(deps, crate_names[0], crate_names[0]),
            crate_names.subrange(1, crate_names.len() as int),
            n,
        );
    }
}

/// A crate's dependency manifest: its ordered list of dependency entries
/// (name, specifier), and every other part of the document, preserved
/// verbatim.
pub struct DepManifest {
    /// The document apart from the dependency list, kept unchanged.
    pub rest: Vec<u8>,
    /// The ordered dependency entries, name then specifier.
    pub deps: Vec<(Vec<u8>, Vec<u8>)>,
}

impl DepManifest {
    /// The dependency list as a sequence of (name, specifier) pairs.
    pub open spec fn deps_view(&self) -> Seq<(Seq<u8>, Seq<u8>)> {
        self.deps@.map_values(|p: (Vec<u8>, Vec<u8>)| (p.0@, p.1@))
    }

    /// Insert one dependency entry whose name and specifier both equal the
    /// crate name, overwriting an existing entry with that name in place.
    pub fn add_dependency(&mut self, crate_name: &Vec<u8>)
        ensures
            final(self).rest@ == old(self).rest@,
            final(self).deps_view() == upserted(old(self).deps_view(), crate_name@, crate_name@),
    {
        let mut i: usize = 0;
        while i < self.deps.len()
            invariant
                i <= self.deps@.len(),
                self == old(self),
                forall|j: int| 0 <= j < i ==> #[trigger] self.deps_view()[j].0 != crate_name@,
            decreases self.deps@.len() - i,
        {
            if bytes_eq(&self.deps[i].0, crate_name) {
                let entry = (clone_bytes(crate_name), clone_bytes(crate_name));
                self.deps.set(i, entry);
                proof {
                    lemma_upserted_found(
                        old(self).deps_view(),
                        crate_name@,
                        crate_name@,
                        i as int,
                    );
                    assert(self.deps_view() =~= old(self).deps_view().update(
                        i as int,
                        (crate_name@, crate_name@),
                    ));
                }
                return;
            }
            i = i + 1;
        }
        let entry = (clone_bytes(crate_name), clone_bytes(crate_name));
        self.deps.push(entry);
        proof {
            lemma_upserted_missing(old(self).deps_view(), crate_name@, crate_name@);
            assert(self.deps_view() =~= old(self).deps_view().push((crate_name@, crate_name@)));
        }
    }

    /// Insert one dependency entry per crate name, in the given order.
    pub fn add_dependencies(&mut self, crate_names: &Vec<Vec<u8>>)
        ensures
            final(self).rest@ == old(self).rest@,
            final(self).deps_view() == with_deps(
                old(self).deps_view(),
                crate_names@.map_values(|v: Vec<u8>| v@),
            ),
    {
        let mut i: usize = 0;
        while i < crate_names.len()
            invariant
                i <= crate_names@.len(),
                self.rest@ == old(self).rest@,
                self.deps_view() == with_deps(
                    old(self).deps_view(),
                    crate_names@.map_values(|v: Vec<u8>| v@).subrange(0, i as int),
                ),
            decreases crate_names@.len() - i,
        {
            let ghost names = crate_names@.map_values(|v: Vec<u8>| v@);
            self.add_dependency(&crate_names[i]);
            proof {
                lemma_with_deps_snoc(
                    old(self).deps_view(),
                    names.subrange(0, i as int),
                    names[i as int],
                );
                assert(names.subrange(0, i as int).push(names[i as int]) =~= names.subrange(
                    0,
                    i + 1,
                ));
            }
            i = i + 1;
        }
        proof {
            let names = crate_names@.map_values(|v: Vec<u8>| v@);
            assert(names.subrange(0, names.len() as int) =~= names);
        }
    }
}

/// Whether two byte strings hold the same bytes.
pub fn bytes_eq(a: &Vec<u8>, b: &Vec<u8>) -> (r: bool)
    ensures
        r == (a@ == b@),
{
    if a.len() != b.len() {
        return false;
    }
    let mut i: usize = 0;
    while i < a.len()
        invariant
            i <= a@.len(),
            a@.len() == b@.len(),
            forall|j: int| 0 <= j < i ==> a@[j] == b@[j],
        decreases a@.len() - i,
    {
        if a[i] != b[i] {
            return false;
        }
        i = i + 1;
    }
    proof {
        assert(a@ =~= b@);
    }
    true
}

/// Copy a byte string.
pub fn clone_bytes(a: &Vec<u8>) -> (r: Vec<u8>)
    ensures
        r@ == a@,
{
    let mut r: Vec<u8> = Vec::new();
    append_bytes(&mut r, a);
    proof {
        assert(Seq::<u8>::empty() + a@ =~= a@);
    }
    r
}

} // verus!
