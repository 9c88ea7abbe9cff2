//! The laws of path resolution, each proved once and for all over the
//! spec-level decision procedure `resolution`, which `resolve`'s contract
//! pins its result to.

use vstd::prelude::*;

use crate::resolve::{
    candidate_path, first_hit, has_trailing_slash, lemma_first_hit_found, lemma_first_hit_none,
    resolution, Outcome,
};
use crate::store::{lookup, StoreContents};

verus! {

/// A path present verbatim in the store always resolves to `Direct`, with
/// exactly the stored bytes and the path itself as the name used for MIME
/// inference.
pub proof fn lemma_direct_match(
    store: StoreContents,
    tail: Seq<char>,
    full: Seq<char>,
    names: Seq<Seq<char>>,
)
    requires
        lookup(store, tail) is Some,
    ensures
        resolution(store, tail, full, names) == (Outcome::Direct {
            content: lookup(store, tail).unwrap(),
            name: tail,
        }),
{
}

/// A path absent from the store, with no directory-index candidate
/// reachable under it, always resolves to `NotFound`.
pub proof fn lemma_absent_not_found(
    store: StoreContents,
    tail: Seq<char>,
    full: Seq<char>,
    names: Seq<Seq<char>>,
)
    requires
        lookup(store, tail) is None,
        forall|j: int| 0 <= j < names.len() ==> lookup(store, candidate_path(tail, names[j]))
            is None,
    ensures
        resolution(store, tail, full, names) == Outcome::NotFound,
{
    lemma_first_hit_none(store, tail, names);
}

/// A file always shadows a directory of index candidates at the same key:
/// when the path itself is present, the outcome is `Direct` even though an
/// index candidate under it is present too — never `IndexServed`, never a
/// redirect.
pub proof fn lemma_direct_shadows_index(
    store: StoreContents,
    tail: Seq<char>,
    full: Seq<char>,
    names: Seq<Seq<char>>,
    name: Seq<char>,
)
    requires
        lookup(store, tail) is Some,
        names.contains(name),
        lookup(store, candidate_path(tail, name)) is Some,
    ensures
        resolution(store, tail, full, names) is Direct,
{
}

/// The trailing-slash invariant: when the path itself is absent but the
/// first present index candidate is `names[i]`, the original path's
/// trailing slash (or an empty tail, the root) picks serving that index,
/// and its absence picks a redirect to the full path plus `/` — index
/// existence decides *that* the directory is servable, the slash only
/// decides serve-versus-redirect.
pub proof fn lemma_trailing_slash_decides(
    store: StoreContents,
    tail: Seq<char>,
    full: Seq<char>,
    names: Seq<Seq<char>>,
    i: int,
)
    requires
        lookup(store, tail) is None,
        0 <= i < names.len(),
        forall|j: int| 0 <= j < i ==> lookup(store, candidate_path(tail, names[j])) is None,
        lookup(store, candidate_path(tail, names[i])) is Some,
    ensures
        (has_trailing_slash(full) || tail.len() == 0) ==> resolution(store, tail, full, names)
            == (Outcome::IndexServed {
            content: lookup(store, candidate_path(tail, names[i])).unwrap(),
            name: names[i],
        }),
        !(has_trailing_slash(full) || tail.len() == 0) ==> resolution(store, tail, full, names)
            == (Outcome::RedirectToDirectory { location: full + "/"@ }),
{
    lemma_first_hit_found(store, tail, names, i);
}

/// The root never redirects: with an empty request tail there is nothing to
/// append a slash to, so the outcome is `Direct`, `IndexServed` or
/// `NotFound`, never `RedirectToDirectory`.
pub proof fn lemma_root_never_redirects(
    store: StoreContents,
    tail: Seq<char>,
    full: Seq<char>,
    names: Seq<Seq<char>>,
)
    requires
        tail.len() == 0,
    ensures
        !(resolution(store, tail, full, names) is RedirectToDirectory),
{
}

/// Candidate ordering: the first candidate present in the store wins, in
/// configuration order — whatever is served or redirected to never comes
/// from a later candidate, even if that one is present as well.
pub proof fn lemma_candidate_ordering(
    store: StoreContents,
    tail: Seq<char>,
    names: Seq<Seq<char>>,
    i: int,
)
    requires
        0 <= i < names.len(),
        forall|j: int| 0 <= j < i ==> lookup(store, candidate_path(tail, names[j])) is None,
        lookup(store, candidate_path(tail, names[i])) is Some,
    ensures
        first_hit(store, tail, names) == Some(names[i]),
{
    lemma_first_hit_found(store, tail, names, i);
}

} // verus!
