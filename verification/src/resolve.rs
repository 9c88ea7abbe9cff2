//! Path resolution: decide, for one request, whether to serve a file
//! directly, serve a directory index, redirect to the canonical directory
//! URL, or report that nothing matches.
//!
//! The decision is taken in strict order: a direct match wins over any
//! directory index at the same key; otherwise the index candidates are tried
//! in configuration order and the first one present in the store settles the
//! outcome; the trailing slash of the original full request path only picks
//! between serving that index and redirecting, never which candidate is used.

use vstd::prelude::*;

use crate::config::EmbedConfig;
use crate::store::{lookup, AssetStore, StoreContents};

verus! {

/// Spec-level model of a resolution outcome, over sequences.
#[verifier::ext_equal]
pub enum Outcome {
    Direct { content: Seq<u8>, name: Seq<char> },
    IndexServed { content: Seq<u8>, name: Seq<char> },
    RedirectToDirectory { location: Seq<char> },
    NotFound,
}

/// The result of resolving one request path: exactly one of a direct file
/// match, a served directory index, a redirect to the canonical directory
/// path, or not-found.
#[derive(Debug, PartialEq, Eq)]
pub enum ResolutionOutcome {
    /// An exact file match: its bytes, and the request tail as the name used
    /// for MIME inference.
    Direct { content: Vec<u8>, name: String },
    /// A directory index found while the original path carried a trailing
    /// slash (or was the bare root): its bytes, and the candidate file name
    /// used for MIME inference.
    IndexServed { content: Vec<u8>, name: String },
    /// A directory index exists but the original path lacks its trailing
    /// slash: redirect to the canonical path, the full path plus `/`.
    RedirectToDirectory { location: String },
    /// Nothing matches.
    NotFound,
}

impl View for ResolutionOutcome {
    type V = Outcome;

    open spec fn view(&self) -> Outcome {
        match self {
            ResolutionOutcome::Direct { content, name } => Outcome::Direct {
                content: content@,
                name: name@,
            },
            ResolutionOutcome::IndexServed { content, name } => Outcome::IndexServed {
                content: content@,
                name: name@,
            },
            ResolutionOutcome::RedirectToDirectory { location } => Outcome::RedirectToDirectory {
                location: location@,
            },
            ResolutionOutcome::NotFound => Outcome::NotFound,
        }
    }
}

/// Whether the original full request path ends in `/`.
pub open spec fn has_trailing_slash(full: Seq<char>) -> bool {
    full.len() > 0 && full[full.len() - 1] == '/'
}

/// The store key composed for a directory-index candidate: `tail/name`, or
/// just `name` when the tail is empty (the site root).
pub open spec fn candidate_path(tail: Seq<char>, name: Seq<char>) -> Seq<char> {
    if tail.len() == 0 {
        name
    } else {
        tail + "/"@ + name
    }
}

/// The first candidate name, in order, whose composed path is present in the
/// store; `None` when no candidate is.
pub open spec fn first_hit(store: StoreContents, tail: Seq<char>, names: Seq<Seq<char>>) -> Option<
    Seq<char>,
>
    decreases names.len(),
{
    if names.len() == 0 {
        None
    } else if lookup(store, candidate_path(tail, names[0])) is Some {
        Some(names[0])
    } else {
        first_hit(store, tail, names.drop_first())
    }
}

/// The full decision procedure, as a function of the store contents, the
/// request tail, the original full request path, and the ordered candidate
/// names: a direct match wins; otherwise the first candidate present decides
/// between serving the index (trailing slash, or empty tail) and redirecting
/// to the full path plus `/`; otherwise nothing matches.
pub open spec fn resolution(
    store: StoreContents,
    tail: Seq<char>,
    full: Seq<char>,
    names: Seq<Seq<char>>,
) -> Outcome {
    match lookup(store, tail) {
        Some(content) => Outcome::Direct { content, name: tail },
        None => match first_hit(store, tail, names) {
            Some(name) => {
                if has_trailing_slash(full) || tail.len() == 0 {
                    Outcome::IndexServed {
                        content: lookup(store, candidate_path(tail, name)).unwrap(),
                        name,
                    }
                } else {
                    Outcome::RedirectToDirectory { location: full + "/"@ }
                }
            },
            None => Outcome::NotFound,
        },
    }
}

/// Compose the store key for a directory-index candidate: `path/filename`,
/// or just `filename` when `path` is empty.
pub fn append_filename(path: &str, filename: &str) -> (r: String)
    ensures
        r@ == candidate_path(path@, filename@),
{
    if path.is_empty() {
        filename.to_owned()
    } else {
        let r = path.to_owned().concat("/").concat(filename);
        proof {
            assert(r@ =~= candidate_path(path@, filename@));
        }
        r
    }
}

/// Whether `s` ends in `/`.
fn ends_with_slash(s: &str) -> (r: bool)
    ensures
        r == has_trailing_slash(s@),
{
    let n = s.unicode_len();
    if n == 0 {
        false
    } else {
        s.get_char(n - 1) == '/'
    }
}

/// Resolve one request. `tail` is the path to look up (after any mount
/// prefix was stripped by the embedding layer); `full_path` is the original
/// full request path, read only for its trailing slash and as the base of a
/// redirect's canonical path.
pub fn resolve(tail: &str, full_path: &str, store: &AssetStore, config: &EmbedConfig) -> (r:
    ResolutionOutcome)
    ensures
        r@ == resolution(store@, tail@, full_path@, config@),
{
    if let Some(content) = store.get(tail) {
        return ResolutionOutcome::Direct { content: content.clone(), name: tail.to_owned() };
    }
    let slash = ends_with_slash(full_path);
    let n = config.directory_index.len();
    let mut i: usize = 0;
    while i < n
        invariant
            n == config.directory_index.len(),
            i <= n,
            lookup(store@, tail@) is None,
            slash == has_trailing_slash(full_path@),
            forall|j: int| 0 <= j < i ==> lookup(store@, candidate_path(tail@, config@[j])) is None,
        decreases n - i,
    {
        let name = &config.directory_index[i];
        let cand = append_filename(tail, name.as_str());
        if let Some(content) = store.get(cand.as_str()) {
            proof {
                lemma_first_hit_found(store@, tail@, config@, i as int);
            }
            if slash || tail.is_empty() {
                return ResolutionOutcome::IndexServed {
                    content: content.clone(),
                    name: name.clone(),
                };
            } else {
                let location = full_path.to_owned().concat("/");
                return ResolutionOutcome::RedirectToDirectory { location };
            }
        }
        i += 1;
    }
    proof {
        lemma_first_hit_none(store@, tail@, config@);
    }
    ResolutionOutcome::NotFound
}

/// The single-file variant: every request, whatever its path, resolves to
/// the one fixed file — `Direct` with its bytes if it is present in the
/// store, `NotFound` otherwise.
pub fn resolve_one(store: &AssetStore, filename: &str) -> (r: ResolutionOutcome)
    ensures
        r@ == (match lookup(store@, filename@) {
            Some(content) => Outcome::Direct { content, name: filename@ },
            None => Outcome::NotFound,
        }),
{
    if let Some(content) = store.get(filename) {
        ResolutionOutcome::Direct { content: content.clone(), name: filename.to_owned() }
    } else {
        ResolutionOutcome::NotFound
    }
}

/// If no candidate before index `i` composes to a present path and the one
/// at `i` does, the candidate at `i` is the first hit: earlier candidates in
/// the configured order always win over later ones.
pub proof fn lemma_first_hit_found(
    store: StoreContents,
    tail: Seq<char>,
    names: Seq<Seq<char>>,
    i: int,
)
    requires
        0 <= i < names.len(),
        forall|j: int| 0 <= j < i ==> lookup(store, candidate_path(tail, names[j])) is None,
        lookup(store, candidate_path(tail, names[i])) is Some,
    ensures
        first_hit(store, tail, names) == Some(names[i]),
    decreases i,
{
    if i > 0 {
        lemma_first_hit_found(store, tail, names.drop_first(), i - 1);
    }
}

/// If no candidate composes to a present path, there is no hit.
pub proof fn lemma_first_hit_none(store: StoreContents, tail: Seq<char>, names: Seq<Seq<char>>)
    requires
        forall|j: int| 0 <= j < names.len() ==> lookup(store, candidate_path(tail, names[j]))
            is None,
    ensures
        first_hit(store, tail, names) is None,
    decreases names.len(),
{
    if names.len() > 0 {
        lemma_first_hit_none(store, tail, names.drop_first());
    }
}

} // verus!
