//! The asset store: an immutable mapping from normalized relative path
//! strings to byte contents, queried by exact key.

use vstd::prelude::*;

verus! {

/// The spec-level contents of a store: its entries in insertion order, each
/// a path and the bytes stored under it.
pub type StoreContents = Seq<(Seq<char>, Seq<u8>)>;

/// A spec-level lookup over the store's entries: the first entry whose path
/// equals `path` wins, so earlier entries shadow later ones with the same key.
pub open spec fn lookup(entries: StoreContents, path: Seq<char>) -> Option<Seq<u8>>
    decreases entries.len(),
{
    if entries.len() == 0 {
        None
    } else if entries[0].0 == path {
        Some(entries[0].1)
    } else {
        lookup(entries.drop_first(), path)
    }
}

/// An in-memory tree of files: relative slash-separated paths (no leading
/// slash) mapped to byte contents. Built once, then only queried.
pub struct AssetStore {
    entries: Vec<(String, Vec<u8>)>,
}

impl View for AssetStore {
    type V = StoreContents;

    closed spec fn view(&self) -> StoreContents {
        self.entries@.map(|i: int, e: (String, Vec<u8>)| (e.0@, e.1@))
    }
}

impl AssetStore {
    /// An empty store.
    pub fn new() -> (s: AssetStore)
        ensures
            s@ == Seq::<(Seq<char>, Seq<u8>)>::empty(),
    {
        let s = AssetStore { entries: Vec::new() };
        proof {
            assert(s@ =~= Seq::<(Seq<char>, Seq<u8>)>::empty());
        }
        s
    }

    /// Append one file. If `path` is already present the earlier entry keeps
    /// shadowing this one, since lookups take the first match.
    pub fn add(&mut self, path: String, content: Vec<u8>)
        ensures
            final(self)@ == old(self)@.push((path@, content@)),
    {
        let ghost p = path@;
        let ghost c = content@;
        self.entries.push((path, content));
        proof {
            assert(self@ =~= old(self)@.push((p, c)));
        }
    }

    /// Exact-match query: the bytes stored under `path`, or `None` if the
    /// path is absent.
    pub fn get(&self, path: &str) -> (r: Option<&Vec<u8>>)
        ensures
            match r {
                Some(content) => lookup(self@, path@) == Some(content@),
                None => lookup(self@, path@) is None,
            },
    {
        let key: String = path.to_owned();
        let n = self.entries.len();
        let mut i: usize = 0;
        while i < n
            invariant
                n == self.entries.len(),
                i <= n,
                key@ == path@,
                forall|j: int| 0 <= j < i ==> self@[j].0 != path@,
            decreases n - i,
        {
            if self.entries[i].0 == key {
                proof {
                    lemma_lookup_found(self@, path@, i as int);
                }
                return Some(&self.entries[i].1);
            }
            i += 1;
        }
        proof {
            lemma_lookup_absent(self@, path@);
        }
        None
    }
}

/// If no entry before index `i` carries `path` and the entry at `i` does,
/// the lookup returns that entry's content.
proof fn lemma_lookup_found(entries: StoreContents, path: Seq<char>, i: int)
    requires
        0 <= i < entries.len(),
        forall|j: int| 0 <= j < i ==> entries[j].0 != path,
        entries[i].0 == path,
    ensures
        lookup(entries, path) == Some(entries[i].1),
    decreases i,
{
    if i > 0 {
        lemma_lookup_found(entries.drop_first(), path, i - 1);
    }
}

/// If no entry carries `path`, the lookup misses.
proof fn lemma_lookup_absent(entries: StoreContents, path: Seq<char>)
    requires
        forall|j: int| 0 <= j < entries.len() ==> entries[j].0 != path,
    ensures
        lookup(entries, path) is None,
    decreases entries.len(),
{
    if entries.len() > 0 {
        lemma_lookup_absent(entries.drop_first(), path);
    }
}

} // verus!
