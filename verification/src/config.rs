//! Serving configuration: the ordered list of directory-index candidates.

use vstd::prelude::*;

verus! {

/// Embed serving configuration.
///
/// `directory_index` holds the candidate index file names tried, in order,
/// when a request names a directory rather than a file; the first candidate
/// present in the store wins.
#[derive(Debug, Clone)]
pub struct EmbedConfig {
    /// List of directory index file names, tried in order.
    pub directory_index: Vec<String>,
}

impl View for EmbedConfig {
    type V = Seq<Seq<char>>;

    open spec fn view(&self) -> Seq<Seq<char>> {
        self.directory_index@.map(|i: int, s: String| s@)
    }
}

impl Default for EmbedConfig {
    /// The default candidates: `index.html`, then `index.htm`.
    fn default() -> (c: EmbedConfig)
        ensures
            c@ == seq!["index.html"@, "index.htm"@],
    {
        let directory_index = vec![
            String::from_str("index.html"),
            String::from_str("index.htm"),
        ];
        let c = EmbedConfig { directory_index };
        proof {
            assert(c@ =~= seq!["index.html"@, "index.htm"@]);
        }
        c
    }
}

} // verus!
