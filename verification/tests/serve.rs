//! End-to-end checks of path resolution and response building over a small
//! in-memory store.

use warp_embed::{render, resolve, resolve_one, AssetStore, EmbedConfig, ResolutionOutcome};

/// The store shared by most tests: `foo.txt` = `foo`, `bar/index.htm` =
/// `hoge`, `index.html` = `<root>`.
fn sample_store() -> AssetStore {
    let mut store = AssetStore::new();
    store.add("foo.txt".to_string(), b"foo".to_vec());
    store.add("bar/index.htm".to_string(), b"hoge".to_vec());
    store.add("index.html".to_string(), b"<root>".to_vec());
    store
}

fn header<'a>(r: &'a warp_embed::RenderedResponse, name: &str) -> Option<&'a str> {
    for (k, v) in r.headers.iter() {
        if k == name {
            return Some(v.as_str());
        }
    }
    None
}

#[test]
fn direct_file_served_with_mime() {
    let store = sample_store();
    let config = EmbedConfig::default();
    let outcome = resolve("foo.txt", "/foo.txt", &store, &config);
    assert_eq!(
        outcome,
        ResolutionOutcome::Direct { content: b"foo".to_vec(), name: "foo.txt".to_string() }
    );
    let r = render(outcome);
    assert_eq!(r.status, 200);
    assert_eq!(header(&r, "Content-Type"), Some("text/plain"));
    assert_eq!(r.body, b"foo".to_vec());
}

#[test]
fn nested_direct_file_served() {
    let mut store = sample_store();
    store.add("bar/hoge.txt".to_string(), b"hoge".to_vec());
    let config = EmbedConfig::default();
    let r = render(resolve("bar/hoge.txt", "/bar/hoge.txt", &store, &config));
    assert_eq!(r.status, 200);
    assert_eq!(header(&r, "Content-Type"), Some("text/plain"));
    assert_eq!(r.body, b"hoge".to_vec());
}

#[test]
fn absent_path_not_found() {
    let store = sample_store();
    let config = EmbedConfig::default();
    let outcome = resolve("nope.txt", "/nope.txt", &store, &config);
    assert_eq!(outcome, ResolutionOutcome::NotFound);
    let r = render(outcome);
    assert_eq!(r.status, 404);
    assert!(r.body.is_empty());
    assert!(r.headers.is_empty());
}

#[test]
fn directory_index_served_with_trailing_slash() {
    let store = sample_store();
    let config = EmbedConfig::default();
    let outcome = resolve("bar", "/bar/", &store, &config);
    assert_eq!(
        outcome,
        ResolutionOutcome::IndexServed {
            content: b"hoge".to_vec(),
            name: "index.htm".to_string()
        }
    );
    let r = render(outcome);
    assert_eq!(r.status, 200);
    assert_eq!(header(&r, "Content-Type"), Some("text/html"));
    assert_eq!(r.body, b"hoge".to_vec());
}

#[test]
fn directory_without_trailing_slash_redirects() {
    let store = sample_store();
    let config = EmbedConfig::default();
    let outcome = resolve("bar", "/bar", &store, &config);
    assert_eq!(
        outcome,
        ResolutionOutcome::RedirectToDirectory { location: "/bar/".to_string() }
    );
    let r = render(outcome);
    assert_eq!(r.status, 301);
    assert_eq!(header(&r, "Location"), Some("/bar/"));
    assert!(r.body.is_empty());
}

#[test]
fn root_serves_index() {
    let store = sample_store();
    let config = EmbedConfig::default();
    let outcome = resolve("", "/", &store, &config);
    assert_eq!(
        outcome,
        ResolutionOutcome::IndexServed {
            content: b"<root>".to_vec(),
            name: "index.html".to_string()
        }
    );
    let r = render(outcome);
    assert_eq!(r.status, 200);
    assert_eq!(header(&r, "Content-Type"), Some("text/html"));
    assert_eq!(r.body, b"<root>".to_vec());
}

#[test]
fn empty_tail_never_redirects() {
    // The bare root is trailing-slash-equivalent: even when the full path
    // does not end in a slash, an empty tail serves the index rather than
    // redirecting, since there is nothing to canonicalize.
    let store = sample_store();
    let config = EmbedConfig::default();
    let outcome = resolve("", "", &store, &config);
    assert_eq!(
        outcome,
        ResolutionOutcome::IndexServed {
            content: b"<root>".to_vec(),
            name: "index.html".to_string()
        }
    );
}

#[test]
fn single_file_mode_serves_fixed_file() {
    let store = sample_store();
    let outcome = resolve_one(&store, "index.html");
    assert_eq!(
        outcome,
        ResolutionOutcome::Direct {
            content: b"<root>".to_vec(),
            name: "index.html".to_string()
        }
    );
    let r = render(outcome);
    assert_eq!(r.status, 200);
    assert_eq!(r.body, b"<root>".to_vec());
    assert_eq!(header(&r, "Content-Type"), Some("text/html"));
}

#[test]
fn single_file_mode_missing_file_not_found() {
    let store = sample_store();
    let outcome = resolve_one(&store, "missing.html");
    assert_eq!(outcome, ResolutionOutcome::NotFound);
    assert_eq!(render(outcome).status, 404);
}

#[test]
fn direct_match_shadows_directory_index() {
    // Both `p` and `p/index.html` exist: the direct file wins.
    let mut store = AssetStore::new();
    store.add("p".to_string(), b"file".to_vec());
    store.add("p/index.html".to_string(), b"index".to_vec());
    let config = EmbedConfig::default();
    let outcome = resolve("p", "/p/", &store, &config);
    assert_eq!(
        outcome,
        ResolutionOutcome::Direct { content: b"file".to_vec(), name: "p".to_string() }
    );
}

#[test]
fn first_present_candidate_wins() {
    // Both index.html and index.htm exist: index.html is configured first
    // and wins.
    let mut store = AssetStore::new();
    store.add("d/index.htm".to_string(), b"htm".to_vec());
    store.add("d/index.html".to_string(), b"html".to_vec());
    let config = EmbedConfig::default();
    let outcome = resolve("d", "/d/", &store, &config);
    assert_eq!(
        outcome,
        ResolutionOutcome::IndexServed {
            content: b"html".to_vec(),
            name: "index.html".to_string()
        }
    );
}

#[test]
fn later_candidate_used_when_first_absent() {
    // Only index.htm exists: it is served, and it decides the redirect too.
    let store = sample_store();
    let config = EmbedConfig::default();
    let served = resolve("bar", "/bar/", &store, &config);
    assert_eq!(
        served,
        ResolutionOutcome::IndexServed {
            content: b"hoge".to_vec(),
            name: "index.htm".to_string()
        }
    );
    let redirected = resolve("bar", "/bar", &store, &config);
    assert_eq!(
        redirected,
        ResolutionOutcome::RedirectToDirectory { location: "/bar/".to_string() }
    );
}

#[test]
fn rendering_is_idempotent() {
    let store = sample_store();
    let config = EmbedConfig::default();
    let r1 = render(resolve("foo.txt", "/foo.txt", &store, &config));
    let r2 = render(resolve("foo.txt", "/foo.txt", &store, &config));
    assert_eq!(r1, r2);
    let r3 = render(resolve("bar", "/bar", &store, &config));
    let r4 = render(resolve("bar", "/bar", &store, &config));
    assert_eq!(r3, r4);
    let r5 = render(ResolutionOutcome::NotFound);
    let r6 = render(ResolutionOutcome::NotFound);
    assert_eq!(r5, r6);
}

#[test]
fn unknown_extension_falls_back_to_octet_stream() {
    let mut store = AssetStore::new();
    store.add("blob.zzz".to_string(), vec![0u8, 1, 2]);
    let config = EmbedConfig::default();
    let r = render(resolve("blob.zzz", "/blob.zzz", &store, &config));
    assert_eq!(r.status, 200);
    assert_eq!(header(&r, "Content-Type"), Some("application/octet-stream"));
    assert_eq!(r.body, vec![0u8, 1, 2]);
}

#[test]
fn store_first_entry_wins_on_equal_keys() {
    let mut store = AssetStore::new();
    store.add("a".to_string(), b"first".to_vec());
    store.add("a".to_string(), b"second".to_vec());
    assert_eq!(store.get("a"), Some(&b"first".to_vec()));
}

#[test]
fn store_exact_match_only() {
    let store = sample_store();
    assert_eq!(store.get("foo.txt"), Some(&b"foo".to_vec()));
    assert_eq!(store.get("foo"), None);
    assert_eq!(store.get("bar"), None);
    assert_eq!(store.get("bar/index.htm"), Some(&b"hoge".to_vec()));
    assert_eq!(AssetStore::new().get(""), None);
}

#[test]
fn append_filename_composes_candidate_paths() {
    assert_eq!(warp_embed::resolve::append_filename("", "index.html"), "index.html");
    assert_eq!(warp_embed::resolve::append_filename("bar", "index.htm"), "bar/index.htm");
    assert_eq!(warp_embed::resolve::append_filename("a/b", "c.html"), "a/b/c.html");
}

#[test]
fn default_config_candidates() {
    let config = EmbedConfig::default();
    assert_eq!(config.directory_index, vec!["index.html".to_string(), "index.htm".to_string()]);
}

#[test]
fn empty_candidate_list_never_serves_an_index() {
    let store = sample_store();
    let config = EmbedConfig { directory_index: Vec::new() };
    assert_eq!(resolve("bar", "/bar/", &store, &config), ResolutionOutcome::NotFound);
    let direct = resolve("foo.txt", "/foo.txt", &store, &config);
    assert_eq!(
        direct,
        ResolutionOutcome::Direct { content: b"foo".to_vec(), name: "foo.txt".to_string() }
    );
}
