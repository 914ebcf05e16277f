use std::collections::HashMap;

use pastebin::identifier::{is_valid_identifier, validate_identifier};
use pastebin::paths::{entry_path, temp_path};
use pastebin::routes::{Endpoint, Method};
use pastebin::{
    index, rocket, OpenOutcome, PasteStore, StepOutcome, StoreError, DEFAULT_SIZE_LIMIT,
};

/// Performs the storage steps of a write against an in-memory namespace,
/// feeding the content in pieces of `piece` bytes.
fn put_in(
    store: &PasteStore,
    ns: &mut HashMap<String, Vec<u8>>,
    id: &str,
    content: &[u8],
    nonce: u64,
    piece: usize,
) -> Result<String, StoreError> {
    let mut session = store.begin_put(id, nonce)?;
    let mut temp: Vec<u8> = Vec::new();
    for chunk in content.chunks(piece) {
        temp.extend_from_slice(session.accept(chunk));
        if session.is_full() {
            break;
        }
    }
    ns.insert(session.temp_path.clone(), temp);
    let moved = ns.remove(&session.temp_path).unwrap();
    ns.insert(session.target_path.clone(), moved);
    session.finish(StepOutcome::Done).map(|loc| loc.id)
}

fn put(
    store: &PasteStore,
    ns: &mut HashMap<String, Vec<u8>>,
    id: &str,
    content: &[u8],
) -> Result<String, StoreError> {
    put_in(store, ns, id, content, 1, 4096)
}

fn get(
    store: &PasteStore,
    ns: &HashMap<String, Vec<u8>>,
    id: &str,
) -> Result<Option<Vec<u8>>, StoreError> {
    let path = store.locate(id)?;
    let outcome = match ns.get(&path) {
        Some(bytes) => OpenOutcome::Opened(bytes.clone()),
        None => OpenOutcome::Missing,
    };
    PasteStore::finish_get(outcome)
}

fn new_store() -> PasteStore {
    PasteStore::with_default_limit("/srv/upload".to_string())
}

#[test]
fn example_session() {
    let store = new_store();
    let mut ns = HashMap::new();
    assert_eq!(put(&store, &mut ns, "abc123", b"hello world"), Ok("abc123".to_string()));
    assert_eq!(get(&store, &ns, "abc123"), Ok(Some(b"hello world".to_vec())));
    assert_eq!(get(&store, &ns, "missing"), Ok(None));
    assert_eq!(put(&store, &mut ns, "abc123", b"goodbye"), Ok("abc123".to_string()));
    assert_eq!(get(&store, &ns, "abc123"), Ok(Some(b"goodbye".to_vec())));
}

#[test]
fn round_trip_various_contents() {
    let store = new_store();
    let mut ns = HashMap::new();
    let full: Vec<u8> = (0..DEFAULT_SIZE_LIMIT).map(|i| (i % 251) as u8).collect();
    let cases: Vec<Vec<u8>> = vec![Vec::new(), vec![0], vec![255, 0, 10, 13], full];
    for (k, c) in cases.iter().enumerate() {
        let id = format!("entry{}", k);
        assert!(put_in(&store, &mut ns, &id, c, k as u64, 1000).is_ok());
        assert_eq!(get(&store, &ns, &id), Ok(Some(c.clone())));
    }
}

#[test]
fn overwrite_with_shorter_content() {
    let store = new_store();
    let mut ns = HashMap::new();
    put(&store, &mut ns, "note", b"a much longer first version").unwrap();
    put(&store, &mut ns, "note", b"short").unwrap();
    assert_eq!(get(&store, &ns, "note"), Ok(Some(b"short".to_vec())));
}

#[test]
fn absent_identifier_is_not_found() {
    let store = new_store();
    let mut ns = HashMap::new();
    put(&store, &mut ns, "present", b"x").unwrap();
    assert_eq!(get(&store, &ns, "absent"), Ok(None));
    assert_eq!(get(&store, &HashMap::new(), "present"), Ok(None));
}

#[test]
fn traversal_is_rejected() {
    let store = new_store();
    let mut ns = HashMap::new();
    assert_eq!(put(&store, &mut ns, "../etc/passwd", b"x"), Err(StoreError::InvalidIdentifier));
    assert_eq!(get(&store, &ns, "../etc/passwd"), Err(StoreError::InvalidIdentifier));
    assert!(ns.is_empty());
}

#[test]
fn identifier_rules() {
    for bad in ["", ".", "..", ".hidden", ".part-1-x", "a/b", "a\\b", "/abs", "nul\0"] {
        assert!(!is_valid_identifier(bad), "{:?}", bad);
        assert_eq!(validate_identifier(bad), Err(StoreError::InvalidIdentifier));
    }
    for good in ["abc123", "a", "a.b", "with space", "x..y", "é-ü_1"] {
        assert!(is_valid_identifier(good), "{:?}", good);
        assert_eq!(validate_identifier(good), Ok(()));
    }
}

#[test]
fn oversized_content_is_truncated_to_limit() {
    let store = new_store();
    let mut ns = HashMap::new();
    let big: Vec<u8> = (0..DEFAULT_SIZE_LIMIT + 5000).map(|i| (i % 7) as u8).collect();
    put_in(&store, &mut ns, "big", &big, 3, 3000).unwrap();
    let stored = get(&store, &ns, "big").unwrap().unwrap();
    assert_eq!(stored.len(), 131072);
    assert_eq!(stored, big[..DEFAULT_SIZE_LIMIT].to_vec());
}

#[test]
fn session_keeps_prefix_within_small_limit() {
    let store = PasteStore::new("root".to_string(), 5);
    let mut s = store.begin_put("k", 0).unwrap();
    assert_eq!(s.accept(b"abc"), b"abc");
    assert!(!s.is_full());
    assert_eq!(s.accept(b"defg"), b"de");
    assert!(s.is_full());
    assert_eq!(s.accept(b"hij"), b"");
    assert_eq!(s.accepted, 5);
}

#[test]
fn concurrent_writes_to_different_identifiers() {
    let store = new_store();
    let mut ns = HashMap::new();
    let mut a = store.begin_put("alpha", 1).unwrap();
    let mut b = store.begin_put("beta", 2).unwrap();
    let mut ta = Vec::new();
    let mut tb = Vec::new();
    ta.extend_from_slice(a.accept(b"first "));
    tb.extend_from_slice(b.accept(b"other "));
    ta.extend_from_slice(a.accept(b"half"));
    tb.extend_from_slice(b.accept(b"half"));
    assert_ne!(a.temp_path, b.temp_path);
    assert_ne!(a.target_path, b.target_path);
    ns.insert(b.target_path.clone(), tb);
    ns.insert(a.target_path.clone(), ta);
    assert!(b.finish(StepOutcome::Done).is_ok());
    assert!(a.finish(StepOutcome::Done).is_ok());
    assert_eq!(get(&store, &ns, "alpha"), Ok(Some(b"first half".to_vec())));
    assert_eq!(get(&store, &ns, "beta"), Ok(Some(b"other half".to_vec())));
}

#[test]
fn paths_are_laid_out_under_root() {
    let store = new_store();
    assert_eq!(store.locate("abc123"), Ok("/srv/upload/abc123".to_string()));
    assert_eq!(entry_path("r", "x"), "r/x");
    assert_eq!(temp_path("r", "x", 0), "r/.part-0-x");
    assert_eq!(temp_path("/srv", "abc", 1234567890), "/srv/.part-1234567890-abc");
    assert_eq!(
        temp_path("/srv", "abc", u64::MAX),
        "/srv/.part-18446744073709551615-abc"
    );
    let s = store.begin_put("abc123", 42).unwrap();
    assert_eq!(s.temp_path, "/srv/upload/.part-42-abc123");
    assert_eq!(s.target_path, "/srv/upload/abc123");
    assert_ne!(temp_path("r", "x", 1), temp_path("r", "x", 2));
}

#[test]
fn storage_failures_are_reported() {
    let store = new_store();
    let s = store.begin_put("abc", 9).unwrap();
    assert!(matches!(s.finish(StepOutcome::Failed), Err(StoreError::IOFailure)));
    let r: Result<Option<Vec<u8>>, StoreError> = PasteStore::finish_get(OpenOutcome::Failed);
    assert_eq!(r, Err(StoreError::IOFailure));
    let r: Result<Option<u8>, StoreError> = PasteStore::finish_get(OpenOutcome::Missing);
    assert_eq!(r, Ok(None));
    assert_eq!(PasteStore::finish_get(OpenOutcome::Opened(7u8)), Ok(Some(7u8)));
}

#[test]
fn limits_and_constructors() {
    assert_eq!(DEFAULT_SIZE_LIMIT, 128 * 1024);
    let store = PasteStore::new("d".to_string(), 10);
    assert_eq!(store.root, "d");
    assert_eq!(store.size_limit, 10);
    assert_eq!(new_store().size_limit, 131072);
}

#[test]
fn usage_text_and_routes() {
    let text = index();
    assert!(text.contains("USAGE"));
    assert!(text.contains("POST /"));
    assert!(text.contains("GET /<id>"));
    assert!(text.contains("retrieves content for paste with id `<id>`"));
    let routes = rocket();
    assert_eq!(routes.len(), 3);
    assert_eq!((routes[0].method, routes[0].path, routes[0].endpoint), (Method::Get, "/", Endpoint::Index));
    assert_eq!((routes[1].method, routes[1].path, routes[1].endpoint), (Method::Get, "/<id>", Endpoint::Retrieve));
    assert_eq!((routes[2].method, routes[2].path, routes[2].endpoint), (Method::Post, "/<id>", Endpoint::Upload));
}
