use redirector::store::UrlStore;

#[test]
fn new_store_without_default_is_empty() {
    let store = UrlStore::new(None);
    assert_eq!(store.read(), None);
}

#[test]
fn new_store_starts_with_default() {
    let store = UrlStore::new(Some("https://example.com/default.svg".to_string()));
    assert_eq!(store.read(), Some("https://example.com/default.svg".to_string()));
}

#[test]
fn replace_is_seen_by_later_reads() {
    let mut store = UrlStore::new(None);
    store.replace("https://example.com/a.svg".to_string());
    assert_eq!(store.read(), Some("https://example.com/a.svg".to_string()));
    assert_eq!(store.read(), Some("https://example.com/a.svg".to_string()));
}

#[test]
fn replace_overwrites_whatever_was_there() {
    let mut store = UrlStore::new(Some("first".to_string()));
    store.replace("second".to_string());
    store.replace("third".to_string());
    assert_eq!(store.read(), Some("third".to_string()));
}

#[test]
fn read_is_a_copy_that_does_not_follow_later_writes() {
    let mut store = UrlStore::new(Some("before".to_string()));
    let snapshot = store.read();
    store.replace("after".to_string());
    assert_eq!(snapshot, Some("before".to_string()));
    assert_eq!(store.read(), Some("after".to_string()));
}

#[test]
fn replace_accepts_the_empty_string() {
    let mut store = UrlStore::new(Some("x".to_string()));
    store.replace(String::new());
    assert_eq!(store.read(), Some(String::new()));
}

#[test]
fn every_read_in_a_history_returns_the_latest_written_value() {
    let mut store = UrlStore::new(Some("initial".to_string()));
    let mut written: Vec<String> = Vec::new();
    let mut latest = Some("initial".to_string());
    for round in 0..20 {
        assert_eq!(store.read(), latest);
        if round % 3 != 1 {
            let url = format!("https://example.com/{}.svg", round);
            store.replace(url.clone());
            written.push(url.clone());
            latest = Some(url);
        }
        let seen = store.read();
        assert_eq!(seen, latest);
        assert!(match &seen {
            Some(url) => url == "initial" || written.contains(url),
            None => false,
        });
    }
}
