use dayrecord::secret::{choose_api_key, load_api_key, MapSecretStore, DEEPSEEK_API_KEY_NAME, LLM_API_KEY_NAME};

#[test]
fn map_store_roundtrip() {
    let mut store = MapSecretStore::new();
    store.set("deepseek_api_key", "sk-test").unwrap();
    assert_eq!(store.get("deepseek_api_key").unwrap(), Some("sk-test".into()));
}

#[test]
fn map_store_overwrites_and_misses() {
    let mut store = MapSecretStore::new();
    assert_eq!(store.get("k").unwrap(), None);
    store.set("k", "one").unwrap();
    store.set("other", "two").unwrap();
    store.set("k", "three").unwrap();
    assert_eq!(store.get("k").unwrap(), Some("three".into()));
    assert_eq!(store.get("other").unwrap(), Some("two".into()));
    assert_eq!(store.get("absent").unwrap(), None);
}

#[test]
fn api_key_prefers_deepseek_entry() {
    let mut store = MapSecretStore::new();
    store.set(LLM_API_KEY_NAME, "generic").unwrap();
    assert_eq!(load_api_key(&store), Some("generic".to_string()));
    store.set(DEEPSEEK_API_KEY_NAME, "ds").unwrap();
    assert_eq!(load_api_key(&store), Some("ds".to_string()));
}

#[test]
fn api_key_empty_counts_as_absent() {
    assert_eq!(choose_api_key(Some(String::new()), Some("x".into())), None);
    assert_eq!(choose_api_key(None, Some(String::new())), None);
    assert_eq!(choose_api_key(None, Some("x".into())), Some("x".to_string()));
    assert_eq!(choose_api_key(None, None), None);
    assert_eq!(load_api_key(&MapSecretStore::new()), None);
}
