use hyprland_client::cache::WindowCache;
use hyprland_client::hypr::{Address, HyprClient};

fn address(text: &str) -> Address {
    Address(text.to_string())
}

fn client(at: &str, workspace_id: i32, class: &str) -> HyprClient {
    HyprClient {
        address: address(at),
        workspace_id,
        workspace_name: format!("ws{}", workspace_id),
        class: class.to_string(),
    }
}

fn add(cache: &mut WindowCache, at: &str, workspace_id: i64, class: &str) {
    cache.insert(
        address(at),
        workspace_id,
        format!("ws{}", workspace_id),
        class.to_string(),
    );
}

fn classes(cache: &WindowCache, workspace_id: i64) -> Vec<String> {
    let mut classes = cache.get_classes_for_workspace(workspace_id);
    classes.sort();
    classes
}

#[test]
fn cache_starts_empty_where_hyprland_could_not_be_asked() {
    let mut cache = WindowCache::new(Err("no socket".to_string()));
    assert!(cache.get_classes_for_workspace(1).is_empty());
    assert!(cache.remove_entry(&address("0x1")).is_none());
}

#[test]
fn cache_starts_with_the_listed_windows() {
    let cache = WindowCache::new(Ok(vec![
        client("0x1", 1, "kitty"),
        client("0x2", 2, "firefox"),
        client("0x3", 1, "kitty"),
    ]));
    assert_eq!(classes(&cache, 1), vec!["kitty", "kitty"]);
    assert_eq!(classes(&cache, 2), vec!["firefox"]);
    assert!(classes(&cache, 3).is_empty());
}

#[test]
fn last_window_listed_at_an_address_counts() {
    let mut cache = WindowCache::new(Ok(vec![client("0x1", 1, "kitty"), client("0x1", -99, "foot")]));
    assert!(classes(&cache, 1).is_empty());
    assert_eq!(classes(&cache, -99), vec!["foot"]);
    let (at, record) = cache.remove_entry(&address("0x1")).unwrap();
    assert!(at == address("0x1"));
    assert_eq!(record.workspace_id, -99);
    assert_eq!(record.workspace_name, "ws-99");
    assert_eq!(record.class, "foot");
}

#[test]
fn insert_replaces_what_was_known() {
    let mut cache = WindowCache::new(Ok(vec![]));
    add(&mut cache, "0x1", 1, "kitty");
    add(&mut cache, "0x2", 1, "foot");
    add(&mut cache, "0x1", 2, "kitty");
    assert_eq!(classes(&cache, 1), vec!["foot"]);
    assert_eq!(classes(&cache, 2), vec!["kitty"]);
}

#[test]
fn remove_undoes_insert() {
    let mut cache = WindowCache::new(Ok(vec![client("0x1", 1, "kitty")]));
    add(&mut cache, "0x2", 1, "foot");
    assert_eq!(classes(&cache, 1), vec!["foot", "kitty"]);
    let (at, record) = cache.remove_entry(&address("0x2")).unwrap();
    assert_eq!(at.0, "0x2");
    assert_eq!(record.class, "foot");
    assert_eq!(classes(&cache, 1), vec!["kitty"]);
    assert!(cache.remove_entry(&address("0x2")).is_none());
}

#[test]
fn update_class_tells_news_once() {
    let mut cache = WindowCache::new(Ok(vec![client("0x1", 1, ""), client("0x2", 1, "foot")]));
    let (id, name, mut listed) = cache
        .update_class(&address("0x1"), "kitty".to_string())
        .unwrap();
    listed.sort();
    assert_eq!(id, 1);
    assert_eq!(name, "ws1");
    assert_eq!(listed, vec!["foot", "kitty"]);
    assert!(cache
        .update_class(&address("0x1"), "kitty".to_string())
        .is_none());
    assert!(cache
        .update_class(&address("0x9"), "kitty".to_string())
        .is_none());
    assert_eq!(classes(&cache, 1), vec!["foot", "kitty"]);
}

#[test]
fn other_workspaces_keep_their_classes() {
    let mut cache = WindowCache::new(Ok(vec![client("0x1", 1, "kitty"), client("0x2", 2, "foot")]));
    add(&mut cache, "0x3", 3, "mpv");
    cache.remove_entry(&address("0x2"));
    assert_eq!(classes(&cache, 1), vec!["kitty"]);
}
