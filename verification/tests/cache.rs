use serial_bevy::CacheData;

#[test]
fn test_cache_data_history() {
    let mut cache = CacheData::new();
    cache.add_history_data(String::from("command1"));
    cache.add_history_data(String::from("command2"));

    assert_eq!(cache.get_current_data_index(), 2);

    cache.sub_history_index();
    let cmd = cache.get_history_data(cache.get_current_data_index());
    assert_eq!(cmd, "command1");
}

#[test]
fn test_cache_data_no_duplicate() {
    let mut cache = CacheData::new();
    cache.add_history_data(String::from("command1"));
    cache.add_history_data(String::from("command1"));

    assert_eq!(cache.history_len(), 1);
}

#[test]
fn test_cache_index_saturates() {
    let mut cache = CacheData::new();
    cache.add_history_data(String::from("a"));
    cache.add_history_data(String::from("b"));
    assert_eq!(cache.add_history_index(), 2);
    assert_eq!(cache.sub_history_index(), 1);
    assert_eq!(cache.sub_history_index(), 1);
}

#[test]
fn test_cache_empty_history_lookup() {
    let mut cache = CacheData::new();
    assert_eq!(cache.get_history_data(3), "");
    assert_eq!(cache.get_current_data_index(), 0);
}

#[test]
fn test_cache_current_data() {
    let mut cache = CacheData::new();
    *cache.get_current_data() = String::from("typing");
    assert_eq!(cache.get_current_data().as_str(), "typing");
    cache.clear_current_data();
    assert_eq!(cache.get_current_data().as_str(), "");
}
