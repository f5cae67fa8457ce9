use file_opener::config::utils::{
    load_to_string, store_default, store_string, ConfigFile, ConfigIOFailure, DEFAULT_CONFIG,
};

#[test]
fn loading_an_absent_file_stores_and_gives_the_default() {
    let mut file = ConfigFile::Absent;
    assert_eq!(load_to_string(&mut file).unwrap(), DEFAULT_CONFIG);
    assert!(matches!(file, ConfigFile::Present(ref s) if s == DEFAULT_CONFIG));
}

#[test]
fn loading_a_present_file_gives_its_text() {
    let mut file = ConfigFile::Present("[[open]]\n".to_string());
    assert_eq!(load_to_string(&mut file).unwrap(), "[[open]]\n");
    assert!(matches!(file, ConfigFile::Present(ref s) if s == "[[open]]\n"));
}

#[test]
fn loading_an_unreadable_file_fails() {
    let mut file = ConfigFile::Unreadable;
    assert_eq!(load_to_string(&mut file).unwrap_err(), ConfigIOFailure::LoadFailed);
    assert!(matches!(file, ConfigFile::Unreadable));
}

#[test]
fn storing_replaces_the_text() {
    let mut file = ConfigFile::Present("old".to_string());
    store_string(&mut file, "new");
    assert!(matches!(file, ConfigFile::Present(ref s) if s == "new"));
    let mut file = ConfigFile::Absent;
    store_string(&mut file, "new");
    assert!(matches!(file, ConfigFile::Present(ref s) if s == "new"));
}

#[test]
fn store_default_puts_the_default_in_place() {
    let mut file = ConfigFile::Present("old".to_string());
    assert_eq!(store_default(&mut file), DEFAULT_CONFIG);
    assert!(matches!(file, ConfigFile::Present(ref s) if s == DEFAULT_CONFIG));
}

#[test]
fn load_then_store_leaves_the_file_as_it_was() {
    let mut file = ConfigFile::Present("# a comment\n[[open]]\n".to_string());
    let text = load_to_string(&mut file).unwrap();
    store_string(&mut file, &text);
    assert!(matches!(file, ConfigFile::Present(ref s) if s == "# a comment\n[[open]]\n"));
}

#[test]
fn default_names_all_four_lists() {
    for header in ["[[open]]", "[[open_regex]]", "[[preview]]", "[[preview_regex]]"] {
        assert!(DEFAULT_CONFIG.contains(header));
    }
}
