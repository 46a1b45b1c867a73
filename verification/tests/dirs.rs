use dfiles::dirs::{dir_from_base, dir_under, get_config_dir, get_data_dir};
use dfiles::error::Error;

#[test]
fn global_layer_is_the_base_directory() {
    assert_eq!(dir_under("/home/u/.config/dfiles", None, None), "/home/u/.config/dfiles");
}

#[test]
fn application_layer_is_below_applications() {
    assert_eq!(
        dir_under("/home/u/.config/dfiles", Some("firefox"), None),
        "/home/u/.config/dfiles/applications/firefox"
    );
}

#[test]
fn profile_layer_is_below_profiles() {
    assert_eq!(
        dir_under("/home/u/.config/dfiles", Some("firefox"), Some("work")),
        "/home/u/.config/dfiles/applications/firefox/profiles/work"
    );
    assert_eq!(dir_under("/base", None, Some("work")), "/base/profiles/work");
}

#[test]
fn missing_base_is_reported() {
    assert!(matches!(
        dir_from_base(None, Some("firefox"), None),
        Err(Error::MissingDirectory)
    ));
    assert_eq!(
        dir_from_base(Some("/base"), Some("firefox"), None).unwrap(),
        "/base/applications/firefox"
    );
}

#[test]
fn host_directories_end_in_the_layer() {
    if let Ok(dir) = get_config_dir(Some("firefox"), Some("work")) {
        assert!(dir.ends_with("/applications/firefox/profiles/work"));
    }
    if let Ok(dir) = get_data_dir(Some("firefox"), None) {
        assert!(dir.ends_with("/applications/firefox"));
    }
}
