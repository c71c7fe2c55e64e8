use obs_hotkeys::path::{default_config_path, expand_config_path};

#[test]
fn default_path() {
    assert_eq!(default_config_path(), "~/.config/obs_hotkeys/config.yaml");
}

#[test]
fn path_without_tilde_is_unchanged() {
    assert_eq!(expand_config_path("/etc/obs/config.yaml"), "/etc/obs/config.yaml");
    assert_eq!(expand_config_path("config.yaml"), "config.yaml");
    assert_eq!(expand_config_path(""), "");
    assert_eq!(expand_config_path("a/~/b"), "a/~/b");
}

#[test]
fn tilde_of_another_user_is_unchanged() {
    assert_eq!(expand_config_path("~other/config.yaml"), "~other/config.yaml");
}

#[test]
fn leading_tilde_keeps_the_rest() {
    let out = expand_config_path("~/.config/obs_hotkeys/config.yaml");
    assert!(out.ends_with("/.config/obs_hotkeys/config.yaml"));
    assert!(out == "~/.config/obs_hotkeys/config.yaml" || !out.starts_with('~'));
}

#[test]
fn leading_tilde_is_replaced_where_home_is_known() {
    let home = expand_config_path("~");
    let out = expand_config_path("~/x");
    assert_eq!(out, format!("{}/x", home));
    assert_ne!(out, "~/x");
}
