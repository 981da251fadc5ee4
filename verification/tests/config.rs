use voice_keyboard::config::Config;

#[test]
fn default_config_has_no_key_and_default_hotkey() {
    let c = Config::default();
    assert_eq!(c.api_key, "");
    assert_eq!(c.hotkey_code, "F13");
    assert!(c.api_key.is_empty());
}
