use clipsync::models::AppSettings;
use clipsync::settings::effective_device_name;
use clipsync::state::AppState;
use clipsync::status::apply_saved_settings;

#[test]
fn default_settings() {
    let s = AppSettings::default();
    assert_eq!(s.max_image_size_kb, 2048);
    assert_eq!(s.pairing_code, "");
    assert_eq!(s.trusted_peers.len(), 0);
    assert_eq!(s.device_name_override, "");
    assert!(s.background_mode_enabled);
    assert!(!s.windows_start_on_login);
    assert!(!s.dev_mode_enabled);
}

#[test]
fn device_name_from_host_or_override() {
    let mut s = AppSettings::default();
    assert_eq!(effective_device_name(&s, "box"), "clipsync-box");
    s.device_name_override = "   ".to_string();
    assert_eq!(effective_device_name(&s, "box"), "clipsync-box");
    s.device_name_override = "  Desk PC \n".to_string();
    assert_eq!(effective_device_name(&s, "box"), "Desk PC");
}

#[test]
fn saving_settings_keeps_trusted_peers() {
    let mut st = AppState::default();
    st.settings.trusted_peers.insert("phone".to_string(), "tok".to_string());
    st.settings.pairing_code = "1234".to_string();
    apply_saved_settings(&mut st, 512, " Work ".to_string(), false, true, true, "host");
    assert_eq!(st.settings.max_image_size_kb, 512);
    assert_eq!(st.settings.device_name_override, " Work ");
    assert!(!st.settings.background_mode_enabled);
    assert!(st.settings.windows_start_on_login);
    assert!(st.settings.dev_mode_enabled);
    assert_eq!(st.settings.pairing_code, "1234");
    assert_eq!(st.settings.trusted_peers.get("phone"), Some(&"tok".to_string()));
    assert_eq!(st.device_name, "Work");
}
