use frost_tune::error::ErrorKind;
use frost_tune::storage::{
    choose_base_dir, profile_file_names, profile_size_allowed, recent_log_window, sanitize_name,
    BaseDir, Settings, UiPreferences,
};

#[test]
fn storage_test_sanitize_name() {
    assert_eq!(sanitize_name("Hello World"), "Hello World");
    assert_eq!(sanitize_name("Profile_1-2"), "Profile_1-2");
    assert_eq!(sanitize_name("Bad@Name#$"), "BadName");
    assert_eq!(sanitize_name(""), "");
    assert_eq!(sanitize_name("Normal Name 123"), "Normal Name 123");
}

#[test]
fn profiles_test_sanitize_name() {
    assert_eq!(sanitize_name("Hello World"), "Hello World");
    assert_eq!(sanitize_name("Profile_1-2"), "Profile_1-2");
    assert_eq!(sanitize_name("Bad@Name#$"), "BadName");
    assert_eq!(sanitize_name(""), "");
    assert_eq!(sanitize_name("Normal Name 123"), "Normal Name 123");
}

#[test]
fn sanitize_keeps_unicode_letters() {
    assert_eq!(sanitize_name("Café/../x"), "Caféx");
    assert_eq!(sanitize_name("a\tb"), "ab");
}

#[test]
fn profile_file_names_need_a_name() {
    let (f, t) = profile_file_names("My EQ!").unwrap();
    assert_eq!(f, "My EQ.txt");
    assert_eq!(t, ".My EQ.tmp");
    let e = profile_file_names("!!!").unwrap_err();
    assert_eq!(e.kind, ErrorKind::StorageError);
    assert_eq!(e.message, "Invalid profile name");
}

#[test]
fn recent_log_window_cases() {
    assert_eq!(recent_log_window(10, 200), (0, false));
    assert_eq!(recent_log_window(300, 200), (100, false));
    assert_eq!(recent_log_window(6000, 200), (5800, true));
    assert_eq!(recent_log_window(6000, 10), (5900, true));
    assert_eq!(recent_log_window(6000, 9000), (4000, true));
    assert!(profile_size_allowed(1024 * 1024));
    assert!(!profile_size_allowed(1024 * 1024 + 1));
}

#[test]
fn base_dir_prefers_home_unless_root() {
    match choose_base_dir(false, Some("/h".to_string()), Some("/d".to_string())).unwrap() {
        BaseDir::Home(p) => assert_eq!(p, "/h"),
        other => panic!("unexpected {:?}", other),
    }
    match choose_base_dir(true, Some("/h".to_string()), Some("/d".to_string())).unwrap() {
        BaseDir::InDataDir(p) => assert_eq!(p, "/d"),
        other => panic!("unexpected {:?}", other),
    }
    let e = choose_base_dir(true, None, None).unwrap_err();
    assert_eq!(e.message, "Failed to get standard data directory. Set FROST_TUNE_HOME to override.");
}

#[test]
fn settings_default_off() {
    let s = Settings::default();
    assert!(!s.auto_pull_on_connect && !s.skip_push_verification);
    let u = UiPreferences::default();
    assert!(!u.advanced_filters_expanded && !u.diagnostics_expanded);
}
