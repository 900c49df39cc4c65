use termillion::config::{Config, KeyboardShortcuts, Shortcut};
use termillion::validation::{is_safe_key, validate_shortcut, validate_shortcuts};

fn binding(key: &str, ctrl: bool, shift: bool, alt: bool, meta: bool) -> Shortcut {
    Shortcut { key: key.to_string(), ctrl, shift, alt, meta }
}

#[test]
fn safe_keys_accepted() {
    for key in ["t", "w", "r", "e", "o", "[", "]", "\\", "/"] {
        assert!(is_safe_key(&key.to_string()), "{key} should be safe");
    }
    for key in ["q", "c", "1", "", "tt"] {
        assert!(!is_safe_key(&key.to_string()), "{key} should not be safe");
    }
}

#[test]
fn valid_shortcut_passes() {
    assert_eq!(validate_shortcut("new_tab", &binding("t", true, true, false, false)), None);
}

#[test]
fn uppercase_key_is_lowercased_before_the_check() {
    // The safe-key check runs on the lowercased key: an uppercase binding of
    // a safe key passes, an uppercase unsafe key still fails.
    assert_eq!(validate_shortcut("new_tab", &binding("T", true, true, false, false)), None);
    let e = validate_shortcut("new_tab", &binding("Q", true, true, false, false)).unwrap();
    assert_eq!(
        e.message,
        "Shortcut 'new_tab' uses key 'Q' which may interfere with terminal applications"
    );
}

#[test]
fn missing_ctrl_shift_is_reported() {
    let e = validate_shortcut("close_tab", &binding("w", true, false, false, false)).unwrap();
    assert_eq!(e.component, "shortcuts");
    assert_eq!(e.message, "Shortcut 'close_tab' must use Ctrl+Shift combination");
    let e = validate_shortcut("close_tab", &binding("w", false, true, false, false)).unwrap();
    assert_eq!(e.message, "Shortcut 'close_tab' must use Ctrl+Shift combination");
}

#[test]
fn alt_is_reserved_for_the_terminal() {
    let e = validate_shortcut("reload_config", &binding("r", true, true, true, false)).unwrap();
    assert_eq!(e.message, "Shortcut 'reload_config' must not use Alt (reserved for terminal)");
}

#[test]
fn unsafe_key_is_reported() {
    let e = validate_shortcut("new_tab", &binding("q", true, true, false, false)).unwrap();
    assert_eq!(
        e.message,
        "Shortcut 'new_tab' uses key 'q' which may interfere with terminal applications"
    );
}

#[test]
fn default_shortcuts_validate_cleanly() {
    let errors = validate_shortcuts(&KeyboardShortcuts::default());
    assert!(errors.is_empty(), "{errors:?}");
    assert!(Config::default().validate().is_empty());
}

#[test]
fn conflicting_bindings_are_reported_once_each() {
    let mut ks = KeyboardShortcuts::default();
    ks.close_tab = binding("t", true, true, false, false);
    let errors = validate_shortcuts(&ks);
    assert_eq!(errors.len(), 1);
    assert_eq!(errors[0].component, "shortcuts");
    assert_eq!(errors[0].message, "Shortcut 'close_tab' conflicts with another shortcut");
}

#[test]
fn conflict_detection_ignores_key_case() {
    let mut ks = KeyboardShortcuts::default();
    ks.close_tab = binding("T", true, true, false, false);
    let errors = validate_shortcuts(&ks);
    assert_eq!(errors.len(), 1);
    assert_eq!(errors[0].message, "Shortcut 'close_tab' conflicts with another shortcut");
}

#[test]
fn different_modifiers_do_not_conflict() {
    let mut ks = KeyboardShortcuts::default();
    // Same key as new_tab but with Meta as well: a different combination,
    // though it fails the per-binding Alt/Ctrl+Shift policy checks not at all.
    ks.close_tab = binding("t", true, true, false, true);
    let errors = validate_shortcuts(&ks);
    assert!(errors.is_empty(), "{errors:?}");
}

#[test]
fn invalid_binding_and_conflict_both_reported() {
    let mut ks = KeyboardShortcuts::default();
    // "q" is unsafe, and both bindings collide on ctrl+shift+q.
    ks.new_tab = binding("q", true, true, false, false);
    ks.close_tab = binding("q", true, true, false, false);
    let errors = validate_shortcuts(&ks);
    let messages: Vec<&str> = errors.iter().map(|e| e.message.as_str()).collect();
    assert_eq!(
        messages,
        vec![
            "Shortcut 'new_tab' uses key 'q' which may interfere with terminal applications",
            "Shortcut 'close_tab' uses key 'q' which may interfere with terminal applications",
            "Shortcut 'close_tab' conflicts with another shortcut",
        ]
    );
}

#[test]
fn third_binding_conflicts_with_first() {
    let mut ks = KeyboardShortcuts::default();
    ks.reload_config = binding("t", true, true, false, false);
    let errors = validate_shortcuts(&ks);
    assert_eq!(errors.len(), 1);
    assert_eq!(errors[0].message, "Shortcut 'reload_config' conflicts with another shortcut");
}
