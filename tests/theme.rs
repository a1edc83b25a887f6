use rtop::theme::{Theme, ThemeManager};

#[test]
fn test_theme_manager() {
    let mut manager = ThemeManager::new();
    let theme_name = manager.current().name.clone();
    assert_eq!(theme_name, "default");

    let custom_theme = Theme {
        name: "custom".to_string(),
        ..Theme::default()
    };
    manager.add_theme(custom_theme);

    assert!(manager.set_theme("custom"));
    assert_eq!(manager.current().name, "custom");
}

#[test]
fn theme_manager_unknown_and_replace() {
    let mut manager = ThemeManager::default();
    assert!(!manager.set_theme("missing"));
    assert_eq!(manager.current().name, "default");
    let replaced = Theme { main_fg: "#ff0000".to_string(), ..Theme::default() };
    manager.add_theme(replaced);
    assert_eq!(manager.list_themes(), vec!["default".to_string()]);
    assert_eq!(manager.current().main_fg, "#ff0000");
}
