use std::collections::HashMap;
use velo::mode::{IndentStyle, KeybindingMap, MajorMode, MajorModeRegistry, MinorMode, PlainTextMode};
use velo::EditorState;

struct TestMajorMode;

impl MajorMode for TestMajorMode {
    fn name(&self) -> &str {
        "test-mode"
    }

    fn file_patterns(&self) -> &[&str] {
        &["*.test"]
    }

    fn indent_style(&self) -> IndentStyle {
        IndentStyle::Tabs
    }

    fn keybindings(&self) -> KeybindingMap {
        let mut map = HashMap::new();
        map.insert("ctrl+t".to_string(), "test_command".to_string());
        map
    }
}

struct TestMinorMode {
    activated: bool,
}

impl MinorMode<EditorState> for TestMinorMode {
    fn name(&self) -> &str {
        "test-minor"
    }

    fn keybindings(&self) -> KeybindingMap {
        let mut map = HashMap::new();
        map.insert("ctrl+m".to_string(), "minor_command".to_string());
        map
    }

    fn on_activate(&mut self, _buffer_id: usize, _state: &mut EditorState) {
        self.activated = true;
    }

    fn on_deactivate(&mut self, _buffer_id: usize, _state: &mut EditorState) {
        self.activated = false;
    }
}

#[test]
fn test_plain_text_mode_name() {
    let mode = PlainTextMode::new();
    assert_eq!(mode.name(), "plain-text");
}

#[test]
fn test_plain_text_mode_file_patterns() {
    let mode = PlainTextMode::new();
    let patterns = mode.file_patterns();
    assert_eq!(patterns.len(), 1);
    assert_eq!(patterns[0], "*.txt");
}

#[test]
fn test_plain_text_mode_grammar() {
    let mode = PlainTextMode::new();
    assert!(mode.grammar().is_none());
}

#[test]
fn test_plain_text_mode_indent_style() {
    let mode = PlainTextMode::new();
    assert_eq!(mode.indent_style(), IndentStyle::Spaces(4));
}

#[test]
fn test_plain_text_mode_keybindings() {
    let mode = PlainTextMode::new();
    let bindings = mode.keybindings();
    assert!(bindings.is_empty());
}

#[test]
fn test_plain_text_mode_default() {
    let mode = PlainTextMode::default();
    assert_eq!(mode.name(), "plain-text");
}

#[test]
fn test_indent_style_spaces() {
    let style = IndentStyle::Spaces(4);
    assert_eq!(style, IndentStyle::Spaces(4));
}

#[test]
fn test_indent_style_tabs() {
    let style = IndentStyle::Tabs;
    assert_eq!(style, IndentStyle::Tabs);
}

#[test]
fn test_custom_major_mode() {
    let mode = TestMajorMode;
    assert_eq!(mode.name(), "test-mode");
    assert_eq!(mode.file_patterns(), &["*.test"]);
    assert_eq!(mode.indent_style(), IndentStyle::Tabs);
    assert!(mode.grammar().is_none());
    
    let bindings = mode.keybindings();
    assert_eq!(bindings.len(), 1);
    assert_eq!(bindings.get("ctrl+t"), Some(&"test_command".to_string()));
}

#[test]
fn test_custom_minor_mode() {
    let mut mode = TestMinorMode { activated: false };
    assert_eq!(mode.name(), "test-minor");
    
    let bindings = mode.keybindings();
    assert_eq!(bindings.len(), 1);
    assert_eq!(bindings.get("ctrl+m"), Some(&"minor_command".to_string()));
    
    let mut state = EditorState::new();
    
    // Test activation
    assert!(!mode.activated);
    mode.on_activate(0, &mut state);
    assert!(mode.activated);
    
    // Test deactivation
    mode.on_deactivate(0, &mut state);
    assert!(!mode.activated);
}

fn assert_send_sync<T: Send + Sync>() {}

struct DummyMinor;

impl MinorMode<EditorState> for DummyMinor {
    fn name(&self) -> &str { "dummy" }
    fn on_activate(&mut self, _: usize, _: &mut EditorState) {}
    fn on_deactivate(&mut self, _: usize, _: &mut EditorState) {}
}

#[test]
fn test_major_mode_send_sync() {
    assert_send_sync::<PlainTextMode>();
}

#[test]
fn test_minor_mode_send_sync() {
    assert_send_sync::<DummyMinor>();
}

#[test]
fn test_major_mode_registry_new() {
    let registry = MajorModeRegistry::new();
    // Registry should have at least the plain-text fallback mode
    let modes = registry.registered_modes();
    assert!(modes.contains(&"plain-text"));
}

#[test]
fn test_major_mode_registry_default() {
    let registry = MajorModeRegistry::default();
    let modes = registry.registered_modes();
    assert!(modes.contains(&"plain-text"));
}

#[test]
fn test_major_mode_registry_register() {
    let mut registry = MajorModeRegistry::new();
    let initial_count = registry.registered_modes().len();
    
    registry.register(Box::new(TestMajorMode));
    
    assert_eq!(registry.registered_modes().len(), initial_count + 1);
    assert!(registry.registered_modes().contains(&"test-mode"));
}

#[test]
fn test_major_mode_registry_mode_name_for_file_fallback() {
    let registry = MajorModeRegistry::new();
    
    // Unknown file extension should return plain-text mode
    let mode_name = registry.mode_name_for_file("unknown.xyz");
    assert_eq!(mode_name, "plain-text");
}

#[test]
fn test_major_mode_registry_mode_name_for_file_txt() {
    let registry = MajorModeRegistry::new();
    
    // .txt files should match plain-text mode
    let mode_name = registry.mode_name_for_file("readme.txt");
    assert_eq!(mode_name, "plain-text");
}

#[test]
fn test_major_mode_registry_mode_name_for_file_custom() {
    let mut registry = MajorModeRegistry::new();
    registry.register(Box::new(TestMajorMode));
    
    // .test files should match test-mode
    let mode_name = registry.mode_name_for_file("example.test");
    assert_eq!(mode_name, "test-mode");
}

#[test]
fn test_major_mode_registry_mode_for_file_fallback() {
    let registry = MajorModeRegistry::new();
    
    // Unknown file extension should return plain-text mode
    let mode = registry.mode_for_file("unknown.xyz");
    assert_eq!(mode.name(), "plain-text");
}

#[test]
fn test_major_mode_registry_mode_for_file_txt() {
    let registry = MajorModeRegistry::new();
    
    // .txt files should match plain-text mode
    let mode = registry.mode_for_file("readme.txt");
    assert_eq!(mode.name(), "plain-text");
}

#[test]
fn test_matches_pattern_wildcard_extension() {
    assert!(MajorModeRegistry::matches_pattern("test.rs", "*.rs"));
    assert!(MajorModeRegistry::matches_pattern("main.rs", "*.rs"));
    assert!(!MajorModeRegistry::matches_pattern("test.txt", "*.rs"));
}

#[test]
fn test_matches_pattern_wildcard_suffix() {
    assert!(MajorModeRegistry::matches_pattern("Makefile", "*file"));
    assert!(MajorModeRegistry::matches_pattern("Dockerfile", "*file"));
    assert!(!MajorModeRegistry::matches_pattern("test.rs", "*file"));
}

#[test]
fn test_matches_pattern_exact() {
    assert!(MajorModeRegistry::matches_pattern("Makefile", "Makefile"));
    assert!(!MajorModeRegistry::matches_pattern("makefile", "Makefile"));
}

#[test]
fn test_matches_pattern_with_path() {
    assert!(MajorModeRegistry::matches_pattern("src/main.rs", "*.rs"));
    assert!(MajorModeRegistry::matches_pattern("/home/user/test.txt", "*.txt"));
}
