//! The merged editor configuration and its built-in defaults.

use vstd::prelude::*;
use std::collections::HashMap;

verus! {

#[verifier::external_type_specification]
#[verifier::external_body]
pub struct ExTomlValue(toml::Value);

/// The whole configuration: editor settings, theme, key maps, user
/// interface, and each plugin's own section.
#[derive(Debug, Clone)]
pub struct VeloConfig {
    pub editor: EditorSettings,
    pub theme: ThemeConfig,
    pub keymaps: KeymapConfig,
    pub ui: UiConfig,
    pub plugins: HashMap<String, toml::Value>,
}

#[derive(Debug, Clone)]
pub struct EditorSettings {
    pub tab_width: usize,
    pub line_numbers: bool,
    pub soft_wrap: bool,
    pub scroll_off: usize,
}

#[derive(Debug, Clone)]
pub struct ThemeConfig {
    pub name: String,
}

/// Global key bindings, and key bindings per major mode.
#[derive(Debug, Clone)]
pub struct KeymapConfig {
    pub global: HashMap<String, String>,
    pub by_major_mode: HashMap<String, HashMap<String, String>>,
}

#[derive(Debug, Clone)]
pub struct UiConfig {
    pub ui_type: String,
}

impl EditorSettings {
    /// The built-in editor settings: tabs four wide, line numbers on, soft
    /// wrap off, eight lines of scroll margin.
    pub open spec fn is_default(self) -> bool {
        &&& self.tab_width == 4
        &&& self.line_numbers
        &&& !self.soft_wrap
        &&& self.scroll_off == 8
    }
}

impl Default for EditorSettings {
    fn default() -> (s: Self)
        ensures
            s.is_default(),
    {
        Self { tab_width: 4, line_numbers: true, soft_wrap: false, scroll_off: 8 }
    }
}

impl Default for ThemeConfig {
    fn default() -> (t: Self)
        ensures
            t.name@ == "velo-dark"@,
    {
        Self { name: String::from_str("velo-dark") }
    }
}

impl Default for KeymapConfig {
    fn default() -> (k: Self)
        ensures
            k.global@ == Map::<String, String>::empty(),
            k.by_major_mode@ == Map::<String, HashMap<String, String>>::empty(),
    {
        Self { global: HashMap::new(), by_major_mode: HashMap::new() }
    }
}

impl Default for UiConfig {
    fn default() -> (u: Self)
        ensures
            u.ui_type@ == "velo-tui"@,
    {
        Self { ui_type: String::from_str("velo-tui") }
    }
}

impl VeloConfig {
    /// Every section holds its built-in default, and no plugin has a section.
    pub open spec fn is_default(self) -> bool {
        &&& self.editor.is_default()
        &&& self.theme.name@ == "velo-dark"@
        &&& self.keymaps.global@ == Map::<String, String>::empty()
        &&& self.keymaps.by_major_mode@ == Map::<String, HashMap<String, String>>::empty()
        &&& self.ui.ui_type@ == "velo-tui"@
        &&& self.plugins@ == Map::<String, toml::Value>::empty()
    }
}

impl Default for VeloConfig {
    fn default() -> (c: Self)
        ensures
            c.is_default(),
    {
        Self {
            editor: EditorSettings::default(),
            theme: ThemeConfig::default(),
            keymaps: KeymapConfig::default(),
            ui: UiConfig::default(),
            plugins: HashMap::new(),
        }
    }
}

} // verus!
