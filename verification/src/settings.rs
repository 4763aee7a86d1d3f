//! User settings: a plain record with defaults.  Reading and writing the
//! settings file is the application's business; an unreadable or
//! unparsable file degrades to the defaults.

use vstd::prelude::*;

verus! {

/// Saved window geometry.
#[derive(Clone, Copy, Debug, PartialEq, Eq, Structural)]
pub struct WindowState {
    pub width: u32,
    pub height: u32,
    pub x: i32,
    pub y: i32,
    pub maximized: bool,
}

/// Ghost image of the settings record.
#[verifier::ext_equal]
pub struct SettingsView {
    pub editor_font_size: u32,
    pub editor_font_family: Seq<char>,
    pub tab_size: u32,
    pub word_wrap: bool,
    pub line_numbers: bool,
    pub minimap: bool,
    pub theme: Seq<char>,
    pub live_preview: bool,
    pub preview_font_size: u32,
    pub auto_save: bool,
    pub auto_save_delay: u32,
    pub window_state: Option<WindowState>,
    pub last_directory: Option<Seq<char>>,
}

/// Editor, theme, preview, auto-save and window settings.
#[derive(Debug)]
pub struct Settings {
    pub editor_font_size: u32,
    pub editor_font_family: String,
    pub tab_size: u32,
    pub word_wrap: bool,
    pub line_numbers: bool,
    pub minimap: bool,
    pub theme: String,
    pub live_preview: bool,
    pub preview_font_size: u32,
    pub auto_save: bool,
    pub auto_save_delay: u32,
    pub window_state: Option<WindowState>,
    pub last_directory: Option<String>,
}

impl View for Settings {
    type V = SettingsView;

    open spec fn view(&self) -> SettingsView {
        SettingsView {
            editor_font_size: self.editor_font_size,
            editor_font_family: self.editor_font_family@,
            tab_size: self.tab_size,
            word_wrap: self.word_wrap,
            line_numbers: self.line_numbers,
            minimap: self.minimap,
            theme: self.theme@,
            live_preview: self.live_preview,
            preview_font_size: self.preview_font_size,
            auto_save: self.auto_save,
            auto_save_delay: self.auto_save_delay,
            window_state: self.window_state,
            last_directory: (match self.last_directory {
                Some(d) => Some(d@),
                None => None,
            }),
        }
    }
}

impl Clone for Settings {
    fn clone(&self) -> (r: Self)
        ensures
            r@ == self@,
    {
        Settings {
            editor_font_size: self.editor_font_size,
            editor_font_family: self.editor_font_family.clone(),
            tab_size: self.tab_size,
            word_wrap: self.word_wrap,
            line_numbers: self.line_numbers,
            minimap: self.minimap,
            theme: self.theme.clone(),
            live_preview: self.live_preview,
            preview_font_size: self.preview_font_size,
            auto_save: self.auto_save,
            auto_save_delay: self.auto_save_delay,
            window_state: self.window_state,
            last_directory: (match &self.last_directory {
                Some(d) => Some(d.clone()),
                None => None,
            }),
        }
    }
}

pub fn default_font_size() -> (r: u32)
    ensures
        r == 14,
{
    14
}

pub fn default_font_family() -> (r: String)
    ensures
        r@ == "JetBrains Mono, Consolas, monospace"@,
{
    "JetBrains Mono, Consolas, monospace".to_owned()
}

pub fn default_tab_size() -> (r: u32)
    ensures
        r == 2,
{
    2
}

pub fn default_true() -> (r: bool)
    ensures
        r == true,
{
    true
}

pub fn default_theme() -> (r: String)
    ensures
        r@ == "dark"@,
{
    "dark".to_owned()
}

pub fn default_preview_font_size() -> (r: u32)
    ensures
        r == 16,
{
    16
}

pub fn default_auto_save_delay() -> (r: u32)
    ensures
        r == 5000,
{
    5000
}

/// The settings a fresh installation starts from.
pub open spec fn default_settings() -> SettingsView {
    SettingsView {
        editor_font_size: 14,
        editor_font_family: "JetBrains Mono, Consolas, monospace"@,
        tab_size: 2,
        word_wrap: false,
        line_numbers: true,
        minimap: true,
        theme: "dark"@,
        live_preview: true,
        preview_font_size: 16,
        auto_save: false,
        auto_save_delay: 5000,
        window_state: None,
        last_directory: None,
    }
}

impl Default for Settings {
    fn default() -> (r: Self)
        ensures
            r@ == default_settings(),
    {
        Settings {
            editor_font_size: default_font_size(),
            editor_font_family: default_font_family(),
            tab_size: default_tab_size(),
            word_wrap: false,
            line_numbers: true,
            minimap: true,
            theme: default_theme(),
            live_preview: true,
            preview_font_size: default_preview_font_size(),
            auto_save: false,
            auto_save_delay: default_auto_save_delay(),
            window_state: None,
            last_directory: None,
        }
    }
}

/// Holds the current settings between loads and saves.
pub struct SettingsManager {
    settings: Settings,
}

impl View for SettingsManager {
    type V = SettingsView;

    closed spec fn view(&self) -> SettingsView {
        self.settings@
    }
}

impl SettingsManager {
    /// Built from whatever the settings file yielded (`None` when it was
    /// absent, unreadable or unparsable): defaults fill the gap.
    pub fn new(loaded: Option<Settings>) -> (r: Self)
        ensures
            (match loaded {
                Some(s) => r@ == s@,
                None => r@ == default_settings(),
            }),
    {
        match loaded {
            Some(s) => SettingsManager { settings: s },
            None => SettingsManager { settings: Settings::default() },
        }
    }

    pub fn get_settings(&self) -> (r: Settings)
        ensures
            r@ == self@,
    {
        self.settings.clone()
    }

    pub fn update_settings(&mut self, settings: Settings)
        ensures
            final(self)@ == settings@,
    {
        self.settings = settings;
    }
}

} // verus!
