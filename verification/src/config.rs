//! The persisted application configuration: its data model, the built-in
//! defaults, and version migration (field backfill from older layouts).
//!
//! Reading and writing the configuration file (TOML, disk) is the caller's
//! business; the types, defaults and migrations here are pure values. A
//! font's line height is kept in thousandths, so the model stays in integer
//! arithmetic.

use vstd::prelude::*;
use vstd::string::StringExecFns;

verus! {

/// Current version of the configuration schema.
pub const CURRENT_CONFIG_VERSION: u32 = 1;

/// Font configuration settings.
#[derive(Debug, Clone, PartialEq)]
pub struct FontConfig {
    /// Primary font family.
    pub family: String,
    /// Fallback font families.
    pub fallback_family: String,
    /// Font size in pixels.
    pub size: u16,
    /// Line height multiplier, in thousandths (1000 is single spacing).
    pub line_height_milli: u32,
}

/// Color theme configuration: base colors and the optional ANSI palette.
#[derive(Debug, Clone, PartialEq)]
pub struct ThemeConfig {
    pub background: String,
    pub foreground: String,
    pub cursor: String,
    pub selection: String,
    pub black: Option<String>,
    pub red: Option<String>,
    pub green: Option<String>,
    pub yellow: Option<String>,
    pub blue: Option<String>,
    pub magenta: Option<String>,
    pub cyan: Option<String>,
    pub white: Option<String>,
    pub bright_black: Option<String>,
    pub bright_red: Option<String>,
    pub bright_green: Option<String>,
    pub bright_yellow: Option<String>,
    pub bright_blue: Option<String>,
    pub bright_magenta: Option<String>,
    pub bright_cyan: Option<String>,
    pub bright_white: Option<String>,
}

/// Default shell commands for different platforms.
#[derive(Debug, Clone, PartialEq)]
pub struct ShellConfig {
    pub windows: String,
    pub linux: String,
    pub macos: String,
}

/// Terminal behavior settings.
#[derive(Debug, Clone, PartialEq)]
pub struct TerminalSettings {
    /// Number of lines to keep in the scrollback buffer.
    pub scrollback: Option<u32>,
    /// Padding around terminal content.
    pub padding: Option<PaddingConfig>,
}

/// Terminal padding, in pixels.
#[derive(Debug, Clone, Copy, PartialEq, Eq, Structural)]
pub struct PaddingConfig {
    pub x: u32,
    pub y: u32,
}

/// Terminal profile configuration.
#[derive(Debug, Clone, PartialEq)]
pub struct Profile {
    pub name: String,
    pub command: String,
    pub args: Option<Vec<String>>,
    pub font: Option<FontConfig>,
    pub theme: Option<ThemeConfig>,
}

/// Collection of terminal profiles.
#[derive(Debug, Clone, PartialEq)]
pub struct Profiles {
    pub default: String,
    pub list: Vec<Profile>,
}

/// Keyboard shortcut configuration.
#[derive(Debug, Clone, PartialEq)]
pub struct Shortcut {
    pub key: String,
    pub ctrl: bool,
    pub shift: bool,
    pub alt: bool,
    pub meta: bool,
}

/// Keyboard shortcut bindings.
#[derive(Debug, Clone, PartialEq)]
pub struct KeyboardShortcuts {
    pub new_tab: Shortcut,
    pub close_tab: Shortcut,
    pub reload_config: Shortcut,
    pub show_profiles: Shortcut,
}

/// Style for interactive UI elements.
#[derive(Debug, Clone, PartialEq)]
pub struct InteractiveElementStyle {
    pub background_color: String,
    pub text_color: String,
    pub border_color: String,
    pub hover_background: String,
}

/// Window appearance configuration.
#[derive(Debug, Clone, PartialEq)]
pub struct WindowConfig {
    pub titlebar_height: u32,
    pub titlebar_background: String,
    pub interactive: InteractiveElementStyle,
    pub tabs: WindowTabsStyle,
}

/// Styles for tabs in the titlebar.
#[derive(Debug, Clone, PartialEq)]
pub struct WindowTabsStyle {
    pub active: TabStyle,
    pub inactive: TabStyle,
}

/// Style of one tab.
#[derive(Debug, Clone, PartialEq)]
pub struct TabStyle {
    pub background_color: String,
    pub text_color: String,
}

/// Main application configuration.
#[derive(Debug, Clone, PartialEq)]
pub struct Config {
    /// Configuration version, used for migrations.
    pub version: u32,
    pub font: FontConfig,
    pub theme: ThemeConfig,
    pub shell: ShellConfig,
    pub terminal: TerminalSettings,
    pub profiles: Option<Profiles>,
    pub shortcuts: KeyboardShortcuts,
    pub window: WindowConfig,
}

/// The unversioned first layout of the configuration file.
#[derive(Debug, Clone, PartialEq)]
pub struct ConfigV0 {
    pub font: FontConfig,
    pub theme: ThemeConfig,
    pub shell: ShellConfig,
}

/// The built-in font: JetBrains Mono at 14 pixels, single spacing.
pub open spec fn is_default_font(f: FontConfig) -> bool {
    &&& f.family@ == "JetBrains Mono"@
    &&& f.fallback_family@ == "Consolas, Monaco, monospace"@
    &&& f.size == 14
    &&& f.line_height_milli == 1000
}

/// The built-in dark theme with its full ANSI palette.
pub open spec fn is_default_theme(t: ThemeConfig) -> bool {
    &&& t.background@ == "#282c34"@
    &&& t.foreground@ == "#abb2bf"@
    &&& t.cursor@ == "#528bff"@
    &&& t.selection@ == "#3e4451"@
    &&& t.black matches Some(c) && c@ == "#3f4451"@
    &&& t.red matches Some(c) && c@ == "#e06c75"@
    &&& t.green matches Some(c) && c@ == "#98c379"@
    &&& t.yellow matches Some(c) && c@ == "#e5c07b"@
    &&& t.blue matches Some(c) && c@ == "#61afef"@
    &&& t.magenta matches Some(c) && c@ == "#c678dd"@
    &&& t.cyan matches Some(c) && c@ == "#56b6c2"@
    &&& t.white matches Some(c) && c@ == "#dcdfe4"@
    &&& t.bright_black matches Some(c) && c@ == "#5c6370"@
    &&& t.bright_red matches Some(c) && c@ == "#ff7a85"@
    &&& t.bright_green matches Some(c) && c@ == "#b5e890"@
    &&& t.bright_yellow matches Some(c) && c@ == "#ffd68a"@
    &&& t.bright_blue matches Some(c) && c@ == "#80caff"@
    &&& t.bright_magenta matches Some(c) && c@ == "#d7a1e7"@
    &&& t.bright_cyan matches Some(c) && c@ == "#7bc6d0"@
    &&& t.bright_white matches Some(c) && c@ == "#f0f2f4"@
}

/// The built-in per-platform shells.
pub open spec fn is_default_shell_config(s: ShellConfig) -> bool {
    &&& s.windows@ == "powershell.exe"@
    &&& s.linux@ == "/bin/bash"@
    &&& s.macos@ == "/bin/zsh"@
}

/// The built-in terminal settings: 5000 scrollback lines, 12 by 8 padding.
pub open spec fn is_default_terminal(t: TerminalSettings) -> bool {
    &&& t.scrollback == Some(5000u32)
    &&& t.padding == Some(PaddingConfig { x: 12, y: 8 })
}

/// The built-in profiles: PowerShell (the default) and WSL.
pub open spec fn is_default_profiles(p: Option<Profiles>) -> bool {
    &&& p matches Some(ps)
    &&& ps.default@ == "PowerShell"@
    &&& ps.list@.len() == 2
    &&& ps.list@[0].name@ == "PowerShell"@
    &&& ps.list@[0].command@ == "powershell.exe"@
    &&& ps.list@[0].args is None
    &&& ps.list@[0].font is None
    &&& ps.list@[0].theme is None
    &&& ps.list@[1].name@ == "WSL"@
    &&& ps.list@[1].command@ == "wsl.exe"@
    &&& ps.list@[1].args is None
    &&& ps.list@[1].font is None
    &&& ps.list@[1].theme is None
}

/// A Ctrl+Shift binding of `key`, with no other modifier.
pub open spec fn is_ctrl_shift(s: Shortcut, key: Seq<char>) -> bool {
    &&& s.key@ == key
    &&& s.ctrl
    &&& s.shift
    &&& !s.alt
    &&& !s.meta
}

/// The built-in bindings: Ctrl+Shift with T, W, R and P.
pub open spec fn is_default_shortcuts(ks: KeyboardShortcuts) -> bool {
    &&& is_ctrl_shift(ks.new_tab, "t"@)
    &&& is_ctrl_shift(ks.close_tab, "w"@)
    &&& is_ctrl_shift(ks.reload_config, "r"@)
    &&& is_ctrl_shift(ks.show_profiles, "p"@)
}

/// The built-in window chrome.
pub open spec fn is_default_window(w: WindowConfig) -> bool {
    &&& w.titlebar_height == 35
    &&& w.titlebar_background@ == "#1e2227"@
    &&& w.interactive.background_color@ == "#32344a"@
    &&& w.interactive.text_color@ == "#abb2bf"@
    &&& w.interactive.border_color@ == "#21252b"@
    &&& w.interactive.hover_background@ == "#3e4451"@
    &&& w.tabs.active.background_color@ == "#24283b"@
    &&& w.tabs.active.text_color@ == "#a9b1d6"@
    &&& w.tabs.inactive.background_color@ == "#1a1b26"@
    &&& w.tabs.inactive.text_color@ == "#787c99"@
}

/// The whole built-in configuration at the current schema version.
pub open spec fn is_default_config(c: Config) -> bool {
    &&& c.version == CURRENT_CONFIG_VERSION
    &&& is_default_font(c.font)
    &&& is_default_theme(c.theme)
    &&& is_default_shell_config(c.shell)
    &&& is_default_terminal(c.terminal)
    &&& is_default_profiles(c.profiles)
    &&& is_default_shortcuts(c.shortcuts)
    &&& is_default_window(c.window)
}

fn default_terminal_settings() -> (t: TerminalSettings)
    ensures
        is_default_terminal(t),
{
    TerminalSettings { scrollback: Some(5000), padding: Some(PaddingConfig { x: 12, y: 8 }) }
}

fn ctrl_shift(key: &str) -> (s: Shortcut)
    ensures
        is_ctrl_shift(s, key@),
{
    Shortcut { key: key.to_owned(), ctrl: true, shift: true, alt: false, meta: false }
}

fn default_window_config() -> (w: WindowConfig)
    ensures
        is_default_window(w),
{
    WindowConfig {
        titlebar_height: 35,
        titlebar_background: "#1e2227".to_owned(),
        interactive: InteractiveElementStyle {
            background_color: "#32344a".to_owned(),
            text_color: "#abb2bf".to_owned(),
            border_color: "#21252b".to_owned(),
            hover_background: "#3e4451".to_owned(),
        },
        tabs: WindowTabsStyle {
            active: TabStyle {
                background_color: "#24283b".to_owned(),
                text_color: "#a9b1d6".to_owned(),
            },
            inactive: TabStyle {
                background_color: "#1a1b26".to_owned(),
                text_color: "#787c99".to_owned(),
            },
        },
    }
}

impl Default for Shortcut {
    /// An unbound shortcut: empty key, no modifiers.
    fn default() -> (s: Shortcut)
        ensures
            s.key@ == Seq::<char>::empty(),
            !s.ctrl && !s.shift && !s.alt && !s.meta,
    {
        let s = Shortcut { key: String::new(), ctrl: false, shift: false, alt: false, meta: false };
        s
    }
}

impl Default for KeyboardShortcuts {
    /// The built-in bindings.
    fn default() -> (ks: KeyboardShortcuts)
        ensures
            is_default_shortcuts(ks),
    {
        KeyboardShortcuts {
            new_tab: ctrl_shift("t"),
            close_tab: ctrl_shift("w"),
            reload_config: ctrl_shift("r"),
            show_profiles: ctrl_shift("p"),
        }
    }
}

impl Default for Config {
    /// The whole built-in configuration.
    fn default() -> (c: Config)
        ensures
            is_default_config(c),
    {
        Config {
            version: CURRENT_CONFIG_VERSION,
            font: FontConfig {
                family: "JetBrains Mono".to_owned(),
                fallback_family: "Consolas, Monaco, monospace".to_owned(),
                size: 14,
                line_height_milli: 1000,
            },
            theme: ThemeConfig {
                background: "#282c34".to_owned(),
                foreground: "#abb2bf".to_owned(),
                cursor: "#528bff".to_owned(),
                selection: "#3e4451".to_owned(),
                black: Some("#3f4451".to_owned()),
                red: Some("#e06c75".to_owned()),
                green: Some("#98c379".to_owned()),
                yellow: Some("#e5c07b".to_owned()),
                blue: Some("#61afef".to_owned()),
                magenta: Some("#c678dd".to_owned()),
                cyan: Some("#56b6c2".to_owned()),
                white: Some("#dcdfe4".to_owned()),
                bright_black: Some("#5c6370".to_owned()),
                bright_red: Some("#ff7a85".to_owned()),
                bright_green: Some("#b5e890".to_owned()),
                bright_yellow: Some("#ffd68a".to_owned()),
                bright_blue: Some("#80caff".to_owned()),
                bright_magenta: Some("#d7a1e7".to_owned()),
                bright_cyan: Some("#7bc6d0".to_owned()),
                bright_white: Some("#f0f2f4".to_owned()),
            },
            shell: ShellConfig {
                windows: "powershell.exe".to_owned(),
                linux: "/bin/bash".to_owned(),
                macos: "/bin/zsh".to_owned(),
            },
            terminal: default_terminal_settings(),
            profiles: Some(
                Profiles {
                    default: "PowerShell".to_owned(),
                    list: vec![
                        Profile {
                            name: "PowerShell".to_owned(),
                            command: "powershell.exe".to_owned(),
                            args: None,
                            font: None,
                            theme: None,
                        },
                        Profile {
                            name: "WSL".to_owned(),
                            command: "wsl.exe".to_owned(),
                            args: None,
                            font: None,
                            theme: None,
                        },
                    ],
                },
            ),
            shortcuts: KeyboardShortcuts::default(),
            window: default_window_config(),
        }
    }
}

impl Config {
    /// Bring a parsed configuration up to the current schema version. A
    /// version-0 file gains the fallback font family and the terminal
    /// settings introduced with version 1; anything current passes through.
    pub fn migrate_config(config: Config) -> (r: Result<Config, String>)
        ensures
            config.version != 0 ==> r == Ok::<Config, String>(config),
            config.version == 0 ==> (r matches Ok(c) && {
                &&& c.version == 1
                &&& c.font.family == config.font.family
                &&& c.font.fallback_family@ == "Consolas, Monaco, monospace"@
                &&& c.font.size == config.font.size
                &&& c.font.line_height_milli == config.font.line_height_milli
                &&& c.theme == config.theme
                &&& c.shell == config.shell
                &&& is_default_terminal(c.terminal)
                &&& c.profiles == config.profiles
                &&& c.shortcuts == config.shortcuts
                &&& c.window == config.window
            }),
    {
        let mut c = config;
        if c.version == 0 {
            c.font.fallback_family = "Consolas, Monaco, monospace".to_owned();
            c.terminal = default_terminal_settings();
            c.version = 1;
        }
        Ok(c)
    }

    /// Lift an unversioned (first-layout) configuration to the current
    /// schema: its font, theme and shell survive; everything the layout did
    /// not know gets the built-in value, and no profiles are invented.
    pub fn migrate_from_v0(v0: ConfigV0) -> (c: Config)
        ensures
            c.version == CURRENT_CONFIG_VERSION,
            c.font == v0.font,
            c.theme == v0.theme,
            c.shell == v0.shell,
            is_default_terminal(c.terminal),
            c.profiles is None,
            is_default_shortcuts(c.shortcuts),
            is_default_window(c.window),
    {
        Config {
            version: CURRENT_CONFIG_VERSION,
            font: v0.font,
            theme: v0.theme,
            shell: v0.shell,
            terminal: default_terminal_settings(),
            profiles: None,
            shortcuts: KeyboardShortcuts::default(),
            window: default_window_config(),
        }
    }
}

} // verus!
