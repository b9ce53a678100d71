//! The settings of the terminal window: the record, its defaults, and how a
//! settings file that names only some of the fields, or that cannot be used
//! at all, becomes a complete record.

use vstd::prelude::*;
use crate::text::views;

verus! {

/// Appearance of the window.
#[derive(Debug, Clone)]
pub struct WindowConfig {
    /// Width in pixels.
    pub width: i32,
    /// Height in pixels.
    pub height: i32,
    /// Opacity between zero and one, held as the bit pattern of its IEEE 754
    /// binary64 value.
    pub opacity_bits: u64,
    /// Name of the header-bar style.
    pub headerbar_style: String,
    /// Title of the window.
    pub title: String,
    /// Width of the border in pixels; no border unless positive.
    pub border_width: i32,
    /// Border colour or gradient.
    pub border_color: String,
    /// Corner radius in pixels; square corners unless positive.
    pub border_radius: i32,
    /// Inner padding of the terminal in pixels; none unless positive.
    pub padding: i32,
}

/// Appearance of the terminal.
#[derive(Debug, Clone)]
pub struct TerminalConfig {
    /// Background colour.
    pub background_color: String,
}

/// All settings.
#[derive(Debug, Clone)]
pub struct Config {
    pub window: WindowConfig,
    pub terminal: TerminalConfig,
}

/// What a `WindowConfig` holds, as plain values.
pub struct WindowSettings {
    pub width: int,
    pub height: int,
    pub opacity_bits: int,
    pub headerbar_style: Seq<char>,
    pub title: Seq<char>,
    pub border_width: int,
    pub border_color: Seq<char>,
    pub border_radius: int,
    pub padding: int,
}

/// What a `TerminalConfig` holds, as plain values.
pub struct TerminalSettings {
    pub background_color: Seq<char>,
}

/// What a `Config` holds, as plain values.
pub struct Settings {
    pub window: WindowSettings,
    pub terminal: TerminalSettings,
}

impl View for WindowConfig {
    type V = WindowSettings;

    open spec fn view(&self) -> WindowSettings {
        WindowSettings {
            width: self.width as int,
            height: self.height as int,
            opacity_bits: self.opacity_bits as int,
            headerbar_style: self.headerbar_style@,
            title: self.title@,
            border_width: self.border_width as int,
            border_color: self.border_color@,
            border_radius: self.border_radius as int,
            padding: self.padding as int,
        }
    }
}

impl View for TerminalConfig {
    type V = TerminalSettings;

    open spec fn view(&self) -> TerminalSettings {
        TerminalSettings { background_color: self.background_color@ }
    }
}

impl View for Config {
    type V = Settings;

    open spec fn view(&self) -> Settings {
        Settings { window: self.window@, terminal: self.terminal@ }
    }
}

/// The window section of a settings file: each field as written, or `None`
/// where the file does not name it.
#[derive(Debug, Clone)]
pub struct WindowFields {
    pub width: Option<i32>,
    pub height: Option<i32>,
    pub opacity_bits: Option<u64>,
    pub headerbar_style: Option<String>,
    pub title: Option<String>,
    pub border_width: Option<i32>,
    pub border_color: Option<String>,
    pub border_radius: Option<i32>,
    pub padding: Option<i32>,
}

/// The terminal section of a settings file.
#[derive(Debug, Clone)]
pub struct TerminalFields {
    pub background_color: Option<String>,
}

/// A settings file: each section as written, or `None` where the file does
/// not hold it.
#[derive(Debug, Clone)]
pub struct ConfigFields {
    pub window: Option<WindowFields>,
    pub terminal: Option<TerminalFields>,
}

/// What became of the attempt to read the settings file.
#[derive(Debug, Clone)]
pub enum ConfigSource {
    /// There is no file.
    Missing,
    /// The file could not be read.
    Unreadable,
    /// The file's text is not well formed.
    Malformed,
    /// The file was read and holds these fields.
    Parsed(ConfigFields),
}

/// The bit pattern of the binary64 value one.
pub open spec fn full_opacity_bits() -> int {
    0x3FF0_0000_0000_0000
}

/// The window settings used where nothing is configured.
pub open spec fn default_window_settings() -> WindowSettings {
    WindowSettings {
        width: 800,
        height: 600,
        opacity_bits: full_opacity_bits(),
        headerbar_style: "standard"@,
        title: "terminal"@,
        border_width: 0,
        border_color: "#ffffff"@,
        border_radius: 0,
        padding: 0,
    }
}

/// The terminal settings used where nothing is configured.
pub open spec fn default_terminal_settings() -> TerminalSettings {
    TerminalSettings { background_color: "#1e1e1e"@ }
}

/// The settings used where nothing is configured.
pub open spec fn default_settings() -> Settings {
    Settings { window: default_window_settings(), terminal: default_terminal_settings() }
}

/// A number as written, or its default.
pub open spec fn number_or<T: Integer>(field: Option<T>, default: int) -> int {
    match field {
        Some(v) => v as int,
        None => default,
    }
}

/// A text as written, or its default.
pub open spec fn text_or(field: Option<String>, default: Seq<char>) -> Seq<char> {
    match field {
        Some(v) => v@,
        None => default,
    }
}

/// The window settings that a window section stands for: each field as
/// written, and the default of each field that is not.
pub open spec fn window_settings_of(f: WindowFields) -> WindowSettings {
    let d = default_window_settings();
    WindowSettings {
        width: number_or(f.width, d.width),
        height: number_or(f.height, d.height),
        opacity_bits: number_or(f.opacity_bits, d.opacity_bits),
        headerbar_style: text_or(f.headerbar_style, d.headerbar_style),
        title: text_or(f.title, d.title),
        border_width: number_or(f.border_width, d.border_width),
        border_color: text_or(f.border_color, d.border_color),
        border_radius: number_or(f.border_radius, d.border_radius),
        padding: number_or(f.padding, d.padding),
    }
}

/// The terminal settings that a terminal section stands for.
pub open spec fn terminal_settings_of(f: TerminalFields) -> TerminalSettings {
    TerminalSettings {
        background_color: text_or(f.background_color, default_terminal_settings().background_color),
    }
}

/// The settings that a file stands for; a section that is not there counts
/// as one without fields.
pub open spec fn settings_of(f: ConfigFields) -> Settings {
    Settings {
        window: match f.window {
            Some(w) => window_settings_of(w),
            None => default_window_settings(),
        },
        terminal: match f.terminal {
            Some(t) => terminal_settings_of(t),
            None => default_terminal_settings(),
        },
    }
}

/// The settings in force after an attempt to read the file: those of the
/// file where it was read, the defaults in every other case.
pub open spec fn loaded_settings(source: ConfigSource) -> Settings {
    match source {
        ConfigSource::Parsed(f) => settings_of(f),
        _ => default_settings(),
    }
}

/// Whether a window section names no field.
pub open spec fn names_no_window_field(f: WindowFields) -> bool {
    &&& f.width is None
    &&& f.height is None
    &&& f.opacity_bits is None
    &&& f.headerbar_style is None
    &&& f.title is None
    &&& f.border_width is None
    &&& f.border_color is None
    &&& f.border_radius is None
    &&& f.padding is None
}

/// Whether a file names no field at all: each section is absent or empty.
pub open spec fn names_no_field(f: ConfigFields) -> bool {
    &&& f.window is Some ==> names_no_window_field(f.window.unwrap())
    &&& f.terminal is Some ==> f.terminal.unwrap().background_color is None
}

/// Where the settings file lies: below a directory `terminal-emulator` of
/// the platform's configuration directory, or, without such a directory, in
/// the working directory. The path is given by its components.
pub open spec fn config_path(config_dir_found: bool) -> Seq<Seq<char>> {
    if config_dir_found {
        seq!["terminal-emulator"@, "config.toml"@]
    } else {
        seq!["config.toml"@]
    }
}

/// A file that names no field stands for exactly the default settings.
pub proof fn lemma_empty_file_gives_defaults(f: ConfigFields)
    requires
        names_no_field(f),
    ensures
        settings_of(f) == default_settings(),
        loaded_settings(ConfigSource::Parsed(f)) == default_settings(),
{
}

/// A file that is missing, unreadable or malformed leaves the default
/// settings in force.
pub proof fn lemma_failed_read_gives_defaults(source: ConfigSource)
    requires
        !(source is Parsed),
    ensures
        loaded_settings(source) == default_settings(),
{
}

/// A field that the file names is taken as written, whatever else the file
/// holds.
pub proof fn lemma_written_fields_are_kept(f: ConfigFields)
    ensures
        f.window is Some ==> {
            let w = f.window.unwrap();
            let r = settings_of(f).window;
            &&& w.width is Some ==> r.width == w.width.unwrap()
            &&& w.height is Some ==> r.height == w.height.unwrap()
            &&& w.opacity_bits is Some ==> r.opacity_bits == w.opacity_bits.unwrap()
            &&& w.headerbar_style is Some ==> r.headerbar_style == w.headerbar_style.unwrap()@
            &&& w.title is Some ==> r.title == w.title.unwrap()@
            &&& w.border_width is Some ==> r.border_width == w.border_width.unwrap()
            &&& w.border_color is Some ==> r.border_color == w.border_color.unwrap()@
            &&& w.border_radius is Some ==> r.border_radius == w.border_radius.unwrap()
            &&& w.padding is Some ==> r.padding == w.padding.unwrap()
        },
        f.terminal is Some && f.terminal.unwrap().background_color is Some ==> settings_of(
            f,
        ).terminal.background_color == f.terminal.unwrap().background_color.unwrap()@,
{
}

/// Default width of the window in pixels.
pub fn default_width() -> (width: i32)
    ensures
        width == default_window_settings().width,
        width == 800,
{
    800
}

/// Default height of the window in pixels.
pub fn default_height() -> (height: i32)
    ensures
        height == default_window_settings().height,
        height == 600,
{
    600
}

/// Default opacity: the bit pattern of the binary64 value one.
pub fn default_opacity_bits() -> (bits: u64)
    ensures
        bits == full_opacity_bits(),
{
    0x3FF0_0000_0000_0000
}

/// Default header-bar style: `standard`.
pub fn default_headerbar_style() -> (style: String)
    ensures
        style@ == default_window_settings().headerbar_style,
{
    String::from_str("standard")
}

/// Default title: `terminal`.
pub fn default_title() -> (title: String)
    ensures
        title@ == default_window_settings().title,
{
    String::from_str("terminal")
}

/// Default border width: no border.
pub fn default_border_width() -> (width: i32)
    ensures
        width == default_window_settings().border_width,
        width == 0,
{
    0
}

/// Default border colour: white.
pub fn default_border_color() -> (color: String)
    ensures
        color@ == default_window_settings().border_color,
{
    String::from_str("#ffffff")
}

/// Default corner radius: square corners.
pub fn default_border_radius() -> (radius: i32)
    ensures
        radius == default_window_settings().border_radius,
        radius == 0,
{
    0
}

/// Default inner padding: none.
pub fn default_padding() -> (padding: i32)
    ensures
        padding == default_window_settings().padding,
        padding == 0,
{
    0
}

/// Default background colour of the terminal: a dark grey.
pub fn default_background_color() -> (color: String)
    ensures
        color@ == default_terminal_settings().background_color,
{
    String::from_str("#1e1e1e")
}

impl Default for WindowConfig {
    fn default() -> (config: Self)
        ensures
            config@ == default_window_settings(),
    {
        WindowConfig {
            width: default_width(),
            height: default_height(),
            opacity_bits: default_opacity_bits(),
            headerbar_style: default_headerbar_style(),
            title: default_title(),
            border_width: default_border_width(),
            border_color: default_border_color(),
            border_radius: default_border_radius(),
            padding: default_padding(),
        }
    }
}

impl Default for TerminalConfig {
    fn default() -> (config: Self)
        ensures
            config@ == default_terminal_settings(),
    {
        TerminalConfig { background_color: default_background_color() }
    }
}

impl Default for Config {
    fn default() -> (config: Self)
        ensures
            config@ == default_settings(),
    {
        Config { window: WindowConfig::default(), terminal: TerminalConfig::default() }
    }
}

impl WindowConfig {
    /// Completes a window section: each field as written, and the default of
    /// each field that is not.
    pub fn from_fields(fields: WindowFields) -> (config: Self)
        ensures
            config@ == window_settings_of(fields),
    {
        WindowConfig {
            width: match fields.width {
                Some(v) => v,
                None => default_width(),
            },
            height: match fields.height {
                Some(v) => v,
                None => default_height(),
            },
            opacity_bits: match fields.opacity_bits {
                Some(v) => v,
                None => default_opacity_bits(),
            },
            headerbar_style: match fields.headerbar_style {
                Some(v) => v,
                None => default_headerbar_style(),
            },
            title: match fields.title {
                Some(v) => v,
                None => default_title(),
            },
            border_width: match fields.border_width {
                Some(v) => v,
                None => default_border_width(),
            },
            border_color: match fields.border_color {
                Some(v) => v,
                None => default_border_color(),
            },
            border_radius: match fields.border_radius {
                Some(v) => v,
                None => default_border_radius(),
            },
            padding: match fields.padding {
                Some(v) => v,
                None => default_padding(),
            },
        }
    }
}

impl TerminalConfig {
    /// Completes a terminal section.
    pub fn from_fields(fields: TerminalFields) -> (config: Self)
        ensures
            config@ == terminal_settings_of(fields),
    {
        TerminalConfig {
            background_color: match fields.background_color {
                Some(v) => v,
                None => default_background_color(),
            },
        }
    }
}

impl Config {
    /// Completes the fields of a settings file.
    pub fn from_fields(fields: ConfigFields) -> (config: Self)
        ensures
            config@ == settings_of(fields),
    {
        Config {
            window: match fields.window {
                Some(w) => WindowConfig::from_fields(w),
                None => WindowConfig::default(),
            },
            terminal: match fields.terminal {
                Some(t) => TerminalConfig::from_fields(t),
                None => TerminalConfig::default(),
            },
        }
    }

    /// The settings in force after an attempt to read the settings file. A
    /// file that was read gives its settings, completed by the defaults; a
    /// missing, unreadable or malformed file gives the defaults. There is no
    /// failure.
    pub fn load(source: ConfigSource) -> (config: Self)
        ensures
            config@ == loaded_settings(source),
    {
        match source {
            ConfigSource::Parsed(fields) => Config::from_fields(fields),
            ConfigSource::Missing => Config::default(),
            ConfigSource::Unreadable => Config::default(),
            ConfigSource::Malformed => Config::default(),
        }
    }

    /// The components of the path of the settings file, outermost first. With
    /// `config_dir_found` they lead from the platform's configuration
    /// directory, else from the working directory.
    pub fn get_config_path(config_dir_found: bool) -> (components: Vec<String>)
        ensures
            views(components@) == config_path(config_dir_found),
    {
        let mut components: Vec<String> = Vec::new();
        if config_dir_found {
            components.push(String::from_str("terminal-emulator"));
        }
        components.push(String::from_str("config.toml"));
        assert(views(components@) =~= config_path(config_dir_found));
        components
    }
}

} // verus!
