use terminal_emulator::{
    default_background_color, default_border_color, default_border_radius, default_border_width,
    default_headerbar_style, default_height, default_opacity_bits, default_padding, default_title,
    default_width, Config, ConfigFields, ConfigSource, TerminalConfig, TerminalFields,
    WindowConfig, WindowFields,
};

fn no_window_fields() -> WindowFields {
    WindowFields {
        width: None,
        height: None,
        opacity_bits: None,
        headerbar_style: None,
        title: None,
        border_width: None,
        border_color: None,
        border_radius: None,
        padding: None,
    }
}

fn assert_defaults(c: &Config) {
    assert_eq!(c.window.width, 800);
    assert_eq!(c.window.height, 600);
    assert_eq!(f64::from_bits(c.window.opacity_bits), 1.0);
    assert_eq!(c.window.headerbar_style, "standard");
    assert_eq!(c.window.title, "terminal");
    assert_eq!(c.window.border_width, 0);
    assert_eq!(c.window.border_color, "#ffffff");
    assert_eq!(c.window.border_radius, 0);
    assert_eq!(c.window.padding, 0);
    assert_eq!(c.terminal.background_color, "#1e1e1e");
}

#[test]
fn default_values() {
    assert_eq!(default_width(), 800);
    assert_eq!(default_height(), 600);
    assert_eq!(default_opacity_bits(), 1.0f64.to_bits());
    assert_eq!(default_headerbar_style(), "standard");
    assert_eq!(default_title(), "terminal");
    assert_eq!(default_border_width(), 0);
    assert_eq!(default_border_color(), "#ffffff");
    assert_eq!(default_border_radius(), 0);
    assert_eq!(default_padding(), 0);
    assert_eq!(default_background_color(), "#1e1e1e");
}

#[test]
fn default_records() {
    assert_defaults(&Config::default());
    assert_eq!(WindowConfig::default().title, "terminal");
    assert_eq!(TerminalConfig::default().background_color, "#1e1e1e");
}

#[test]
fn file_without_sections_gives_defaults() {
    let c = Config::load(ConfigSource::Parsed(ConfigFields { window: None, terminal: None }));
    assert_defaults(&c);
}

#[test]
fn file_with_empty_sections_gives_defaults() {
    let c = Config::load(ConfigSource::Parsed(ConfigFields {
        window: Some(no_window_fields()),
        terminal: Some(TerminalFields { background_color: None }),
    }));
    assert_defaults(&c);
}

#[test]
fn malformed_file_gives_defaults() {
    assert_defaults(&Config::load(ConfigSource::Malformed));
}

#[test]
fn missing_or_unreadable_file_gives_defaults() {
    assert_defaults(&Config::load(ConfigSource::Missing));
    assert_defaults(&Config::load(ConfigSource::Unreadable));
}

#[test]
fn written_fields_are_kept_and_the_rest_defaulted() {
    let mut w = no_window_fields();
    w.width = Some(1024);
    w.title = Some(String::from("shell"));
    w.border_color = Some(String::from("linear_gradient #111111 #222222"));
    w.opacity_bits = Some(0.5f64.to_bits());
    w.padding = Some(6);
    let c = Config::load(ConfigSource::Parsed(ConfigFields { window: Some(w), terminal: None }));
    assert_eq!(c.window.width, 1024);
    assert_eq!(c.window.height, 600);
    assert_eq!(f64::from_bits(c.window.opacity_bits), 0.5);
    assert_eq!(c.window.headerbar_style, "standard");
    assert_eq!(c.window.title, "shell");
    assert_eq!(c.window.border_width, 0);
    assert_eq!(c.window.border_color, "linear_gradient #111111 #222222");
    assert_eq!(c.window.border_radius, 0);
    assert_eq!(c.window.padding, 6);
    assert_eq!(c.terminal.background_color, "#1e1e1e");
}

#[test]
fn every_written_field_is_kept() {
    let w = WindowFields {
        width: Some(1),
        height: Some(2),
        opacity_bits: Some(0.25f64.to_bits()),
        headerbar_style: Some(String::from("integrated")),
        title: Some(String::from("t")),
        border_width: Some(3),
        border_color: Some(String::from("#010203")),
        border_radius: Some(4),
        padding: Some(5),
    };
    let t = TerminalFields { background_color: Some(String::from("#000000")) };
    let c = Config::from_fields(ConfigFields { window: Some(w), terminal: Some(t) });
    assert_eq!(c.window.width, 1);
    assert_eq!(c.window.height, 2);
    assert_eq!(f64::from_bits(c.window.opacity_bits), 0.25);
    assert_eq!(c.window.headerbar_style, "integrated");
    assert_eq!(c.window.title, "t");
    assert_eq!(c.window.border_width, 3);
    assert_eq!(c.window.border_color, "#010203");
    assert_eq!(c.window.border_radius, 4);
    assert_eq!(c.window.padding, 5);
    assert_eq!(c.terminal.background_color, "#000000");
}

#[test]
fn terminal_section_alone() {
    let t = TerminalFields { background_color: Some(String::from("#202020")) };
    let c = Config::load(ConfigSource::Parsed(ConfigFields { window: None, terminal: Some(t) }));
    assert_eq!(c.terminal.background_color, "#202020");
    assert_eq!(c.window.width, 800);
    assert_eq!(c.window.title, "terminal");
}

#[test]
fn path_of_the_settings_file() {
    assert_eq!(Config::get_config_path(true), vec!["terminal-emulator", "config.toml"]);
    assert_eq!(Config::get_config_path(false), vec!["config.toml"]);
}
