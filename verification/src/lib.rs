//! Settings and styling core of a desktop terminal emulator: the settings
//! record with its defaults, the `#RRGGBB` colour parser, the
//! `linear_gradient` parser and the stylesheet fragments built from them.

pub mod color;
pub mod config;
pub mod gradient;
pub mod style;
pub mod text;

pub use color::{parse_color, Color, ColorError};
pub use config::{
    default_background_color, default_border_color, default_border_radius, default_border_width,
    default_headerbar_style, default_height, default_opacity_bits, default_padding, default_title,
    default_width, Config, ConfigFields, ConfigSource, TerminalConfig, TerminalFields,
    WindowConfig, WindowFields,
};
pub use gradient::{parse_gradient, GradientDirective};
pub use style::{
    headerbar_css, is_valid_border, terminal_padding_css, window_border_css,
    window_border_declarations, HeaderbarStyle,
};
