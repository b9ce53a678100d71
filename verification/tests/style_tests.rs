use terminal_emulator::style::rgb_string;
use terminal_emulator::{
    headerbar_css, is_valid_border, terminal_padding_css, window_border_css, window_border_declarations, Color,
    HeaderbarStyle,
};

#[test]
fn names_of_the_integrated_style() {
    assert_eq!(HeaderbarStyle::from_name("integrated"), HeaderbarStyle::Integrated);
    assert_eq!(HeaderbarStyle::from_name("монолитный"), HeaderbarStyle::Integrated);
}

#[test]
fn every_other_name_is_the_standard_style() {
    assert_eq!(HeaderbarStyle::from_name("standard"), HeaderbarStyle::Standard);
    assert_eq!(HeaderbarStyle::from_name("стандартный"), HeaderbarStyle::Standard);
    assert_eq!(HeaderbarStyle::from_name(""), HeaderbarStyle::Standard);
    assert_eq!(HeaderbarStyle::from_name("Integrated"), HeaderbarStyle::Standard);
    assert_eq!(HeaderbarStyle::from_name(" integrated"), HeaderbarStyle::Standard);
    assert_eq!(HeaderbarStyle::from_name("integrated2"), HeaderbarStyle::Standard);
    assert_eq!(HeaderbarStyle::from_name("monolithic"), HeaderbarStyle::Standard);
}

#[test]
fn writes_rgb_notation() {
    assert_eq!(rgb_string(Color { red: 30, green: 0, blue: 255 }), "rgb(30, 0, 255)");
}

#[test]
fn integrated_headerbar_takes_the_background_color() {
    let expected = "headerbar { \n                        background-color: rgb(30, 30, 30);\n                        background-image: none;\n                        border: none;\n                        box-shadow: none;\n                        color: rgba(255, 255, 255, 0.9);\n                    }\n                    headerbar button {\n                        color: rgba(255, 255, 255, 0.9);\n                    }";
    assert_eq!(headerbar_css("integrated", "#1e1e1e"), Some(String::from(expected)));
    assert_eq!(headerbar_css("монолитный", " #1E1E1E "), Some(String::from(expected)));
}

#[test]
fn other_styles_give_no_headerbar_fragment() {
    assert_eq!(headerbar_css("standard", "#1e1e1e"), None);
    assert_eq!(headerbar_css("стандартный", "#1e1e1e"), None);
    assert_eq!(headerbar_css("", "#1e1e1e"), None);
    assert_eq!(headerbar_css("INTEGRATED", "#1e1e1e"), None);
    assert_eq!(headerbar_css("fancy", "#1e1e1e"), None);
}

#[test]
fn integrated_headerbar_with_malformed_color_gives_no_fragment() {
    assert_eq!(headerbar_css("integrated", "1e1e1e"), None);
    assert_eq!(headerbar_css("integrated", "#1e1e1g"), None);
}

#[test]
fn no_border_and_no_radius_give_no_declarations() {
    assert!(window_border_declarations(0, "#ffffff", 0, "#1e1e1e").is_empty());
    assert!(window_border_declarations(0, "nonsense", 0, "nonsense").is_empty());
    assert!(window_border_declarations(0, "linear_gradient #111111", 0, "#1e1e1e").is_empty());
    assert!(window_border_declarations(-3, "#ffffff", -1, "#1e1e1e").is_empty());
    assert_eq!(window_border_css(0, "#ffffff", 0, "#1e1e1e"), None);
    assert_eq!(window_border_css(0, "nonsense", 0, ""), None);
    assert_eq!(window_border_css(-1, "#ffffff", i32::MIN, "#1e1e1e"), None);
}

#[test]
fn radius_alone() {
    assert_eq!(window_border_declarations(0, "#ffffff", 12, "#1e1e1e"), vec!["border-radius: 12px;"]);
    assert_eq!(
        window_border_css(0, "#ffffff", 12, "#1e1e1e"),
        Some(String::from("window {\n    border-radius: 12px;\n}"))
    );
}

#[test]
fn solid_border() {
    assert_eq!(
        window_border_declarations(2, "#ff8000", 0, "#1e1e1e"),
        vec!["border: 2px solid rgb(255, 128, 0);"]
    );
    assert_eq!(
        window_border_css(2, "#ff8000", 8, "#1e1e1e"),
        Some(String::from(
            "window {\n    border-radius: 8px;\n    border: 2px solid rgb(255, 128, 0);\n}"
        ))
    );
    assert_eq!(
        window_border_css(i32::MAX, "#000000", i32::MAX, "#1e1e1e"),
        Some(String::from(
            "window {\n    border-radius: 2147483647px;\n    border: 2147483647px solid rgb(0, 0, 0);\n}"
        ))
    );
}

#[test]
fn gradient_border_is_drawn_as_two_layers() {
    assert_eq!(
        window_border_declarations(3, "linear_gradient to right bottom #111111 #222222", 0, "#1e1e1e"),
        vec![
            "border: 3px solid transparent;",
            "background: linear-gradient(rgb(30, 30, 30), rgb(30, 30, 30)) padding-box, linear-gradient(to right bottom, #111111, #222222) border-box;",
        ]
    );
    assert_eq!(
        window_border_css(1, "  linear_gradient #ff0000 #0000ff", 10, "#102030"),
        Some(String::from(
            "window {\n    border-radius: 10px;\n    border: 1px solid transparent;\n    background: linear-gradient(rgb(16, 32, 48), rgb(16, 32, 48)) padding-box, linear-gradient(#ff0000, #0000ff) border-box;\n}"
        ))
    );
}

#[test]
fn gradient_border_over_malformed_background_uses_dark_grey() {
    assert_eq!(
        window_border_declarations(3, "linear_gradient #111111 #222222", 0, "black"),
        vec![
            "border: 3px solid transparent;",
            "background: linear-gradient(rgb(30, 30, 30), rgb(30, 30, 30)) padding-box, linear-gradient(#111111, #222222) border-box;",
        ]
    );
}

#[test]
fn malformed_border_text_is_skipped_and_radius_kept() {
    assert_eq!(window_border_declarations(2, "red", 5, "#1e1e1e"), vec!["border-radius: 5px;"]);
    assert_eq!(window_border_declarations(2, "linear_gradient to left", 5, "#1e1e1e"), vec!["border-radius: 5px;"]);
    assert!(window_border_declarations(2, "#12345", 0, "#1e1e1e").is_empty());
    assert_eq!(window_border_css(2, "linear_gradient", 0, "#1e1e1e"), None);
}

#[test]
fn padding_fragment() {
    assert_eq!(terminal_padding_css(8), Some(String::from("vte-terminal {\n    padding: 8px;\n}")));
    assert_eq!(terminal_padding_css(120), Some(String::from("vte-terminal {\n    padding: 120px;\n}")));
    assert_eq!(terminal_padding_css(0), None);
    assert_eq!(terminal_padding_css(-4), None);
}

#[test]
fn tells_drawable_border_texts() {
    assert!(is_valid_border("#ffffff"));
    assert!(is_valid_border("  #FFFFFF "));
    assert!(is_valid_border("linear_gradient #111111 #222222"));
    assert!(is_valid_border(" linear_gradient to left #111111"));
    assert!(is_valid_border("linear_gradient #zz"));
    assert!(!is_valid_border("white"));
    assert!(!is_valid_border("#fffff"));
    assert!(!is_valid_border("linear_gradient"));
    assert!(!is_valid_border("linear_gradient to left"));
    assert!(!is_valid_border(""));
}

#[test]
fn border_is_declared_exactly_for_drawable_texts() {
    let texts = ["#ffffff", "white", "linear_gradient #1 #2", "linear_gradient to top", ""];
    for text in texts {
        let with_radius = window_border_declarations(2, text, 4, "#1e1e1e");
        let without = window_border_declarations(2, text, 0, "#1e1e1e");
        assert_eq!(with_radius[0], "border-radius: 4px;");
        assert_eq!(with_radius.len(), without.len() + 1);
        assert_eq!(!without.is_empty(), is_valid_border(text));
    }
}
