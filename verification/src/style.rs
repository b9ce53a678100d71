//! The stylesheet fragments built from the settings: the header bar, the
//! window border and the inner padding of the terminal. Each builder returns
//! the text of one fragment, or nothing where the settings ask for none.

use vstd::prelude::*;
use crate::color::{color_of, parse_color, Color};
use crate::gradient::{gradient_of, keyword, parse_gradient, rendered};
use crate::text::{decimal, decimal_string, join, joined, same_text, starts_with, trim, trimmed, views};

verus! {

/// How the title area of the window is drawn.
#[derive(Clone, Copy, Debug, PartialEq, Eq, Structural)]
pub enum HeaderbarStyle {
    /// The title bar of the platform.
    Standard,
    /// A header bar in the colour of the terminal.
    Integrated,
}

/// The style that a name stands for. The integrated style has two names;
/// every other name, known or not, stands for the standard style.
pub open spec fn style_of(name: Seq<char>) -> HeaderbarStyle {
    if name == "integrated"@ || name == "монолитный"@ {
        HeaderbarStyle::Integrated
    } else {
        HeaderbarStyle::Standard
    }
}

/// A colour in the stylesheet's `rgb(r, g, b)` notation.
pub open spec fn rgb_text(c: Color) -> Seq<char> {
    "rgb("@ + decimal(c.red as nat) + ", "@ + decimal(c.green as nat) + ", "@ + decimal(
        c.blue as nat,
    ) + ")"@
}

/// The rules that recolour the header bar and its buttons.
pub open spec fn headerbar_rules(background: Color) -> Seq<char> {
    "headerbar { \n                        background-color: "@ + rgb_text(background)
        + ";\n                        background-image: none;\n                        border: none;\n                        box-shadow: none;\n                        color: rgba(255, 255, 255, 0.9);\n                    }\n                    headerbar button {\n                        color: rgba(255, 255, 255, 0.9);\n                    }"@
}

/// The header-bar fragment for a style name and the terminal's background
/// colour: the recolouring rules where the name stands for the integrated
/// style and the colour is well formed, else nothing.
pub open spec fn headerbar_sheet(style: Seq<char>, background: Seq<char>) -> Option<Seq<char>> {
    match (style_of(style), color_of(background)) {
        (HeaderbarStyle::Integrated, Ok(c)) => Some(headerbar_rules(c)),
        _ => None,
    }
}

/// The fill under a gradient border: the window's background colour, or a
/// dark grey where that colour is malformed.
pub open spec fn window_fill(background: Seq<char>) -> Seq<char> {
    match color_of(background) {
        Ok(c) => rgb_text(c),
        Err(_) => "rgb(30, 30, 30)"@,
    }
}

/// The radius declaration: one line for a positive radius, else none.
pub open spec fn radius_declarations(radius: int) -> Seq<Seq<char>> {
    if radius > 0 {
        seq!["border-radius: "@ + decimal(radius as nat) + "px;"@]
    } else {
        Seq::empty()
    }
}

/// Whether a border text can be drawn: a text that begins with the gradient
/// keyword has to be a gradient, any other text a colour.
pub open spec fn is_border_text(border: Seq<char>) -> bool {
    if keyword().is_prefix_of(trimmed(border)) {
        gradient_of(border) is Some
    } else {
        color_of(border) is Ok
    }
}

/// The border declarations. A width that is not positive gives none. A
/// border text that begins with the gradient keyword gives a transparent
/// border over two background layers, the fill clipped to the padding box
/// and the gradient clipped to the border box; a colour gives one solid
/// border. A malformed border text gives none.
pub open spec fn border_declarations(width: int, border: Seq<char>, background: Seq<char>) -> Seq<
    Seq<char>,
> {
    if width <= 0 {
        Seq::empty()
    } else if keyword().is_prefix_of(trimmed(border)) {
        match gradient_of(border) {
            Some(g) => seq![
                "border: "@ + decimal(width as nat) + "px solid transparent;"@,
                "background: linear-gradient("@ + window_fill(background) + ", "@ + window_fill(
                    background,
                ) + ") padding-box, "@ + rendered(g) + " border-box;"@,
            ],
            None => Seq::empty(),
        }
    } else {
        match color_of(border) {
            Ok(c) => seq!["border: "@ + decimal(width as nat) + "px solid "@ + rgb_text(c) + ";"@],
            Err(_) => Seq::empty(),
        }
    }
}

/// The declarations of the window rule, in order: radius first, then border.
pub open spec fn window_declarations(
    width: int,
    border: Seq<char>,
    radius: int,
    background: Seq<char>,
) -> Seq<Seq<char>> {
    radius_declarations(radius) + border_declarations(width, border, background)
}

/// The window fragment: nothing where there are no declarations, else one
/// rule that holds them, a line each.
pub open spec fn window_sheet(declarations: Seq<Seq<char>>) -> Option<Seq<char>> {
    if declarations.len() == 0 {
        None
    } else {
        Some("window {\n    "@ + joined(declarations, "\n    "@) + "\n}"@)
    }
}

/// The padding fragment: one rule for a positive padding, else nothing.
pub open spec fn padding_sheet(padding: int) -> Option<Seq<char>> {
    if padding > 0 {
        Some("vte-terminal {\n    padding: "@ + decimal(padding as nat) + "px;\n}"@)
    } else {
        None
    }
}

/// With neither a positive width nor a positive radius the window rule has
/// no declaration and the window fragment is empty, whatever the colour
/// texts hold.
pub proof fn lemma_no_border_no_declarations(
    width: int,
    border: Seq<char>,
    radius: int,
    background: Seq<char>,
)
    requires
        width <= 0,
        radius <= 0,
    ensures
        window_declarations(width, border, radius, background).len() == 0,
        window_sheet(window_declarations(width, border, radius, background)) is None,
{
}

/// The radius declaration is there whenever the radius is positive, also
/// beside a malformed border text.
pub proof fn lemma_radius_survives_border(
    width: int,
    border: Seq<char>,
    radius: int,
    background: Seq<char>,
)
    requires
        radius > 0,
    ensures
        window_declarations(width, border, radius, background).len() >= 1,
        window_declarations(width, border, radius, background)[0] == radius_declarations(radius)[0],
{
}

/// A border of positive width is declared exactly when its text can be
/// drawn, whatever the radius and the background hold.
pub proof fn lemma_border_drawn_iff_well_formed(
    width: int,
    border: Seq<char>,
    radius: int,
    background: Seq<char>,
)
    requires
        width > 0,
    ensures
        border_declarations(width, border, background).len() > 0 <==> is_border_text(border),
        window_declarations(width, border, radius, background).len() > radius_declarations(
            radius,
        ).len() <==> is_border_text(border),
{
}

/// A name that is neither of the two names of the integrated style gives no
/// header-bar fragment.
pub proof fn lemma_only_integrated_styles_recolor(style: Seq<char>, background: Seq<char>)
    requires
        style != "integrated"@,
        style != "монолитный"@,
    ensures
        headerbar_sheet(style, background) is None,
{
}

impl HeaderbarStyle {
    /// The style that `name` stands for.
    pub fn from_name(name: &str) -> (style: HeaderbarStyle)
        ensures
            style == style_of(name@),
    {
        if same_text(name, "integrated") || same_text(name, "монолитный") {
            HeaderbarStyle::Integrated
        } else {
            HeaderbarStyle::Standard
        }
    }
}

/// Writes a colour in the stylesheet's `rgb(r, g, b)` notation.
pub fn rgb_string(c: Color) -> (s: String)
    ensures
        s@ == rgb_text(c),
{
    let mut s = String::from_str("rgb(");
    s.append(decimal_string(c.red as u32).as_str());
    s.append(", ");
    s.append(decimal_string(c.green as u32).as_str());
    s.append(", ");
    s.append(decimal_string(c.blue as u32).as_str());
    s.append(")");
    s
}

/// Builds the header-bar fragment for the style named `style` and the
/// terminal's background colour `background`.
pub fn headerbar_css(style: &str, background: &str) -> (css: Option<String>)
    ensures
        match css {
            Some(s) => headerbar_sheet(style@, background@) == Some(s@),
            None => headerbar_sheet(style@, background@) is None,
        },
        style_of(style@) != HeaderbarStyle::Integrated ==> css is None,
{
    match HeaderbarStyle::from_name(style) {
        HeaderbarStyle::Standard => None,
        HeaderbarStyle::Integrated => match parse_color(background) {
            Err(_) => None,
            Ok(c) => {
                let mut s = String::from_str(
                    "headerbar { \n                        background-color: ",
                );
                s.append(rgb_string(c).as_str());
                s.append(
                    ";\n                        background-image: none;\n                        border: none;\n                        box-shadow: none;\n                        color: rgba(255, 255, 255, 0.9);\n                    }\n                    headerbar button {\n                        color: rgba(255, 255, 255, 0.9);\n                    }",
                );
                Some(s)
            },
        },
    }
}

/// Tests whether a border text can be drawn, as a gradient where it begins
/// with the gradient keyword and as a colour where it does not.
pub fn is_valid_border(border_color: &str) -> (valid: bool)
    ensures
        valid == is_border_text(border_color@),
{
    if starts_with(trim(border_color), "linear_gradient") {
        parse_gradient(border_color).is_some()
    } else {
        parse_color(border_color).is_ok()
    }
}

/// Writes the fill under a gradient border.
fn window_fill_string(background: &str) -> (s: String)
    ensures
        s@ == window_fill(background@),
{
    match parse_color(background) {
        Ok(c) => rgb_string(c),
        Err(_) => String::from_str("rgb(30, 30, 30)"),
    }
}

/// Builds the declarations of the window rule from the border width, the
/// border text (a colour or a gradient), the corner radius and the window's
/// background colour.
pub fn window_border_declarations(
    border_width: i32,
    border_color: &str,
    border_radius: i32,
    background: &str,
) -> (declarations: Vec<String>)
    ensures
        views(declarations@) == window_declarations(
            border_width as int,
            border_color@,
            border_radius as int,
            background@,
        ),
        border_width <= 0 && border_radius <= 0 ==> declarations@.len() == 0,
{
    let mut declarations: Vec<String> = Vec::new();
    if border_radius > 0 {
        let mut line = String::from_str("border-radius: ");
        line.append(decimal_string(border_radius as u32).as_str());
        line.append("px;");
        declarations.push(line);
    }
    assert(views(declarations@) =~= radius_declarations(border_radius as int));
    if border_width > 0 {
        if starts_with(trim(border_color), "linear_gradient") {
            match parse_gradient(border_color) {
                Some(gradient) => {
                    let fill = window_fill_string(background);
                    let mut edge = String::from_str("border: ");
                    edge.append(decimal_string(border_width as u32).as_str());
                    edge.append("px solid transparent;");
                    let mut layers = String::from_str("background: linear-gradient(");
                    layers.append(fill.as_str());
                    layers.append(", ");
                    layers.append(fill.as_str());
                    layers.append(") padding-box, ");
                    layers.append(gradient.render().as_str());
                    layers.append(" border-box;");
                    declarations.push(edge);
                    declarations.push(layers);
                },
                None => {},
            }
        } else {
            match parse_color(border_color) {
                Ok(c) => {
                    let mut edge = String::from_str("border: ");
                    edge.append(decimal_string(border_width as u32).as_str());
                    edge.append("px solid ");
                    edge.append(rgb_string(c).as_str());
                    edge.append(";");
                    declarations.push(edge);
                },
                Err(_) => {},
            }
        }
    }
    assert(views(declarations@) =~= window_declarations(
        border_width as int,
        border_color@,
        border_radius as int,
        background@,
    ));
    declarations
}

/// Builds the window fragment: the rule that holds the declarations of
/// `window_border_declarations`, or nothing where there are none.
pub fn window_border_css(
    border_width: i32,
    border_color: &str,
    border_radius: i32,
    background: &str,
) -> (css: Option<String>)
    ensures
        match css {
            Some(s) => window_sheet(
                window_declarations(
                    border_width as int,
                    border_color@,
                    border_radius as int,
                    background@,
                ),
            ) == Some(s@),
            None => window_sheet(
                window_declarations(
                    border_width as int,
                    border_color@,
                    border_radius as int,
                    background@,
                ),
            ) is None,
        },
        border_width <= 0 && border_radius <= 0 ==> css is None,
{
    let declarations = window_border_declarations(
        border_width,
        border_color,
        border_radius,
        background,
    );
    if declarations.len() == 0 {
        None
    } else {
        let mut s = String::from_str("window {\n    ");
        s.append(join(&declarations, "\n    ").as_str());
        s.append("\n}");
        Some(s)
    }
}

/// Builds the padding fragment of the terminal for a padding in pixels.
pub fn terminal_padding_css(padding: i32) -> (css: Option<String>)
    ensures
        match css {
            Some(s) => padding_sheet(padding as int) == Some(s@),
            None => padding_sheet(padding as int) is None,
        },
{
    if padding > 0 {
        let mut s = String::from_str("vte-terminal {\n    padding: ");
        s.append(decimal_string(padding as u32).as_str());
        s.append("px;\n}");
        Some(s)
    } else {
        None
    }
}

} // verus!
