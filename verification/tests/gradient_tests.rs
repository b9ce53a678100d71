use terminal_emulator::{parse_gradient, GradientDirective};

fn texts(v: &[&str]) -> Vec<String> {
    v.iter().map(|s| s.to_string()).collect()
}

#[test]
fn parses_direction_and_colors() {
    let g = parse_gradient("linear_gradient to right bottom #111111 #222222").unwrap();
    assert_eq!(g.direction, Some(String::from("to right bottom")));
    assert_eq!(g.colors, texts(&["#111111", "#222222"]));
    assert_eq!(g.render(), "linear-gradient(to right bottom, #111111, #222222)");
}

#[test]
fn parses_colors_without_direction() {
    let g = parse_gradient("linear_gradient #111111 #222222").unwrap();
    assert_eq!(g.direction, None);
    assert_eq!(g.colors, texts(&["#111111", "#222222"]));
    assert_eq!(g.render(), "linear-gradient(#111111, #222222)");
}

#[test]
fn keyword_alone_is_no_gradient() {
    assert!(parse_gradient("linear_gradient").is_none());
    assert!(parse_gradient("  linear_gradient   ").is_none());
}

#[test]
fn other_keyword_is_no_gradient() {
    assert!(parse_gradient("not_a_gradient ...").is_none());
    assert!(parse_gradient("not_a_gradient #111111 #222222").is_none());
    assert!(parse_gradient("linear-gradient #111111 #222222").is_none());
    assert!(parse_gradient("Linear_gradient #111111").is_none());
    assert!(parse_gradient("#111111 linear_gradient").is_none());
    assert!(parse_gradient("").is_none());
}

#[test]
fn direction_without_colors_is_no_gradient() {
    assert!(parse_gradient("linear_gradient to right").is_none());
    assert!(parse_gradient("linear_gradient to").is_none());
    assert!(parse_gradient("linear_gradient right left").is_none());
}

#[test]
fn ignores_whitespace_around_and_between() {
    let g = parse_gradient("\t linear_gradient   to\tleft \n #abc   #def  ").unwrap();
    assert_eq!(g.direction, Some(String::from("to left")));
    assert_eq!(g.colors, texts(&["#abc", "#def"]));
    assert_eq!(g.render(), "linear-gradient(to left, #abc, #def)");
}

#[test]
fn to_followed_by_a_color_gives_a_bare_direction() {
    let g = parse_gradient("linear_gradient to #111111 #222222").unwrap();
    assert_eq!(g.direction, Some(String::from("to ")));
    assert_eq!(g.colors, texts(&["#111111", "#222222"]));
    assert_eq!(g.render(), "linear-gradient(to , #111111, #222222)");
}

#[test]
fn passes_over_stray_words_among_the_colors() {
    let g = parse_gradient("linear_gradient to top #111111 stray #222222 to #333333 end").unwrap();
    assert_eq!(g.direction, Some(String::from("to top")));
    assert_eq!(g.colors, texts(&["#111111", "#222222", "#333333"]));
    let h = parse_gradient("linear_gradient right #111111 to left #222222").unwrap();
    assert_eq!(h.direction, None);
    assert_eq!(h.colors, texts(&["#111111", "#222222"]));
    assert_eq!(h.render(), "linear-gradient(#111111, #222222)");
}

#[test]
fn keyword_is_a_prefix() {
    let g = parse_gradient("linear_gradient#111111 #222222").unwrap();
    assert_eq!(g.direction, None);
    assert_eq!(g.colors, texts(&["#111111", "#222222"]));
    let h = parse_gradient("linear_gradients #111111").unwrap();
    assert_eq!(h.direction, None);
    assert_eq!(h.colors, texts(&["#111111"]));
    assert_eq!(h.render(), "linear-gradient(#111111)");
}

#[test]
fn colors_are_not_examined() {
    let g = parse_gradient("linear_gradient # #zz #1234567").unwrap();
    assert_eq!(g.colors, texts(&["#", "#zz", "#1234567"]));
    assert_eq!(g.render(), "linear-gradient(#, #zz, #1234567)");
}

#[test]
fn only_a_leading_to_opens_a_direction() {
    let g = parse_gradient("linear_gradient top to left #111111").unwrap();
    assert_eq!(g.direction, None);
    let h = parse_gradient("linear_gradient TO left #111111").unwrap();
    assert_eq!(h.direction, None);
    let k = parse_gradient("linear_gradient to to 45deg #111111").unwrap();
    assert_eq!(k.direction, Some(String::from("to to 45deg")));
}

#[test]
fn renders_a_gradient_built_by_hand() {
    let g = GradientDirective {
        direction: Some(String::from("to bottom")),
        colors: texts(&["#ff0000", "#00ff00", "#0000ff"]),
    };
    assert_eq!(g.render(), "linear-gradient(to bottom, #ff0000, #00ff00, #0000ff)");
    let h = GradientDirective { direction: None, colors: texts(&["#ff0000"]) };
    assert_eq!(h.render(), "linear-gradient(#ff0000)");
}
