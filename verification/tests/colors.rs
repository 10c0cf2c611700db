use rxpipes::color::{
    color_desc, darken_channel, darken_color, gradient_color, parse_hex_color, rgb_string, Color,
    GradientDir, Rgb,
};

#[test]
fn darken_channel_halves_above_floor() {
    assert_eq!(darken_channel(200, 500, 0), 100);
    assert_eq!(darken_channel(255, 800, 0), 204);
    assert_eq!(darken_channel(1, 999, 0), 0);
}

#[test]
fn darken_channel_stops_at_floor() {
    assert_eq!(darken_channel(200, 500, 150), 150);
    assert_eq!(darken_channel(151, 500, 150), 150);
    // a channel below the floor is brought up to it
    assert_eq!(darken_channel(10, 500, 128), 128);
}

#[test]
fn darken_converges_monotonically() {
    // repeated darkening with factor 1/2 toward floor 50: 200, 100, 50, 50, ...
    let mut ch = 200u8;
    let mut prev = ch;
    for _ in 0..10 {
        ch = darken_channel(ch, 500, 50);
        assert!(ch >= 50);
        assert!(ch <= prev);
        prev = ch;
    }
    assert_eq!(ch, 50);
}

#[test]
fn darken_color_ignores_non_true_colors() {
    let floor = Rgb { r: 0, g: 0, b: 0 };
    assert_eq!(darken_color(Color::Unset, 500, floor), Color::Unset);
    assert_eq!(
        darken_color(Color::PaletteIndex(3), 500, floor),
        Color::PaletteIndex(3)
    );
    assert_eq!(
        darken_color(Color::TrueColor(Rgb { r: 100, g: 60, b: 7 }), 500, floor),
        Color::TrueColor(Rgb { r: 50, g: 30, b: 3 })
    );
}

#[test]
fn gradient_up_saturates_at_full() {
    let c = Color::TrueColor(Rgb { r: 250, g: 100, b: 0 });
    assert_eq!(
        gradient_color(c, GradientDir::Up, 10),
        Color::TrueColor(Rgb { r: 255, g: 110, b: 10 })
    );
}

#[test]
fn gradient_down_saturates_at_zero() {
    let c = Color::TrueColor(Rgb { r: 5, g: 100, b: 255 });
    assert_eq!(
        gradient_color(c, GradientDir::Down, 10),
        Color::TrueColor(Rgb { r: 0, g: 90, b: 245 })
    );
}

#[test]
fn gradient_passes_through_other_colors() {
    assert_eq!(
        gradient_color(Color::PaletteIndex(5), GradientDir::Up, 10),
        Color::PaletteIndex(5)
    );
    assert_eq!(gradient_color(Color::Unset, GradientDir::Down, 10), Color::Unset);
}

#[test]
fn parse_full_hex_color() {
    assert_eq!(
        parse_hex_color("#ff8000"),
        Some(Rgb { r: 255, g: 128, b: 0 })
    );
    assert_eq!(
        parse_hex_color("#FF8000"),
        Some(Rgb { r: 255, g: 128, b: 0 })
    );
    assert_eq!(parse_hex_color("#000000"), Some(Rgb { r: 0, g: 0, b: 0 }));
}

#[test]
fn parse_shorthand_hex_color() {
    assert_eq!(
        parse_hex_color("#abc"),
        Some(Rgb { r: 0xaa, g: 0xbb, b: 0xcc })
    );
}

#[test]
fn parse_rejects_malformed_colors() {
    assert_eq!(parse_hex_color(""), None);
    assert_eq!(parse_hex_color("123456"), None);
    assert_eq!(parse_hex_color("#12345"), None);
    assert_eq!(parse_hex_color("#gggggg"), None);
    assert_eq!(parse_hex_color("#ff80001"), None);
}

#[test]
fn parse_rejects_signs_inside_channels() {
    // only hex digits may follow the `#`; a sign is not a digit
    assert_eq!(parse_hex_color("#+f0000"), None);
    assert_eq!(parse_hex_color("#+1+2+3"), None);
    assert_eq!(parse_hex_color("#-10000"), None);
    assert_eq!(parse_hex_color("#+12"), None);
}

#[test]
fn rgb_string_renders_lowercase_hex() {
    assert_eq!(rgb_string(Rgb { r: 255, g: 128, b: 0 }), "#ff8000");
    assert_eq!(rgb_string(Rgb { r: 0, g: 0, b: 0 }), "#000000");
    assert_eq!(rgb_string(Rgb { r: 0x1a, g: 0x2b, b: 0x3c }), "#1a2b3c");
}

#[test]
fn color_descriptions() {
    assert_eq!(color_desc(None), "DEFAULT");
    assert_eq!(color_desc(Some(Color::Unset)), "DEFAULT");
    assert_eq!(color_desc(Some(Color::PaletteIndex(0))), "BLACK");
    assert_eq!(color_desc(Some(Color::PaletteIndex(3))), "YELLOW");
    assert_eq!(color_desc(Some(Color::PaletteIndex(15))), "BRIGHT GRAY");
    assert_eq!(
        color_desc(Some(Color::TrueColor(Rgb { r: 255, g: 0, b: 255 }))),
        "#ff00ff"
    );
}
