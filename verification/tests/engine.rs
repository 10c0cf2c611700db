use rxpipes::color::{Color, ColorPalette};
use rxpipes::config::{build_custom_piece_set, Config, ConfigError};
use rxpipes::pipe::PipePiece;
use rxpipes::screensaver::{Event, Key, Screensaver};

fn base_config() -> Config {
    Config {
        fps: 24,
        max_drawn_pieces: 10000,
        max_pipe_length: 300,
        min_pipe_length: 7,
        turning_prob: 200,
        palette: ColorPalette::NoColor,
        gradient: false,
        gradient_step: 1,
        depth_mode: false,
        layer_max_drawn_pieces: 1000,
        darken_factor: 800,
        darken_min: String::from("#000000"),
        bg_color: None,
        piece_set: 6,
        custom_piece_set: None,
        show_stats: false,
    }
}

#[test]
fn new_parses_the_darken_floor() {
    let mut cfg = base_config();
    cfg.darken_min = String::from("#804020");
    let s = Screensaver::new((80, 24), cfg).unwrap();
    assert_eq!((s.darken_min.r, s.darken_min.g, s.darken_min.b), (128, 64, 32));
    assert!(s.bg_color.is_none());
}

#[test]
fn new_parses_the_background_color() {
    let mut cfg = base_config();
    cfg.bg_color = Some(String::from("#123456"));
    let s = Screensaver::new((80, 24), cfg).unwrap();
    let bg = s.bg_color.unwrap();
    assert_eq!((bg.r, bg.g, bg.b), (0x12, 0x34, 0x56));
}

#[test]
fn new_rejects_a_bad_darken_floor() {
    let mut cfg = base_config();
    cfg.darken_min = String::from("black");
    assert!(matches!(
        Screensaver::new((80, 24), cfg),
        Err(ConfigError::InvalidDarkenColor)
    ));

    let mut cfg = base_config();
    cfg.darken_min = String::from("#+f0000");
    assert!(matches!(
        Screensaver::new((80, 24), cfg),
        Err(ConfigError::InvalidDarkenColor)
    ));
}

#[test]
fn new_rejects_a_bad_background() {
    let mut cfg = base_config();
    cfg.bg_color = Some(String::from("#12345g"));
    assert!(matches!(
        Screensaver::new((80, 24), cfg),
        Err(ConfigError::InvalidBgColor)
    ));
}

#[test]
fn new_rejects_reversed_pipe_lengths() {
    let mut cfg = base_config();
    cfg.min_pipe_length = 10;
    cfg.max_pipe_length = 5;
    assert!(matches!(
        Screensaver::new((80, 24), cfg),
        Err(ConfigError::PipeLengthRange)
    ));
}

#[test]
fn new_anchors_the_stats_strip_to_the_bottom() {
    let s = Screensaver::new((80, 24), base_config()).unwrap();
    assert_eq!(s.canv.size(), (80, 24));
    assert_eq!(s.stats_canv.size(), (80, 3));
    assert_eq!(s.stats_canv.pos.y, 23);
}

#[test]
fn generated_piece_color_follows_the_palette() {
    for _ in 0..20 {
        let p = PipePiece::gen(ColorPalette::NoColor);
        assert!(p.color.is_none());
        assert_eq!(p.prev_dir, p.dir);

        let p = PipePiece::gen(ColorPalette::BaseColors);
        match p.color {
            Some(Color::PaletteIndex(i)) => assert!(i < 16),
            other => panic!("expected a palette color, got {:?}", other),
        }

        let p = PipePiece::gen(ColorPalette::Rgb);
        assert!(matches!(p.color, Some(Color::TrueColor(_))));
    }
}

#[test]
fn pipe_length_is_sampled_within_bounds() {
    for _ in 0..20 {
        let mut s = Screensaver::new((40, 12), base_config()).unwrap();
        s.tick();
        // one piece of the fresh pipe is already drawn
        let len = s.state.currently_drawn_pieces + s.state.pieces_remaining;
        assert!(7 <= len && len <= 300);
        let p = s.state.pipe_piece.pos;
        assert!(0 <= p.x && p.x < 40);
        assert!(0 <= p.y && p.y < 12);
    }
}

#[test]
fn counters_reset_when_the_piece_budget_is_reached() {
    let mut cfg = base_config();
    cfg.max_drawn_pieces = 5;
    cfg.min_pipe_length = 100;
    cfg.max_pipe_length = 100;
    let mut s = Screensaver::new((40, 12), cfg).unwrap();

    for i in 1..5u64 {
        s.tick();
        assert_eq!(s.state.pieces_total, i);
    }
    // the fifth draw reaches the budget: the screen clears on that very draw
    s.tick();
    assert_eq!(s.state.pieces_total, 0);
    assert_eq!(s.state.pipes_total, 0);
    assert_eq!(s.state.pieces_remaining, 0);
    for y in 0..12 {
        for x in 0..40 {
            assert_eq!(s.canv.cell_text(x, y), " ");
        }
    }
}

#[test]
fn zero_piece_budget_means_no_limit() {
    let mut cfg = base_config();
    cfg.max_drawn_pieces = 0;
    let mut s = Screensaver::new((40, 12), cfg).unwrap();
    for i in 1..=50u64 {
        s.tick();
        assert_eq!(s.state.pieces_total, i);
    }
}

#[test]
fn deterministic_length_pipes_and_custom_glyphs() {
    // frame rate 24, pipe length locked to 7, no palette, ASCII custom set
    let mut cfg = base_config();
    cfg.min_pipe_length = 7;
    cfg.max_pipe_length = 7;
    cfg.custom_piece_set = Some(build_custom_piece_set("|-++++").unwrap());
    let mut s = Screensaver::new((80, 24), cfg).unwrap();

    for t in 0..30u64 {
        s.tick();
        // every pipe is exactly 7 pieces long
        assert_eq!(s.state.currently_drawn_pieces, t % 7 + 1);
        assert_eq!(s.state.pieces_remaining, 6 - t % 7);
        // the freshly drawn glyph is one of the custom set
        let p = s.state.pipe_piece.pos;
        let g = s.canv.cell_text(p.x as usize, p.y as usize);
        assert!(g == "|" || g == "-" || g == "+", "unexpected glyph {:?}", g);
    }

    // nothing else ever gets drawn: every cell is blank or a custom glyph
    for y in 0..24 {
        for x in 0..80 {
            let g = s.canv.cell_text(x, y);
            assert!(g == " " || g == "|" || g == "-" || g == "+");
        }
    }
}

#[test]
fn depth_mode_darkens_after_every_piece() {
    // depth mode, one piece per layer, darken by half toward black
    let mut cfg = base_config();
    cfg.depth_mode = true;
    cfg.layer_max_drawn_pieces = 1;
    cfg.darken_factor = 500;
    cfg.darken_min = String::from("#000000");
    cfg.palette = ColorPalette::Rgb;
    cfg.max_drawn_pieces = 0;
    let mut s = Screensaver::new((40, 12), cfg).unwrap();

    for n in 1..=25u64 {
        s.tick();
        // one darken pass ran for this piece, and exactly one
        assert_eq!(s.state.layers_drawn, n);
        assert_eq!(s.state.layer_pieces_total, 0);
        assert_eq!(s.state.pieces_total, n);
    }
}

#[test]
fn color_is_fixed_within_a_pipe_without_gradient() {
    let mut cfg = base_config();
    cfg.palette = ColorPalette::Rgb;
    cfg.min_pipe_length = 7;
    cfg.max_pipe_length = 7;
    let mut s = Screensaver::new((40, 12), cfg).unwrap();
    s.tick();
    let first = s.state.pipe_piece.color;
    assert!(matches!(first, Some(Color::TrueColor(_))));
    for _ in 0..6 {
        s.tick();
        assert_eq!(s.state.pipe_piece.color, first);
    }
}

#[test]
fn gradient_drifts_the_piece_color() {
    let mut cfg = base_config();
    cfg.palette = ColorPalette::Rgb;
    cfg.gradient = true;
    cfg.gradient_step = 255;
    let mut s = Screensaver::new((40, 12), cfg).unwrap();
    s.tick();
    // a full-range step saturates every channel in one draw
    match s.state.pipe_piece.color {
        Some(Color::TrueColor(t)) => {
            assert!(t.r == 0 || t.r == 255);
            assert!(t.g == 0 || t.g == 255);
            assert!(t.b == 0 || t.b == 255);
        }
        other => panic!("expected a true color, got {:?}", other),
    }
}

#[test]
fn predefined_ascii_set_draws_its_glyphs() {
    let mut cfg = base_config();
    cfg.piece_set = 0;
    let mut s = Screensaver::new((40, 12), cfg).unwrap();
    for _ in 0..20 {
        s.tick();
        let p = s.state.pipe_piece.pos;
        let g = s.canv.cell_text(p.x as usize, p.y as usize);
        assert!(g == "|" || g == "-" || g == "+", "unexpected glyph {:?}", g);
    }
}

#[test]
fn drawn_pieces_sit_on_the_configured_background() {
    let mut cfg = base_config();
    cfg.bg_color = Some(String::from("#102030"));
    let mut s = Screensaver::new((40, 12), cfg).unwrap();
    for _ in 0..10 {
        s.tick();
        let p = s.state.pipe_piece.pos;
        assert_eq!(
            s.canv.cell_bg(p.x as usize, p.y as usize),
            Color::TrueColor(rxpipes::color::Rgb { r: 16, g: 32, b: 48 })
        );
    }
}

#[test]
fn resize_takes_effect_immediately() {
    let mut s = Screensaver::new((80, 24), base_config()).unwrap();
    for _ in 0..5 {
        s.tick();
    }
    let redraw = s.handle_event(Event::Resized { cols: 100, rows: 40 });
    assert!(redraw);
    assert_eq!(s.canv.size(), (100, 40));
    assert_eq!(s.stats_canv.size(), (100, 3));
    assert_eq!(s.stats_canv.pos.y, 39);
    // the canvas was redrawn blank: prior content is gone
    for y in 0..40 {
        for x in 0..100 {
            assert_eq!(s.canv.cell_text(x, y), " ");
        }
    }
}

#[test]
fn quit_keys_raise_the_quit_flag() {
    for key in [Key::Escape, Key::Char('q'), Key::Char('Q'), Key::CtrlC] {
        let mut s = Screensaver::new((20, 10), base_config()).unwrap();
        assert!(!s.state.quit);
        let redraw = s.handle_event(Event::Key(key));
        assert!(!redraw);
        assert!(s.state.quit);
    }
}

#[test]
fn space_toggles_pause() {
    let mut s = Screensaver::new((20, 10), base_config()).unwrap();
    s.handle_event(Event::Key(Key::Char(' ')));
    assert!(s.state.pause);
    s.handle_event(Event::Key(Key::Char(' ')));
    assert!(!s.state.pause);
}

#[test]
fn manual_clear_resets_counters_and_canvas() {
    let mut s = Screensaver::new((40, 12), base_config()).unwrap();
    for _ in 0..10 {
        s.tick();
    }
    assert!(s.state.pieces_total > 0);
    let redraw = s.handle_event(Event::Key(Key::Char('c')));
    assert!(!redraw);
    assert_eq!(s.state.pieces_total, 0);
    assert_eq!(s.state.pipes_total, 0);
    assert_eq!(s.state.layers_drawn, 0);
    for y in 0..12 {
        for x in 0..40 {
            assert_eq!(s.canv.cell_text(x, y), " ");
        }
    }
}

#[test]
fn redraw_key_asks_for_a_repaint() {
    let mut s = Screensaver::new((20, 10), base_config()).unwrap();
    assert!(s.handle_event(Event::Key(Key::Char('l'))));
}

#[test]
fn stats_key_toggles_the_overlay() {
    let mut s = Screensaver::new((20, 10), base_config()).unwrap();
    assert!(!s.cfg.show_stats);
    s.handle_event(Event::Key(Key::Char('s')));
    assert!(s.cfg.show_stats);
    s.handle_event(Event::Key(Key::Char('s')));
    assert!(!s.cfg.show_stats);
}

#[test]
fn other_keys_do_nothing() {
    let mut s = Screensaver::new((20, 10), base_config()).unwrap();
    let before_total = s.state.pieces_total;
    assert!(!s.handle_event(Event::Key(Key::Char('x'))));
    assert!(!s.handle_event(Event::Key(Key::Other)));
    assert!(!s.state.quit);
    assert!(!s.state.pause);
    assert_eq!(s.state.pieces_total, before_total);
}

#[test]
fn stats_overlay_prints_the_counters() {
    let mut cfg = base_config();
    cfg.min_pipe_length = 7;
    cfg.max_pipe_length = 7;
    cfg.custom_piece_set = Some(build_custom_piece_set("|-++++").unwrap());
    cfg.show_stats = true;
    let mut s = Screensaver::new((80, 24), cfg).unwrap();
    s.tick();

    let expected = "pcs. drawn: 1, lpcs. drawn: 1, c. pcs. drawn: 1, pps. drawn: 0, \
                    pcs. rem: 6, l. drawn: 0, pps. len: 7, pipe color: DEFAULT";
    for (k, ch) in expected.chars().enumerate() {
        let x = k % 80;
        let y = k / 80;
        assert_eq!(s.stats_canv.cell_text(x, y), ch.to_string());
        // the text sits in gray on the black strip
        assert_eq!(s.stats_canv.cell_fg(x, y), Color::PaletteIndex(7));
        assert_eq!(s.stats_canv.cell_bg(x, y), Color::PaletteIndex(0));
    }
    // the rest of the strip is blank on the black background
    let n = expected.chars().count();
    assert_eq!(s.stats_canv.cell_text(n % 80, n / 80), " ");
    assert_eq!(
        s.stats_canv.cell_bg(n % 80, n / 80),
        Color::PaletteIndex(0)
    );
}
