//! The growth and layering engine: the run state, the per-tick pipe growth
//! step, threshold-triggered clearing and darkening, the statistics
//! overlay, and the reaction to key and resize events.

use vstd::prelude::*;

use crate::canvas::{darken_cell_fg, Canvas};
use crate::color::{
    color_desc, color_desc_view, gradient_color, gradient_color_spec, parse_hex_color,
    parse_hex_rgb, Color, Rgb,
};
use crate::config::{Config, ConfigError};
use crate::digits::{dec_view, u64_to_string};
use crate::glyphs::{piece_glyph, slot_index, spec_piece_glyph, spec_slot_index};
use crate::pipe::{color_matches_palette, piece_color_ok, PipePiece};
use crate::plane_2d::{step_dx, step_dy, wrap_coord_spec, Direction, Point};
use crate::rng::random_in_range_u64;

verus! {

/// State of the screensaver.
#[derive(Copy, Clone, Debug)]
pub struct State {
    /// Current pipe piece to be drawn.
    pub pipe_piece: PipePiece,
    /// Total of all drawn pieces since the last clear.
    pub pieces_total: u64,
    /// Total of all drawn pieces in the current layer.
    pub layer_pieces_total: u64,
    /// Number of pieces drawn of the current pipe.
    pub currently_drawn_pieces: u64,
    /// Number of pieces of the current pipe not drawn yet.
    pub pieces_remaining: u64,
    /// Total of all drawn pipes since the last clear.
    pub pipes_total: u64,
    /// Total of all darken passes since the last clear.
    pub layers_drawn: u64,
    /// Indicates when to end the main loop.
    pub quit: bool,
    /// Indicates when to stop updating the state.
    pub pause: bool,
}

impl Default for State {
    fn default() -> (s: Self)
        ensures
            s == State::initial(),
    {
        State {
            pipe_piece: PipePiece::new(),
            pieces_total: 0,
            layer_pieces_total: 0,
            currently_drawn_pieces: 0,
            pieces_remaining: 0,
            pipes_total: 0,
            layers_drawn: 0,
            quit: false,
            pause: false,
        }
    }
}

impl State {
    /// The state a screensaver starts in: every counter zero, the piece at
    /// the origin with no color yet.
    pub open spec fn initial() -> State {
        State {
            pipe_piece: PipePiece {
                pos: Point { x: 0, y: 0 },
                prev_dir: Direction::Up,
                dir: Direction::Up,
                color: None,
                gradient: crate::color::GradientDir::Up,
            },
            pieces_total: 0,
            layer_pieces_total: 0,
            currently_drawn_pieces: 0,
            pieces_remaining: 0,
            pipes_total: 0,
            layers_drawn: 0,
            quit: false,
            pause: false,
        }
    }

    /// Create a `State`.
    pub fn new() -> (s: Self)
        ensures
            s == State::initial(),
    {
        Default::default()
    }
}

/// A key press, already stripped to what the engine reacts to.
#[derive(Copy, Clone, Debug, PartialEq, Eq, Structural)]
pub enum Key {
    /// The escape key.
    Escape,
    /// A plain character key without modifiers.
    Char(char),
    /// Control-C.
    CtrlC,
    /// Any other key.
    Other,
}

/// An input event the engine reacts to.
#[derive(Copy, Clone, Debug, PartialEq, Eq, Structural)]
pub enum Event {
    /// A key press.
    Key(Key),
    /// The terminal was resized to the given number of columns and rows.
    Resized { cols: usize, rows: usize },
}

/// The background the main canvas is filled with: the configured color, or
/// the terminal's default.
pub open spec fn bg_fill_color(bg: Option<Rgb>) -> Color {
    match bg {
        Some(c) => Color::TrueColor(c),
        None => Color::Unset,
    }
}

/// The glyph drawn for a direction pair under a configuration: the slot
/// selected by the pair, taken from the custom piece set when one is
/// supplied, else from the selected predefined set.
pub open spec fn glyph_for(cfg: Config, prev: Direction, dir: Direction) -> Seq<char> {
    let slot = spec_slot_index(prev, dir);
    match cfg.custom_piece_set {
        Some(v) => v@[slot]@,
        None => spec_piece_glyph(cfg.piece_set as int, slot),
    }
}

/// The color a piece is drawn with: its sampled color, drifted one gradient
/// step when gradient mode is on.
pub open spec fn drawn_color(piece: PipePiece, cfg: Config) -> Option<Color> {
    match piece.color {
        Some(c) => Some(
            if cfg.gradient {
                gradient_color_spec(c, piece.gradient, cfg.gradient_step as int)
            } else {
                c
            },
        ),
        None => None,
    }
}

/// Represents the screensaver: the run state, the main drawing canvas, the
/// statistics canvas, and the immutable configuration.
pub struct Screensaver {
    pub state: State,
    pub canv: Canvas,
    pub darken_min: Rgb,
    pub bg_color: Option<Rgb>,
    pub stats_canv: Canvas,
    pub cfg: Config,
}

impl Screensaver {
    /// Well-formedness: both canvases are well-formed, the configuration is
    /// inside its documented ranges, the piece color fits the palette, and
    /// the piece position fits the coordinate types.
    pub open spec fn wf(self) -> bool {
        &&& self.canv.wf()
        &&& self.stats_canv.wf()
        &&& self.cfg.ranges_ok()
        &&& self.cfg.custom_set_ok()
        &&& self.cfg.min_pipe_length <= self.cfg.max_pipe_length
        &&& piece_color_ok(self.state.pipe_piece.color, self.cfg.palette)
        &&& 0 <= self.state.pipe_piece.pos.x < isize::MAX
        &&& 0 <= self.state.pipe_piece.pos.y < isize::MAX
    }

    /// Create a `Screensaver` for a screen of `scr_size` cells: the main
    /// canvas covers the screen, the statistics canvas is a strip anchored
    /// to the bottom row, and the background is drawn. The pipe lengths and
    /// the hex color strings are validated here, at startup.
    pub fn new(scr_size: (usize, usize), cfg: Config) -> (r: Result<Screensaver, ConfigError>)
        requires
            1 <= scr_size.0 <= (isize::MAX as int),
            1 <= scr_size.1 <= (isize::MAX as int),
            (scr_size.0 as int) * (scr_size.1 as int) <= (usize::MAX as int),
            (scr_size.0 as int) * 3 <= (usize::MAX as int),
            cfg.ranges_ok(),
            cfg.custom_set_ok(),
        ensures
            r is Ok <==> {
                &&& cfg.min_pipe_length <= cfg.max_pipe_length
                &&& parse_hex_rgb(cfg.darken_min@) is Some
                &&& (cfg.bg_color matches Some(s) ==> parse_hex_rgb(s@) is Some)
            },
            cfg.min_pipe_length > cfg.max_pipe_length ==> r == Err::<Screensaver, ConfigError>(
                ConfigError::PipeLengthRange,
            ),
            cfg.min_pipe_length <= cfg.max_pipe_length && parse_hex_rgb(cfg.darken_min@) is None
                ==> r == Err::<Screensaver, ConfigError>(ConfigError::InvalidDarkenColor),
            cfg.min_pipe_length <= cfg.max_pipe_length && parse_hex_rgb(cfg.darken_min@) is Some
                && (cfg.bg_color matches Some(s) && parse_hex_rgb(s@) is None) ==> r == Err::<
                Screensaver,
                ConfigError,
            >(ConfigError::InvalidBgColor),
            r matches Ok(s) ==> {
                &&& s.wf()
                &&& s.state == State::initial()
                &&& s.cfg == cfg
                &&& Some(s.darken_min) == parse_hex_rgb(cfg.darken_min@)
                &&& (match cfg.bg_color {
                    Some(b) => s.bg_color == parse_hex_rgb(b@),
                    None => s.bg_color is None,
                })
                &&& s.canv.width == scr_size.0
                &&& s.canv.height == scr_size.1
                &&& s.canv.pos == (Point { x: 0, y: 0 })
                &&& s.canv.all_cells_blank(bg_fill_color(s.bg_color))
                &&& s.canv.fg is Unset
                &&& s.canv.bg == bg_fill_color(s.bg_color)
                &&& s.stats_canv.width == scr_size.0
                &&& s.stats_canv.height == 3
                &&& s.stats_canv.pos.x == 0
                &&& s.stats_canv.pos.y == scr_size.1 - 1
            },
    {
        if cfg.min_pipe_length > cfg.max_pipe_length {
            return Err(ConfigError::PipeLengthRange);
        }
        let darken_min = match parse_hex_color(cfg.darken_min.as_str()) {
            Some(c) => c,
            None => {
                return Err(ConfigError::InvalidDarkenColor);
            },
        };
        let bg_color = match &cfg.bg_color {
            Some(s) => match parse_hex_color(s.as_str()) {
                Some(c) => Some(c),
                None => {
                    return Err(ConfigError::InvalidBgColor);
                },
            },
            None => None,
        };

        let mut s = Screensaver {
            state: State::new(),
            canv: Canvas::new(Point { x: 0, y: 0 }, scr_size),
            darken_min,
            bg_color,
            stats_canv: Canvas::new(
                Point { x: 0, y: (scr_size.1 - 1) as isize },
                (scr_size.0, 3),
            ),
            cfg,
        };
        s.draw_bg();
        Ok(s)
    }

    /// Fill the main canvas with the configured background color, or the
    /// terminal's default when none is configured; the pen background takes
    /// the same color, so pieces drawn next sit on the configured ground.
    fn draw_bg(&mut self)
        requires
            old(self).wf(),
        ensures
            final(self).wf(),
            *final(self) == (Screensaver { canv: final(self).canv, ..*old(self) }),
            final(self).canv == (Canvas {
                cells: final(self).canv.cells,
                cursor: 0,
                fg: Color::Unset,
                bg: bg_fill_color(old(self).bg_color),
                ..old(self).canv
            }),
            final(self).canv.all_cells_blank(bg_fill_color(old(self).bg_color)),
    {
        match self.bg_color {
            Some(c) => self.canv.fill(Color::TrueColor(c)),
            None => self.canv.fill(Color::Unset),
        }
    }

    /// Clear the screen and reset all pipe/piece/layer counters, then
    /// redraw the background.
    pub fn clear(&mut self)
        requires
            old(self).wf(),
        ensures
            final(self).wf(),
            *final(self) == (Screensaver {
                state: final(self).state,
                canv: final(self).canv,
                ..*old(self)
            }),
            final(self).state == (State {
                pipe_piece: old(self).state.pipe_piece,
                pieces_total: 0,
                layer_pieces_total: 0,
                currently_drawn_pieces: 0,
                pieces_remaining: 0,
                pipes_total: 0,
                layers_drawn: 0,
                quit: old(self).state.quit,
                pause: old(self).state.pause,
            }),
            final(self).canv == (Canvas {
                cells: final(self).canv.cells,
                cursor: 0,
                fg: Color::Unset,
                bg: bg_fill_color(old(self).bg_color),
                ..old(self).canv
            }),
            final(self).canv.all_cells_blank(bg_fill_color(old(self).bg_color)),
    {
        self.state.currently_drawn_pieces = 0;
        self.state.pieces_remaining = 0;
        self.state.layer_pieces_total = 0;
        self.state.pieces_total = 0;
        self.state.layers_drawn = 0;
        self.state.pipes_total = 0;

        self.draw_bg();
    }

    /// Make all pipe pieces in previous layers darker: reset the per-layer
    /// counters, end the current pipe, count the new layer, and run a
    /// darken pass over the whole canvas.
    pub fn darken_previous_layers(&mut self)
        requires
            old(self).wf(),
            old(self).state.layers_drawn < u64::MAX,
        ensures
            final(self).wf(),
            *final(self) == (Screensaver {
                state: final(self).state,
                canv: final(self).canv,
                ..*old(self)
            }),
            final(self).state == (State {
                pipe_piece: old(self).state.pipe_piece,
                pieces_total: old(self).state.pieces_total,
                layer_pieces_total: 0,
                currently_drawn_pieces: 0,
                pieces_remaining: 0,
                pipes_total: old(self).state.pipes_total,
                layers_drawn: (old(self).state.layers_drawn + 1) as u64,
                quit: old(self).state.quit,
                pause: old(self).state.pause,
            }),
            final(self).canv == (Canvas { cells: final(self).canv.cells, ..old(self).canv }),
            final(self).canv.cells@.len() == old(self).canv.cells@.len(),
            forall|i: int|
                0 <= i < old(self).canv.cells@.len() ==> {
                    &&& (#[trigger] final(self).canv.cells@[i]).text@
                        == old(self).canv.cells@[i].text@
                    &&& final(self).canv.cells@[i].bg == old(self).canv.cells@[i].bg
                    &&& final(self).canv.cells@[i].fg == darken_cell_fg(
                        old(self).canv.cells@[i].text@,
                        old(self).canv.cells@[i].fg,
                        old(self).cfg.darken_factor as int,
                        old(self).darken_min,
                    )
                },
    {
        self.state.currently_drawn_pieces = 0;
        self.state.pieces_remaining = 0;
        self.state.layer_pieces_total = 0;
        self.state.layers_drawn = self.state.layers_drawn + 1;

        let factor = self.cfg.darken_factor;
        let floor = self.darken_min;
        self.canv.darken(factor, floor);
    }

    /// Generate the next pipe piece: when the current pipe is exhausted,
    /// start a fresh one of random length at a random position; then step
    /// the piece one cell, wrap it into the canvas, and possibly turn it.
    pub fn gen_next_piece(&mut self)
        requires
            old(self).wf(),
            old(self).state.pipes_total < u64::MAX,
        ensures
            final(self).wf(),
            *final(self) == (Screensaver { state: final(self).state, ..*old(self) }),
            final(self).state.quit == old(self).state.quit,
            final(self).state.pause == old(self).state.pause,
            final(self).state.pieces_total == old(self).state.pieces_total,
            final(self).state.layer_pieces_total == old(self).state.layer_pieces_total,
            final(self).state.layers_drawn == old(self).state.layers_drawn,
            0 <= final(self).state.pipe_piece.pos.x < old(self).canv.width,
            0 <= final(self).state.pipe_piece.pos.y < old(self).canv.height,
            final(self).state.pipe_piece.dir
                != final(self).state.pipe_piece.prev_dir.spec_opposite(),
            old(self).state.pieces_remaining == 0 ==> {
                &&& old(self).cfg.min_pipe_length <= final(self).state.pieces_remaining <= old(
                    self,
                ).cfg.max_pipe_length
                &&& final(self).state.currently_drawn_pieces == 0
                &&& final(self).state.pipes_total == old(self).state.pipes_total + (
                if old(self).state.pieces_total > 0 {
                    1int
                } else {
                    0int
                })
                &&& color_matches_palette(
                    final(self).state.pipe_piece.color,
                    old(self).cfg.palette,
                )
            },
            old(self).state.pieces_remaining > 0 ==> {
                &&& final(self).state.pieces_remaining == old(self).state.pieces_remaining
                &&& final(self).state.currently_drawn_pieces == old(
                    self,
                ).state.currently_drawn_pieces
                &&& final(self).state.pipes_total == old(self).state.pipes_total
                &&& final(self).state.pipe_piece.color == old(self).state.pipe_piece.color
                &&& final(self).state.pipe_piece.gradient == old(self).state.pipe_piece.gradient
                &&& final(self).state.pipe_piece.prev_dir == old(self).state.pipe_piece.dir
                &&& final(self).state.pipe_piece.pos.x == wrap_coord_spec(
                    old(self).state.pipe_piece.pos.x + step_dx(old(self).state.pipe_piece.dir),
                    old(self).canv.width as int,
                )
                &&& final(self).state.pipe_piece.pos.y == wrap_coord_spec(
                    old(self).state.pipe_piece.pos.y + step_dy(old(self).state.pipe_piece.dir),
                    old(self).canv.height as int,
                )
            },
    {
        if self.state.pieces_remaining == 0 {
            let len = random_in_range_u64(self.cfg.min_pipe_length, self.cfg.max_pipe_length);
            self.state.pieces_remaining = len;

            let mut piece = PipePiece::gen(self.cfg.palette);
            let px = random_in_range_u64(0, (self.canv.width - 1) as u64);
            let py = random_in_range_u64(0, (self.canv.height - 1) as u64);
            piece.pos = Point { x: px as isize, y: py as isize };
            self.state.pipe_piece = piece;

            if self.state.pieces_total > 0 {
                self.state.pipes_total = self.state.pipes_total + 1;
            }
            self.state.currently_drawn_pieces = 0;
        }

        let dir = self.state.pipe_piece.dir;
        let width = self.canv.width;
        let height = self.canv.height;
        self.state.pipe_piece.pos.advance(dir);
        self.state.pipe_piece.pos.wrap(width as isize, height as isize);
        self.state.pipe_piece.prev_dir = dir;

        // Try to turn the pipe in another direction
        if (random_in_range_u64(0, 999) as u32) < self.cfg.turning_prob {
            let choice = random_in_range_u64(0, 1) == 1;
            let turned = self.state.pipe_piece.dir.turned(choice);
            self.state.pipe_piece.dir = turned;
        }
    }
}

/// Whether drawing one more piece fills the whole-screen budget: a nonzero
/// `max_drawn_pieces` reached by the new total forces a clear.
pub open spec fn clear_triggered(cfg: Config, old_pieces_total: u64) -> bool {
    cfg.max_drawn_pieces > 0 && old_pieces_total + 1 >= cfg.max_drawn_pieces
}

/// Whether drawing one more piece fills the current layer: in depth mode,
/// when no clear fires and the new layer total reaches the per-layer
/// budget, a darken pass runs.
pub open spec fn darken_triggered(cfg: Config, old_pieces_total: u64, old_layer_total: u64) -> bool {
    &&& !clear_triggered(cfg, old_pieces_total)
    &&& cfg.depth_mode
    &&& old_layer_total + 1 >= cfg.layer_max_drawn_pieces
}

/// The piece budget law: with a nonzero `max_drawn_pieces` the clear fires
/// exactly on the draw whose new total reaches the budget — so, by the
/// contract of `draw_pipe_piece`, `pieces_total` returns to zero on that
/// very draw; with a budget of zero the clear never fires and the total
/// grows without bound.
pub proof fn lemma_piece_budget(cfg: Config, pieces_total: u64)
    ensures
        cfg.max_drawn_pieces == 0 ==> !clear_triggered(cfg, pieces_total),
        cfg.max_drawn_pieces > 0 ==> (clear_triggered(cfg, pieces_total) <==> pieces_total + 1
            >= cfg.max_drawn_pieces),
{
}

/// The pen foreground after a piece is drawn: the drawn color when the
/// piece has one, else whatever the pen held.
pub open spec fn pen_fg_after_draw(old_fg: Color, piece: PipePiece, cfg: Config) -> Color {
    match drawn_color(piece, cfg) {
        Some(c) => c,
        None => old_fg,
    }
}

impl Screensaver {
    /// Draw the current pipe piece: write its glyph and color into the
    /// canvas at its position, step the counters, and fire the clear or the
    /// darken pass when a threshold is crossed. `max_drawn_pieces == 0`
    /// means no limit, so it never triggers the clear.
    #[verifier::rlimit(100)]
    pub fn draw_pipe_piece(&mut self)
        requires
            old(self).wf(),
            0 <= old(self).state.pipe_piece.pos.x < old(self).canv.width,
            0 <= old(self).state.pipe_piece.pos.y < old(self).canv.height,
            old(self).state.pieces_total < u64::MAX,
            old(self).state.layer_pieces_total < u64::MAX,
            old(self).state.currently_drawn_pieces < u64::MAX,
            old(self).state.layers_drawn < u64::MAX,
        ensures
            final(self).wf(),
            *final(self) == (Screensaver {
                state: final(self).state,
                canv: final(self).canv,
                ..*old(self)
            }),
            final(self).state == (State {
                pipe_piece: final(self).state.pipe_piece,
                pieces_total: final(self).state.pieces_total,
                layer_pieces_total: final(self).state.layer_pieces_total,
                currently_drawn_pieces: final(self).state.currently_drawn_pieces,
                pieces_remaining: final(self).state.pieces_remaining,
                pipes_total: final(self).state.pipes_total,
                layers_drawn: final(self).state.layers_drawn,
                ..old(self).state
            }),
            final(self).state.pipe_piece == (PipePiece {
                color: drawn_color(old(self).state.pipe_piece, old(self).cfg),
                ..old(self).state.pipe_piece
            }),
            ({
                let cfg = old(self).cfg;
                let c = clear_triggered(cfg, old(self).state.pieces_total);
                let d = darken_triggered(
                    cfg,
                    old(self).state.pieces_total,
                    old(self).state.layer_pieces_total,
                );
                &&& final(self).state.pieces_total == if c {
                    0int
                } else {
                    old(self).state.pieces_total + 1
                }
                &&& final(self).state.layer_pieces_total == if c || d {
                    0int
                } else {
                    old(self).state.layer_pieces_total + 1
                }
                &&& final(self).state.currently_drawn_pieces == if c || d {
                    0int
                } else {
                    old(self).state.currently_drawn_pieces + 1
                }
                &&& final(self).state.pieces_remaining == if c || d {
                    0int
                } else if old(self).state.pieces_remaining > 0 {
                    old(self).state.pieces_remaining - 1
                } else {
                    0int
                }
                &&& final(self).state.pipes_total == if c {
                    0int
                } else {
                    old(self).state.pipes_total as int
                }
                &&& final(self).state.layers_drawn == if c {
                    0int
                } else if d {
                    old(self).state.layers_drawn + 1
                } else {
                    old(self).state.layers_drawn as int
                }
            }),
            final(self).canv == (Canvas {
                cells: final(self).canv.cells,
                cursor: final(self).canv.cursor,
                fg: final(self).canv.fg,
                bg: final(self).canv.bg,
                ..old(self).canv
            }),
            final(self).canv.cells@.len() == old(self).canv.cells@.len(),
            clear_triggered(old(self).cfg, old(self).state.pieces_total) ==> {
                &&& final(self).canv.all_cells_blank(bg_fill_color(old(self).bg_color))
                &&& final(self).canv.cursor == 0
                &&& final(self).canv.fg is Unset
                &&& final(self).canv.bg == bg_fill_color(old(self).bg_color)
            },
            !clear_triggered(old(self).cfg, old(self).state.pieces_total) ==> ({
                let piece = old(self).state.pipe_piece;
                let w = old(self).canv.idx(piece.pos.x as int, piece.pos.y as int);
                let glyph = glyph_for(old(self).cfg, piece.prev_dir, piece.dir);
                let written_fg = pen_fg_after_draw(old(self).canv.fg, piece, old(self).cfg);
                let d = darken_triggered(
                    old(self).cfg,
                    old(self).state.pieces_total,
                    old(self).state.layer_pieces_total,
                );
                &&& final(self).canv.fg == written_fg
                &&& final(self).canv.bg == old(self).canv.bg
                &&& final(self).canv.cursor == w + 1
                &&& final(self).canv.cells@[w].text@ == glyph
                &&& final(self).canv.cells@[w].bg == old(self).canv.bg
                &&& final(self).canv.cells@[w].fg == if d {
                    darken_cell_fg(
                        glyph,
                        written_fg,
                        old(self).cfg.darken_factor as int,
                        old(self).darken_min,
                    )
                } else {
                    written_fg
                }
                &&& forall|j: int|
                    0 <= j < old(self).canv.cells@.len() && j != w ==> {
                        &&& (#[trigger] final(self).canv.cells@[j]).text@
                            == old(self).canv.cells@[j].text@
                        &&& final(self).canv.cells@[j].bg == old(self).canv.cells@[j].bg
                        &&& final(self).canv.cells@[j].fg == if d {
                            darken_cell_fg(
                                old(self).canv.cells@[j].text@,
                                old(self).canv.cells@[j].fg,
                                old(self).cfg.darken_factor as int,
                                old(self).darken_min,
                            )
                        } else {
                            old(self).canv.cells@[j].fg
                        }
                    }
            }),
    {
        let piece = self.state.pipe_piece;

        proof {
            assert((piece.pos.y as int) * (self.canv.width as int) + (piece.pos.x as int) < (
            self.canv.width as int) * (self.canv.height as int)) by (nonlinear_arith)
                requires
                    0 <= (piece.pos.x as int) < (self.canv.width as int),
                    0 <= (piece.pos.y as int) < (self.canv.height as int),
            ;
        }
        self.canv.move_to(piece.pos);

        match piece.color {
            Some(color) => {
                let color = if self.cfg.gradient {
                    gradient_color(color, piece.gradient, self.cfg.gradient_step)
                } else {
                    color
                };

                self.state.pipe_piece.color = Some(color);
                self.canv.set_fg_color(color);
            },
            None => {},
        }

        let slot = slot_index(piece.prev_dir, piece.dir);
        match &self.cfg.custom_piece_set {
            Some(pieces) => {
                let g = pieces[slot as usize].as_str();
                self.canv.put_glyph(g);
            },
            None => {
                let g = piece_glyph(self.cfg.piece_set, slot);
                self.canv.put_glyph(g);
            },
        }

        self.state.pieces_total = self.state.pieces_total + 1;
        self.state.layer_pieces_total = self.state.layer_pieces_total + 1;
        self.state.currently_drawn_pieces = self.state.currently_drawn_pieces + 1;
        if self.state.pieces_remaining > 0 {
            self.state.pieces_remaining = self.state.pieces_remaining - 1;
        }

        if self.cfg.max_drawn_pieces > 0 && self.state.pieces_total >= self.cfg.max_drawn_pieces {
            self.clear();
        } else if self.cfg.depth_mode && self.state.layer_pieces_total
            >= self.cfg.layer_max_drawn_pieces {
            self.darken_previous_layers();
        }
    }
}

/// A sum of two counters, stuck at the largest value instead of wrapping.
pub open spec fn sat_add_u64(a: int, b: int) -> int {
    if a + b > u64::MAX {
        u64::MAX as int
    } else {
        a + b
    }
}

/// The text of the statistics overlay for a run state.
pub open spec fn stats_line_view(state: State) -> Seq<char> {
    "pcs. drawn: "@ + dec_view(state.pieces_total as nat) + ", lpcs. drawn: "@ + dec_view(
        state.layer_pieces_total as nat,
    ) + ", c. pcs. drawn: "@ + dec_view(state.currently_drawn_pieces as nat) + ", pps. drawn: "@
        + dec_view(state.pipes_total as nat) + ", pcs. rem: "@ + dec_view(
        state.pieces_remaining as nat,
    ) + ", l. drawn: "@ + dec_view(state.layers_drawn as nat) + ", pps. len: "@ + dec_view(
        sat_add_u64(
            state.currently_drawn_pieces as int,
            state.pieces_remaining as int,
        ) as nat,
    ) + ", pipe color: "@ + color_desc_view(state.pipe_piece.color)
}

impl Screensaver {
    /// Draw the statistics widget: fill the strip with a black background,
    /// then print the counters and the current pipe color in gray, one
    /// character per cell from the top-left corner.
    pub fn draw_stats(&mut self)
        requires
            old(self).wf(),
        ensures
            final(self).wf(),
            *final(self) == (Screensaver { stats_canv: final(self).stats_canv, ..*old(self) }),
            final(self).stats_canv == (Canvas {
                cells: final(self).stats_canv.cells,
                cursor: final(self).stats_canv.cursor,
                fg: Color::PaletteIndex(7),
                bg: Color::PaletteIndex(0),
                ..old(self).stats_canv
            }),
            final(self).stats_canv.cells@.len() == old(self).stats_canv.cells@.len(),
            ({
                let line = stats_line_view(old(self).state);
                let n = old(self).stats_canv.cells@.len() as int;
                &&& forall|k: int|
                    0 <= k < line.len() && k < n ==> {
                        &&& (#[trigger] final(self).stats_canv.cells@[k]).text@ == seq![line[k]]
                        &&& final(self).stats_canv.cells@[k].fg == Color::PaletteIndex(7)
                        &&& final(self).stats_canv.cells@[k].bg == Color::PaletteIndex(0)
                    }
                &&& forall|j: int|
                    line.len() <= j < n ==> {
                        &&& (#[trigger] final(self).stats_canv.cells@[j]).text@ == " "@
                        &&& final(self).stats_canv.cells@[j].fg is Unset
                        &&& final(self).stats_canv.cells@[j].bg == Color::PaletteIndex(0)
                    }
            }),
    {
        // Stats string will have a black background
        self.stats_canv.fill(Color::PaletteIndex(0));
        // Stats string will have a gray foreground
        self.stats_canv.set_fg_color(Color::PaletteIndex(7));

        let pipe_len = self.state.currently_drawn_pieces.saturating_add(
            self.state.pieces_remaining,
        );
        let color = color_desc(self.state.pipe_piece.color);

        let s = String::from_str("pcs. drawn: ");
        let s = s.concat(u64_to_string(self.state.pieces_total).as_str());
        let s = s.concat(", lpcs. drawn: ");
        let s = s.concat(u64_to_string(self.state.layer_pieces_total).as_str());
        let s = s.concat(", c. pcs. drawn: ");
        let s = s.concat(u64_to_string(self.state.currently_drawn_pieces).as_str());
        let s = s.concat(", pps. drawn: ");
        let s = s.concat(u64_to_string(self.state.pipes_total).as_str());
        let s = s.concat(", pcs. rem: ");
        let s = s.concat(u64_to_string(self.state.pieces_remaining).as_str());
        let s = s.concat(", l. drawn: ");
        let s = s.concat(u64_to_string(self.state.layers_drawn).as_str());
        let s = s.concat(", pps. len: ");
        let s = s.concat(u64_to_string(pipe_len).as_str());
        let s = s.concat(", pipe color: ");
        let s = s.concat(color.as_str());

        proof {
            assert(s@ =~= stats_line_view(old(self).state));
        }
        self.stats_canv.put_str(s.as_str());
    }

    /// One animation tick: grow the pipe by a piece, draw it, and redraw
    /// the statistics overlay when it is shown.
    pub fn tick(&mut self)
        requires
            old(self).wf(),
            old(self).state.pieces_total < u64::MAX,
            old(self).state.layer_pieces_total < u64::MAX,
            old(self).state.currently_drawn_pieces < u64::MAX,
            old(self).state.pipes_total < u64::MAX,
            old(self).state.layers_drawn < u64::MAX,
        ensures
            final(self).wf(),
            *final(self) == (Screensaver {
                state: final(self).state,
                canv: final(self).canv,
                stats_canv: final(self).stats_canv,
                ..*old(self)
            }),
            final(self).state.quit == old(self).state.quit,
            final(self).state.pause == old(self).state.pause,
            !old(self).cfg.show_stats ==> final(self).stats_canv == old(self).stats_canv,
            ({
                let cfg = old(self).cfg;
                let c = clear_triggered(cfg, old(self).state.pieces_total);
                let d = darken_triggered(
                    cfg,
                    old(self).state.pieces_total,
                    old(self).state.layer_pieces_total,
                );
                let reseeded = old(self).state.pieces_remaining == 0;
                &&& final(self).state.pieces_total == if c {
                    0int
                } else {
                    old(self).state.pieces_total + 1
                }
                &&& final(self).state.layer_pieces_total == if c || d {
                    0int
                } else {
                    old(self).state.layer_pieces_total + 1
                }
                &&& final(self).state.currently_drawn_pieces == if c || d {
                    0int
                } else if reseeded {
                    1int
                } else {
                    old(self).state.currently_drawn_pieces + 1
                }
                &&& final(self).state.layers_drawn == if c {
                    0int
                } else if d {
                    old(self).state.layers_drawn + 1
                } else {
                    old(self).state.layers_drawn as int
                }
                &&& final(self).state.pipes_total == if c {
                    0int
                } else if reseeded && old(self).state.pieces_total > 0 {
                    old(self).state.pipes_total + 1
                } else {
                    old(self).state.pipes_total as int
                }
                &&& !reseeded ==> final(self).state.pieces_remaining == if c || d {
                    0int
                } else {
                    old(self).state.pieces_remaining - 1
                }
                &&& reseeded && !c && !d ==> {
                    &&& final(self).state.pieces_remaining + 1 >= old(self).cfg.min_pipe_length
                    &&& final(self).state.pieces_remaining <= old(self).cfg.max_pipe_length
                }
                &&& reseeded && (c || d) ==> final(self).state.pieces_remaining == 0
                &&& !c ==> ({
                    let piece = final(self).state.pipe_piece;
                    &&& 0 <= piece.pos.x < old(self).canv.width
                    &&& 0 <= piece.pos.y < old(self).canv.height
                    &&& final(self).canv.cells@[final(self).canv.idx(
                        piece.pos.x as int,
                        piece.pos.y as int,
                    )].text@ == glyph_for(cfg, piece.prev_dir, piece.dir)
                    &&& piece.dir != piece.prev_dir.spec_opposite()
                })
                &&& c ==> final(self).canv.all_cells_blank(bg_fill_color(old(self).bg_color))
            }),
    {
        self.gen_next_piece();
        self.draw_pipe_piece();

        if self.cfg.show_stats {
            self.draw_stats();
        }
    }

    /// React to one input event.
    ///
    /// Quit on Escape, `q`, `Q` or Control-C; Space toggles pause; `c`
    /// clears the screen; `l` asks for a full redraw; `s` toggles the
    /// statistics overlay. A resize makes both canvases take the new width,
    /// re-anchors the statistics strip to the new bottom row, redraws the
    /// background, and asks for a full redraw. The result says whether the
    /// caller must repaint the terminal from scratch.
    pub fn handle_event(&mut self, ev: Event) -> (redraw: bool)
        requires
            old(self).wf(),
            ev matches Event::Resized { cols, rows } ==> {
                &&& 1 <= cols <= (isize::MAX as int)
                &&& 1 <= rows <= (isize::MAX as int)
                &&& (cols as int) * (rows as int) <= (usize::MAX as int)
                &&& (cols as int) * (old(self).stats_canv.height as int) <= (usize::MAX as int)
            },
        ensures
            final(self).wf(),
            *final(self) == (Screensaver {
                state: final(self).state,
                canv: final(self).canv,
                stats_canv: final(self).stats_canv,
                cfg: final(self).cfg,
                ..*old(self)
            }),
            final(self).cfg == (Config {
                show_stats: final(self).cfg.show_stats,
                ..old(self).cfg
            }),
            match ev {
                Event::Key(Key::Escape) | Event::Key(Key::CtrlC) => {
                    &&& *final(self) == (Screensaver { state: final(self).state, ..*old(self) })
                    &&& final(self).state == (State { quit: true, ..old(self).state })
                    &&& redraw == false
                },
                Event::Key(Key::Char(ch)) => {
                    if ch == 'q' || ch == 'Q' {
                        &&& *final(self) == (Screensaver {
                            state: final(self).state,
                            ..*old(self)
                        })
                        &&& final(self).state == (State { quit: true, ..old(self).state })
                        &&& redraw == false
                    } else if ch == ' ' {
                        &&& *final(self) == (Screensaver {
                            state: final(self).state,
                            ..*old(self)
                        })
                        &&& final(self).state == (State {
                            pause: !old(self).state.pause,
                            ..old(self).state
                        })
                        &&& redraw == false
                    } else if ch == 'c' {
                        &&& *final(self) == (Screensaver {
                            state: final(self).state,
                            canv: final(self).canv,
                            ..*old(self)
                        })
                        &&& final(self).state == (State {
                            pipe_piece: old(self).state.pipe_piece,
                            pieces_total: 0,
                            layer_pieces_total: 0,
                            currently_drawn_pieces: 0,
                            pieces_remaining: 0,
                            pipes_total: 0,
                            layers_drawn: 0,
                            quit: old(self).state.quit,
                            pause: old(self).state.pause,
                        })
                        &&& final(self).canv.all_cells_blank(bg_fill_color(old(self).bg_color))
                        &&& redraw == false
                    } else if ch == 'l' {
                        &&& *final(self) == *old(self)
                        &&& redraw == true
                    } else if ch == 's' {
                        &&& *final(self) == (Screensaver { cfg: final(self).cfg, ..*old(self) })
                        &&& final(self).cfg == (Config {
                            show_stats: !old(self).cfg.show_stats,
                            ..old(self).cfg
                        })
                        &&& redraw == false
                    } else {
                        &&& *final(self) == *old(self)
                        &&& redraw == false
                    }
                },
                Event::Key(Key::Other) => {
                    &&& *final(self) == *old(self)
                    &&& redraw == false
                },
                Event::Resized { cols, rows } => {
                    &&& final(self).state == old(self).state
                    &&& final(self).cfg == old(self).cfg
                    &&& final(self).canv.width == cols
                    &&& final(self).canv.height == rows
                    &&& final(self).canv.pos == old(self).canv.pos
                    &&& final(self).canv.all_cells_blank(bg_fill_color(old(self).bg_color))
                    &&& final(self).stats_canv.width == cols
                    &&& final(self).stats_canv.height == old(self).stats_canv.height
                    &&& final(self).stats_canv.pos.x == old(self).stats_canv.pos.x
                    &&& final(self).stats_canv.pos.y == rows - 1
                    &&& redraw == true
                },
            },
    {
        match ev {
            Event::Key(Key::Escape) | Event::Key(Key::CtrlC) => {
                self.state.quit = true;
                false
            },
            Event::Key(Key::Char(ch)) => {
                if ch == 'q' || ch == 'Q' {
                    self.state.quit = true;
                    false
                } else if ch == ' ' {
                    self.state.pause = !self.state.pause;
                    false
                } else if ch == 'c' {
                    self.clear();
                    false
                } else if ch == 'l' {
                    true
                } else if ch == 's' {
                    self.cfg.show_stats = !self.cfg.show_stats;
                    false
                } else {
                    false
                }
            },
            Event::Key(Key::Other) => false,
            Event::Resized { cols, rows } => {
                self.canv.resize((cols, rows));
                self.draw_bg();

                self.stats_canv.pos.y = (rows - 1) as isize;
                let stats_h = self.stats_canv.height;
                self.stats_canv.resize((cols, stats_h));
                true
            },
        }
    }
}

} // verus!
