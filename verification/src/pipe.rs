//! The active pipe piece: the single growth point of the pipe currently
//! drawn, and the random generation of a fresh one.

use vstd::prelude::*;

use crate::color::{Color, ColorPalette, GradientDir, Rgb};
use crate::plane_2d::{Direction, Point};
use crate::rng::random_in_range_u64;

verus! {

/// Represents a piece of pipe.
#[derive(Copy, Clone, Debug)]
pub struct PipePiece {
    /// Position of the piece.
    pub pos: Point,
    /// Direction of the preceding piece.
    pub prev_dir: Direction,
    /// Direction of the piece.
    pub dir: Direction,
    /// Color of the piece.
    pub color: Option<Color>,
    /// Gradient direction.
    pub gradient: GradientDir,
}

/// What a freshly sampled color looks like for each palette: no color at
/// all, one of the 16 base palette entries, or some true color.
pub open spec fn color_matches_palette(c: Option<Color>, palette: ColorPalette) -> bool {
    match palette {
        ColorPalette::NoColor => c is None,
        ColorPalette::BaseColors => c matches Some(Color::PaletteIndex(i)) && i < 16,
        ColorPalette::Rgb => c matches Some(Color::TrueColor(_)),
    }
}

/// A piece color the engine can hold: either not yet sampled, or sampled
/// from the configured palette.
pub open spec fn piece_color_ok(c: Option<Color>, palette: ColorPalette) -> bool {
    c is None || color_matches_palette(c, palette)
}

impl Default for PipePiece {
    fn default() -> (p: Self)
        ensures
            p.pos.x == 0 && p.pos.y == 0,
            p.prev_dir is Up && p.dir is Up,
            p.color is None,
            p.gradient is Up,
    {
        PipePiece {
            pos: Point { x: 0, y: 0 },
            prev_dir: Direction::Up,
            dir: Direction::Up,
            color: None,
            gradient: GradientDir::Up,
        }
    }
}

impl PipePiece {
    /// Create a `PipePiece` with position `(0, 0)`, unspecified directions
    /// and without a color.
    pub fn new() -> (p: Self)
        ensures
            p.pos.x == 0 && p.pos.y == 0,
            p.prev_dir is Up && p.dir is Up,
            p.color is None,
            p.gradient is Up,
    {
        Default::default()
    }

    /// Create a piece with random direction and color; the first glyph of a
    /// pipe renders straight because both directions are the same draw.
    pub fn gen(palette: ColorPalette) -> (p: Self)
        ensures
            p.pos.x == 0 && p.pos.y == 0,
            p.prev_dir == p.dir,
            color_matches_palette(p.color, palette),
    {
        let initial_dir = random_direction();

        PipePiece {
            pos: Point { x: 0, y: 0 },
            prev_dir: initial_dir,
            dir: initial_dir,
            color: gen_color(palette),
            gradient: random_gradient_dir(),
        }
    }
}

/// A direction drawn uniformly at random.
fn random_direction() -> Direction {
    match random_in_range_u64(0, 3) {
        0 => Direction::Up,
        1 => Direction::Down,
        2 => Direction::Right,
        _ => Direction::Left,
    }
}

/// A gradient phase drawn uniformly at random.
fn random_gradient_dir() -> GradientDir {
    if random_in_range_u64(0, 1) == 0 {
        GradientDir::Up
    } else {
        GradientDir::Down
    }
}

/// Pick a random color from the specified palette.
fn gen_color(palette: ColorPalette) -> (c: Option<Color>)
    ensures
        color_matches_palette(c, palette),
{
    match palette {
        ColorPalette::NoColor => None,
        ColorPalette::BaseColors => Some(
            Color::PaletteIndex(random_in_range_u64(0, 15) as u8),
        ),
        ColorPalette::Rgb => Some(
            Color::TrueColor(
                Rgb {
                    r: random_in_range_u64(0, 255) as u8,
                    g: random_in_range_u64(0, 255) as u8,
                    b: random_in_range_u64(0, 255) as u8,
                },
            ),
        ),
    }
}

} // verus!
