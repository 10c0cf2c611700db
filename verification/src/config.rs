//! Screensaver settings, their validity, and the startup errors that reject
//! a bad configuration.
//!
//! Fractional settings (turning probability, darken factor) are held in
//! thousandths; the gradient step is in channel units of `[0, 255]`.

use vstd::prelude::*;

use unicode_segmentation::UnicodeSegmentation;

use crate::color::ColorPalette;
use crate::glyphs::{PIECE_SET_LEN, PREDEFINED_PIECE_SETS};

verus! {

/// Screensaver settings.
#[derive(Clone, Debug)]
pub struct Config {
    /// Frames per second; at least 1.
    pub fps: u64,
    /// Maximum drawn pieces of pipes on the screen. When this maximum is
    /// reached, the screen will be cleared. 0 removes the limit.
    pub max_drawn_pieces: u64,
    /// Maximum length of pipe in pieces.
    pub max_pipe_length: u64,
    /// Minimal length of pipe in pieces; must not exceed the maximum.
    pub min_pipe_length: u64,
    /// Probability of turning a pipe, in thousandths (1000 turns every tick).
    pub turning_prob: u32,
    /// Set of colors used for coloring each pipe.
    pub palette: ColorPalette,
    /// Enable gradient color drift; meaningful with the RGB palette only.
    pub gradient: bool,
    /// Gradient: the step to lighten/darken the color by per tick, in
    /// channel units.
    pub gradient_step: u8,
    /// Depth mode: draw pipes in layers, darkening the previous layers each
    /// time one fills up.
    pub depth_mode: bool,
    /// Depth mode: maximum drawn pipe pieces in the current layer.
    pub layer_max_drawn_pieces: u64,
    /// Depth mode: how much pieces in previous layers darken per pass, in
    /// thousandths.
    pub darken_factor: u32,
    /// Depth mode: the hex color string to gradually darken to.
    pub darken_min: String,
    /// Hex color string of the background, if any.
    pub bg_color: Option<String>,
    /// Numeric selector of a predefined piece set, `0` to `6`.
    pub piece_set: u8,
    /// A custom piece set: exactly six grapheme clusters, used instead of
    /// the predefined set when present.
    pub custom_piece_set: Option<Vec<String>>,
    /// Show statistics at the bottom of the screen.
    pub show_stats: bool,
}

/// A fatal startup configuration error.
#[derive(Copy, Clone, Debug, PartialEq, Eq, Structural)]
pub enum ConfigError {
    /// The darken floor color is not a valid hex color string.
    InvalidDarkenColor,
    /// The background color is not a valid hex color string.
    InvalidBgColor,
    /// A custom piece set does not hold exactly six grapheme clusters.
    CustomPieceSetLength,
    /// The minimal pipe length exceeds the maximal one.
    PipeLengthRange,
}

impl ConfigError {
    /// A human-readable description of the error.
    pub fn message(&self) -> &'static str {
        match self {
            ConfigError::InvalidDarkenColor => "invalid hex color for the darken floor",
            ConfigError::InvalidBgColor => "invalid hex color for the background",
            ConfigError::CustomPieceSetLength => "a custom piece set must hold exactly 6 pieces",
            ConfigError::PipeLengthRange => "the minimal pipe length exceeds the maximal one",
        }
    }
}

impl Config {
    /// The numeric fields are inside their documented ranges.
    pub open spec fn ranges_ok(self) -> bool {
        &&& self.fps >= 1
        &&& self.turning_prob <= 1000
        &&& self.darken_factor <= 1000
        &&& self.piece_set < PREDEFINED_PIECE_SETS
    }

    /// A custom piece set, when present, holds exactly six entries.
    pub open spec fn custom_set_ok(self) -> bool {
        self.custom_piece_set matches Some(v) ==> v@.len() == PIECE_SET_LEN
    }
}

/// What splitting a string into extended grapheme clusters yields.
pub uninterp spec fn graphemes_of(s: Seq<char>) -> Seq<Seq<char>>;

/// Relies on unicode-segmentation's `UnicodeSegmentation::graphemes` with
/// extended clusters: it splits a string into its grapheme clusters, in
/// order — consecutive subslices that concatenate back to the input — and
/// an empty string has none.
#[verifier::external_body]
fn split_graphemes_call(s: &str) -> (r: Vec<String>)
    ensures
        r@.len() == graphemes_of(s@).len(),
        forall|i: int| 0 <= i < r@.len() ==> (#[trigger] r@[i])@ == graphemes_of(s@)[i],
        r@.map_values(|g: String| g@).flatten() == s@,
        s@.len() == 0 ==> r@.len() == 0,
{
    UnicodeSegmentation::graphemes(s, true).map(|g| g.to_string()).collect()
}

/// Split a string into its extended grapheme clusters; together they
/// partition the string.
pub fn split_graphemes(s: &str) -> (r: Vec<String>)
    ensures
        r@.len() == graphemes_of(s@).len(),
        forall|i: int| 0 <= i < r@.len() ==> (#[trigger] r@[i])@ == graphemes_of(s@)[i],
        r@.map_values(|g: String| g@).flatten() == s@,
        s@.len() == 0 ==> r@.len() == 0,
{
    split_graphemes_call(s)
}

/// Build a custom piece set from the string a user supplied: its grapheme
/// clusters, accepted only when there are exactly six of them. Anything
/// else is a fatal configuration error, detected here at startup so that a
/// glyph lookup can never run out of bounds.
pub fn build_custom_piece_set(s: &str) -> (r: Result<Vec<String>, ConfigError>)
    ensures
        r is Ok <==> graphemes_of(s@).len() == PIECE_SET_LEN,
        r matches Ok(v) ==> {
            &&& v@.len() == PIECE_SET_LEN
            &&& forall|i: int| 0 <= i < v@.len() ==> (#[trigger] v@[i])@ == graphemes_of(s@)[i]
            &&& v@.map_values(|g: String| g@).flatten() == s@
        },
        r is Err ==> r == Err::<Vec<String>, ConfigError>(ConfigError::CustomPieceSetLength),
{
    let v = split_graphemes(s);
    if v.len() == PIECE_SET_LEN {
        Ok(v)
    } else {
        Err(ConfigError::CustomPieceSetLength)
    }
}

} // verus!
