//! The glyph table: a fixed lookup from (previous direction, current
//! direction) to one of six drawable slots, and the predefined glyph sets
//! that fill those slots.
//!
//! Slot 0 is the straight vertical segment, slot 1 the straight horizontal
//! one, and slots 2 to 5 the four corner turns.

use vstd::prelude::*;

use crate::plane_2d::Direction;

verus! {

/// The number of drawable slots every glyph set fills.
pub const PIECE_SET_LEN: usize = 6;

/// The number of predefined glyph sets.
pub const PREDEFINED_PIECE_SETS: u8 = 7;

/// The slot drawn when a piece that headed in `prev` now heads in `dir`.
///
/// A pure function of the direction pair alone: position and color play no
/// part in it.
pub open spec fn spec_slot_index(prev: Direction, dir: Direction) -> int {
    match prev {
        Direction::Up => match dir {
            Direction::Up => 0,
            Direction::Down => 0,
            Direction::Right => 2,
            Direction::Left => 3,
        },
        Direction::Down => match dir {
            Direction::Up => 0,
            Direction::Down => 0,
            Direction::Right => 4,
            Direction::Left => 5,
        },
        Direction::Right => match dir {
            Direction::Up => 5,
            Direction::Down => 3,
            Direction::Right => 1,
            Direction::Left => 1,
        },
        Direction::Left => match dir {
            Direction::Up => 4,
            Direction::Down => 2,
            Direction::Right => 1,
            Direction::Left => 1,
        },
    }
}

/// Every direction pair selects a slot inside the six-entry glyph sets.
pub proof fn lemma_slot_index_in_range(prev: Direction, dir: Direction)
    ensures
        0 <= spec_slot_index(prev, dir) < PIECE_SET_LEN,
{
}

pub fn slot_index(prev: Direction, dir: Direction) -> (r: u8)
    ensures
        r as int == spec_slot_index(prev, dir),
        r < PIECE_SET_LEN,
{
    match prev {
        Direction::Up => match dir {
            Direction::Up => 0,
            Direction::Down => 0,
            Direction::Right => 2,
            Direction::Left => 3,
        },
        Direction::Down => match dir {
            Direction::Up => 0,
            Direction::Down => 0,
            Direction::Right => 4,
            Direction::Left => 5,
        },
        Direction::Right => match dir {
            Direction::Up => 5,
            Direction::Down => 3,
            Direction::Right => 1,
            Direction::Left => 1,
        },
        Direction::Left => match dir {
            Direction::Up => 4,
            Direction::Down => 2,
            Direction::Right => 1,
            Direction::Left => 1,
        },
    }
}

/// The glyph text of slot `slot` in predefined set `set`.
pub open spec fn spec_piece_glyph(set: int, slot: int) -> Seq<char> {
    if set == 0 {
        if slot == 0 {
            "|"@
        } else if slot == 1 {
            "-"@
        } else {
            "+"@
        }
    } else if set == 1 {
        "·"@
    } else if set == 2 {
        "•"@
    } else if set == 3 {
        if slot == 0 {
            "│"@
        } else if slot == 1 {
            "─"@
        } else if slot == 2 {
            "┌"@
        } else if slot == 3 {
            "┐"@
        } else if slot == 4 {
            "└"@
        } else {
            "┘"@
        }
    } else if set == 4 {
        if slot == 0 {
            "│"@
        } else if slot == 1 {
            "─"@
        } else if slot == 2 {
            "╭"@
        } else if slot == 3 {
            "╮"@
        } else if slot == 4 {
            "╰"@
        } else {
            "╯"@
        }
    } else if set == 5 {
        if slot == 0 {
            "║"@
        } else if slot == 1 {
            "═"@
        } else if slot == 2 {
            "╔"@
        } else if slot == 3 {
            "╗"@
        } else if slot == 4 {
            "╚"@
        } else {
            "╝"@
        }
    } else {
        if slot == 0 {
            "┃"@
        } else if slot == 1 {
            "━"@
        } else if slot == 2 {
            "┏"@
        } else if slot == 3 {
            "┓"@
        } else if slot == 4 {
            "┗"@
        } else {
            "┛"@
        }
    }
}

/// The glyph of slot `slot` in predefined set `set`:
///
/// - 0: ASCII pipes
/// - 1: thin dots
/// - 2: bold dots
/// - 3: thin pipes
/// - 4: thin pipes with rounded corners
/// - 5: double pipes
/// - 6: bold pipes
pub fn piece_glyph(set: u8, slot: u8) -> (r: &'static str)
    requires
        set < PREDEFINED_PIECE_SETS,
        slot < PIECE_SET_LEN,
    ensures
        r@ == spec_piece_glyph(set as int, slot as int),
{
    if set == 0 {
        if slot == 0 {
            "|"
        } else if slot == 1 {
            "-"
        } else {
            "+"
        }
    } else if set == 1 {
        "·"
    } else if set == 2 {
        "•"
    } else if set == 3 {
        if slot == 0 {
            "│"
        } else if slot == 1 {
            "─"
        } else if slot == 2 {
            "┌"
        } else if slot == 3 {
            "┐"
        } else if slot == 4 {
            "└"
        } else {
            "┘"
        }
    } else if set == 4 {
        if slot == 0 {
            "│"
        } else if slot == 1 {
            "─"
        } else if slot == 2 {
            "╭"
        } else if slot == 3 {
            "╮"
        } else if slot == 4 {
            "╰"
        } else {
            "╯"
        }
    } else if set == 5 {
        if slot == 0 {
            "║"
        } else if slot == 1 {
            "═"
        } else if slot == 2 {
            "╔"
        } else if slot == 3 {
            "╗"
        } else if slot == 4 {
            "╚"
        } else {
            "╝"
        }
    } else {
        if slot == 0 {
            "┃"
        } else if slot == 1 {
            "━"
        } else if slot == 2 {
            "┏"
        } else if slot == 3 {
            "┓"
        } else if slot == 4 {
            "┗"
        } else {
            "┛"
        }
    }
}

} // verus!
