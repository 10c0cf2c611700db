//! The cell buffer: an addressable grid of styled cells with a pen, a
//! cursor, clearing, filling, text insertion and layered darkening.
//!
//! Cells are stored row-major; the cursor is kept as a linear index, so text
//! flows left to right and continues on the next row. A glyph written with
//! [`Canvas::put_glyph`] occupies one cell whatever its text, which is how
//! multi-byte box-drawing characters and custom grapheme clusters are drawn.

use vstd::prelude::*;

use crate::color::{darken_color, darken_color_spec, Color, Rgb};
use crate::plane_2d::Point;

verus! {

/// One grid position: its text, foreground and background.
pub struct Cell {
    pub text: String,
    pub fg: Color,
    pub bg: Color,
}

/// The characters that `darken` treats as empty cell content.
pub open spec fn is_blank_char(c: char) -> bool {
    c == ' ' || c == '\t' || c == '\n' || c == '\r' || c == '\u{000C}'
}

/// Whether a cell's text is blank: empty or ASCII whitespace only. Blank
/// cells are skipped by `darken`, so only drawn pipe segments fade.
pub open spec fn is_blank_text(s: Seq<char>) -> bool {
    forall|i: int| 0 <= i < s.len() ==> is_blank_char(s[i])
}

/// Whether a cell's text is blank: empty or ASCII whitespace only.
pub fn is_blank(s: &str) -> (r: bool)
    ensures
        r == is_blank_text(s@),
{
    let n = s.unicode_len();
    let mut i: usize = 0;
    while i < n
        invariant
            i <= n,
            n == s@.len(),
            forall|j: int| 0 <= j < i ==> is_blank_char(s@[j]),
        decreases n - i,
    {
        let c = s.get_char(i);
        if !(c == ' ' || c == '\t' || c == '\n' || c == '\r' || c == '\u{000C}') {
            return false;
        }
        i += 1;
    }
    true
}

/// How `darken` rewrites one cell: a non-blank cell keeps its text and
/// background and has its foreground darkened; a blank cell is untouched.
pub open spec fn darken_cell_fg(
    text: Seq<char>,
    fg: Color,
    factor_mille: int,
    floor: Rgb,
) -> Color {
    if is_blank_text(text) {
        fg
    } else {
        darken_color_spec(fg, factor_mille, floor)
    }
}

/// Drawing area of the terminal: a grid of styled cells, with a pen holding
/// the colors given to newly written cells, and a linear cursor.
pub struct Canvas {
    /// Cell buffer, row-major: the cell at `(x, y)` is `cells[y * width + x]`.
    pub cells: Vec<Cell>,
    /// Number of columns; positive.
    pub width: usize,
    /// Number of rows; positive.
    pub height: usize,
    /// Position of the canvas on the screen it is composited onto.
    pub pos: Point,
    /// Linear index of the next cell written; at most `width * height`.
    pub cursor: usize,
    /// Foreground given to newly written cells.
    pub fg: Color,
    /// Background given to newly written cells.
    pub bg: Color,
}

impl Canvas {
    /// Well-formedness: positive dimensions that fit the coordinate types,
    /// one cell per grid position, cursor inside or one past the grid.
    pub open spec fn wf(self) -> bool {
        &&& 1 <= (self.width as int) <= (isize::MAX as int)
        &&& 1 <= (self.height as int) <= (isize::MAX as int)
        &&& (self.width as int) * (self.height as int) <= (usize::MAX as int)
        &&& self.cells@.len() == (self.width as int) * (self.height as int)
        &&& self.cursor <= (self.width as int) * (self.height as int)
    }

    /// The linear index of grid position `(x, y)`.
    pub open spec fn idx(self, x: int, y: int) -> int {
        y * (self.width as int) + x
    }

    /// The cell at grid position `(x, y)`.
    pub open spec fn cell(self, x: int, y: int) -> Cell {
        self.cells@[self.idx(x, y)]
    }

    /// Whether every cell is blank with background `bg` and foreground unset.
    pub open spec fn all_cells_blank(self, bg: Color) -> bool {
        forall|i: int|
            0 <= i < self.cells@.len() ==> {
                &&& (#[trigger] self.cells@[i]).text@ == " "@
                &&& self.cells@[i].fg is Unset
                &&& self.cells@[i].bg == bg
            }
    }

    /// Create a `Canvas` of the specified size, all cells blank.
    pub fn new(pos: Point, size: (usize, usize)) -> (c: Canvas)
        requires
            1 <= size.0 <= (isize::MAX as int),
            1 <= size.1 <= (isize::MAX as int),
            (size.0 as int) * (size.1 as int) <= (usize::MAX as int),
        ensures
            c.wf(),
            c.width == size.0,
            c.height == size.1,
            c.pos == pos,
            c.cursor == 0,
            c.fg is Unset,
            c.bg is Unset,
            c.all_cells_blank(Color::Unset),
    {
        let cells = blank_cells(size.0 * size.1, Color::Unset);
        Canvas { cells, width: size.0, height: size.1, pos, cursor: 0, fg: Color::Unset, bg: Color::Unset }
    }

    /// Retrieve the size of the area as `(width, height)`.
    pub fn size(&self) -> (s: (usize, usize))
        ensures
            s.0 == self.width,
            s.1 == self.height,
    {
        (self.width, self.height)
    }

    /// Resize the canvas; the old content is discarded, every cell comes
    /// back blank and the cursor returns to the origin.
    pub fn resize(&mut self, size: (usize, usize))
        requires
            1 <= size.0 <= (isize::MAX as int),
            1 <= size.1 <= (isize::MAX as int),
            (size.0 as int) * (size.1 as int) <= (usize::MAX as int),
        ensures
            final(self).wf(),
            final(self).width == size.0,
            final(self).height == size.1,
            final(self).pos == old(self).pos,
            final(self).fg == old(self).fg,
            final(self).bg == old(self).bg,
            final(self).cursor == 0,
            final(self).all_cells_blank(Color::Unset),
    {
        self.width = size.0;
        self.height = size.1;
        self.cells = blank_cells(size.0 * size.1, Color::Unset);
        self.cursor = 0;
    }

    /// Make the canvas blank: every cell loses its text and colors, the
    /// cursor returns to the origin, and the pen is reset to the defaults.
    pub fn clear(&mut self)
        requires
            old(self).wf(),
        ensures
            final(self).wf(),
            *final(self) == (Canvas {
                cells: final(self).cells,
                cursor: 0,
                fg: Color::Unset,
                bg: Color::Unset,
                ..*old(self)
            }),
            final(self).cells@.len() == old(self).cells@.len(),
            final(self).all_cells_blank(Color::Unset),
    {
        self.fill(Color::Unset);
    }

    /// Fill the canvas: every cell becomes blank with background `c`, and
    /// the cursor returns to the origin. As with a terminal clear-screen,
    /// the pen is reset too: its foreground to the default, its background
    /// to the fill color, so text written next sits on the filled ground.
    pub fn fill(&mut self, c: Color)
        requires
            old(self).wf(),
        ensures
            final(self).wf(),
            *final(self) == (Canvas {
                cells: final(self).cells,
                cursor: 0,
                fg: Color::Unset,
                bg: c,
                ..*old(self)
            }),
            final(self).cells@.len() == old(self).cells@.len(),
            final(self).all_cells_blank(c),
    {
        let n = self.width * self.height;
        self.cells = blank_cells(n, c);
        self.cursor = 0;
        self.fg = Color::Unset;
        self.bg = c;
    }

    /// Move the cursor to the 2D point `p`.
    pub fn move_to(&mut self, p: Point)
        requires
            old(self).wf(),
            0 <= p.x < old(self).width,
            0 <= p.y < old(self).height,
        ensures
            final(self).wf(),
            *final(self) == (Canvas { cursor: final(self).cursor, ..*old(self) }),
            final(self).cursor == old(self).idx(p.x as int, p.y as int),
    {
        proof {
            assert((p.y as int) * (self.width as int) + (p.x as int) < (self.width as int) * (
            self.height as int)) by (nonlinear_arith)
                requires
                    0 <= (p.x as int) < (self.width as int),
                    0 <= (p.y as int) < (self.height as int),
            ;
        }
        self.cursor = (p.y as usize) * self.width + (p.x as usize);
    }

    /// Set the foreground color of newly written cells.
    pub fn set_fg_color(&mut self, c: Color)
        ensures
            *final(self) == (Canvas { fg: c, ..*old(self) }),
    {
        self.fg = c;
    }

    /// Set the background color of newly written cells.
    pub fn set_bg_color(&mut self, c: Color)
        ensures
            *final(self) == (Canvas { bg: c, ..*old(self) }),
    {
        self.bg = c;
    }

    /// Write one glyph into the cell under the cursor, with the pen's
    /// colors, and step the cursor; past the end of the grid nothing happens.
    /// The glyph may be several characters long (a grapheme cluster); it
    /// still occupies exactly one cell.
    pub fn put_glyph(&mut self, g: &str)
        requires
            old(self).wf(),
        ensures
            final(self).wf(),
            *final(self) == (Canvas {
                cells: final(self).cells,
                cursor: final(self).cursor,
                ..*old(self)
            }),
            old(self).cursor < old(self).cells@.len() ==> {
                &&& final(self).cursor == old(self).cursor + 1
                &&& final(self).cells@ == old(self).cells@.update(
                    old(self).cursor as int,
                    final(self).cells@[old(self).cursor as int],
                )
                &&& final(self).cells@[old(self).cursor as int].text@ == g@
                &&& final(self).cells@[old(self).cursor as int].fg == old(self).fg
                &&& final(self).cells@[old(self).cursor as int].bg == old(self).bg
            },
            old(self).cursor >= old(self).cells@.len() ==> {
                &&& final(self).cursor == old(self).cursor
                &&& final(self).cells@ == old(self).cells@
            },
    {
        if self.cursor < self.cells.len() {
            let cell = Cell { text: String::from_str(g), fg: self.fg, bg: self.bg };
            self.cells[self.cursor] = cell;
            self.cursor = self.cursor + 1;
        }
    }

    /// Print a string at the current position of the cursor, one character
    /// per cell, each with the pen's colors; text that runs past the end of
    /// the grid is dropped.
    pub fn put_str(&mut self, s: &str)
        requires
            old(self).wf(),
        ensures
            final(self).wf(),
            *final(self) == (Canvas {
                cells: final(self).cells,
                cursor: final(self).cursor,
                ..*old(self)
            }),
            final(self).cells@.len() == old(self).cells@.len(),
            final(self).cursor == if old(self).cursor + s@.len() <= old(self).cells@.len() {
                old(self).cursor + s@.len()
            } else {
                old(self).cells@.len() as int
            },
            forall|j: int|
                old(self).cursor <= j < old(self).cursor + s@.len() && 0 <= j < old(
                    self,
                ).cells@.len() ==> {
                    &&& (#[trigger] final(self).cells@[j]).text@ == seq![s@[j - old(self).cursor]]
                    &&& final(self).cells@[j].fg == old(self).fg
                    &&& final(self).cells@[j].bg == old(self).bg
                },
            forall|j: int|
                0 <= j < old(self).cells@.len() && !(old(self).cursor <= j < old(self).cursor
                    + s@.len()) ==> #[trigger] final(self).cells@[j] == old(self).cells@[j],
    {
        let n = s.unicode_len();
        let mut i: usize = 0;
        while i < n
            invariant
                i <= n,
                n == s@.len(),
                self.wf(),
                *self == (Canvas {
                    cells: self.cells,
                    cursor: self.cursor,
                    ..*old(self)
                }),
                self.cells@.len() == old(self).cells@.len(),
                self.cursor == if old(self).cursor + i <= old(self).cells@.len() {
                    old(self).cursor + i
                } else {
                    old(self).cells@.len() as int
                },
                old(self).cursor + i > old(self).cells@.len() ==> i > 0,
                forall|j: int|
                    old(self).cursor <= j < old(self).cursor + i && 0 <= j < old(
                        self,
                    ).cells@.len() ==> {
                        &&& (#[trigger] self.cells@[j]).text@ == seq![s@[j - old(self).cursor]]
                        &&& self.cells@[j].fg == old(self).fg
                        &&& self.cells@[j].bg == old(self).bg
                    },
                forall|j: int|
                    0 <= j < old(self).cells@.len() && !(old(self).cursor <= j < old(self).cursor
                        + i) ==> #[trigger] self.cells@[j] == old(self).cells@[j],
            decreases n - i,
        {
            if self.cursor >= self.cells.len() {
                proof {
                    assert(old(self).cursor + i >= old(self).cells@.len());
                }
                return ;
            }
            let piece = s.substring_char(i, i + 1);
            let cell = Cell { text: String::from_str(piece), fg: self.fg, bg: self.bg };
            proof {
                assert(s@.subrange(i as int, i + 1) =~= seq![s@[i as int]]);
            }
            self.cells[self.cursor] = cell;
            self.cursor = self.cursor + 1;
            i += 1;
        }
    }

    /// Make all non-blank cells darker, down to the minimal color `floor`:
    /// each such cell keeps its text and background, and its foreground is
    /// darkened in true-color space. Blank cells and non-true-color
    /// foregrounds stay as they are.
    pub fn darken(&mut self, factor_mille: u32, floor: Rgb)
        requires
            old(self).wf(),
            factor_mille <= 1000,
        ensures
            final(self).wf(),
            *final(self) == (Canvas { cells: final(self).cells, ..*old(self) }),
            final(self).cells@.len() == old(self).cells@.len(),
            forall|i: int|
                0 <= i < old(self).cells@.len() ==> {
                    &&& (#[trigger] final(self).cells@[i]).text@ == old(self).cells@[i].text@
                    &&& final(self).cells@[i].bg == old(self).cells@[i].bg
                    &&& final(self).cells@[i].fg == darken_cell_fg(
                        old(self).cells@[i].text@,
                        old(self).cells@[i].fg,
                        factor_mille as int,
                        floor,
                    )
                },
    {
        let n = self.cells.len();
        let mut i: usize = 0;
        while i < n
            invariant
                i <= n,
                factor_mille <= 1000,
                n == old(self).cells@.len(),
                self.wf(),
                *self == (Canvas { cells: self.cells, ..*old(self) }),
                self.cells@.len() == old(self).cells@.len(),
                forall|k: int|
                    0 <= k < i ==> {
                        &&& (#[trigger] self.cells@[k]).text@ == old(self).cells@[k].text@
                        &&& self.cells@[k].bg == old(self).cells@[k].bg
                        &&& self.cells@[k].fg == darken_cell_fg(
                            old(self).cells@[k].text@,
                            old(self).cells@[k].fg,
                            factor_mille as int,
                            floor,
                        )
                    },
                forall|j: int| i <= j < n ==> #[trigger] self.cells@[j] == old(self).cells@[j],
            decreases n - i,
        {
            let blank = is_blank(self.cells[i].text.as_str());
            if !blank {
                let new_fg = darken_color(self.cells[i].fg, factor_mille, floor);
                let text = self.cells[i].text.clone();
                let bg = self.cells[i].bg;
                self.cells[i] = Cell { text, fg: new_fg, bg };
            }
            i += 1;
        }
    }

    /// The text of the cell at `(x, y)`.
    pub fn cell_text(&self, x: usize, y: usize) -> (t: String)
        requires
            self.wf(),
            x < self.width,
            y < self.height,
        ensures
            t@ == self.cell(x as int, y as int).text@,
    {
        proof {
            assert((y as int) * (self.width as int) + (x as int) < (self.width as int) * (
            self.height as int)) by (nonlinear_arith)
                requires
                    0 <= (x as int) < (self.width as int),
                    0 <= (y as int) < (self.height as int),
            ;
        }
        self.cells[y * self.width + x].text.clone()
    }

    /// The foreground color of the cell at `(x, y)`.
    pub fn cell_fg(&self, x: usize, y: usize) -> (c: Color)
        requires
            self.wf(),
            x < self.width,
            y < self.height,
        ensures
            c == self.cell(x as int, y as int).fg,
    {
        proof {
            assert((y as int) * (self.width as int) + (x as int) < (self.width as int) * (
            self.height as int)) by (nonlinear_arith)
                requires
                    0 <= (x as int) < (self.width as int),
                    0 <= (y as int) < (self.height as int),
            ;
        }
        self.cells[y * self.width + x].fg
    }

    /// The background color of the cell at `(x, y)`.
    pub fn cell_bg(&self, x: usize, y: usize) -> (c: Color)
        requires
            self.wf(),
            x < self.width,
            y < self.height,
        ensures
            c == self.cell(x as int, y as int).bg,
    {
        proof {
            assert((y as int) * (self.width as int) + (x as int) < (self.width as int) * (
            self.height as int)) by (nonlinear_arith)
                requires
                    0 <= (x as int) < (self.width as int),
                    0 <= (y as int) < (self.height as int),
            ;
        }
        self.cells[y * self.width + x].bg
    }
}

/// A fresh row of `n` blank cells with background `bg`.
fn blank_cells(n: usize, bg: Color) -> (cells: Vec<Cell>)
    ensures
        cells@.len() == n,
        forall|i: int|
            0 <= i < n ==> {
                &&& (#[trigger] cells@[i]).text@ == " "@
                &&& cells@[i].fg is Unset
                &&& cells@[i].bg == bg
            },
{
    let mut cells: Vec<Cell> = Vec::new();
    let mut i: usize = 0;
    while i < n
        invariant
            i <= n,
            cells@.len() == i,
            forall|j: int|
                0 <= j < i ==> {
                    &&& (#[trigger] cells@[j]).text@ == " "@
                    &&& cells@[j].fg is Unset
                    &&& cells@[j].bg == bg
                },
        decreases n - i,
    {
        cells.push(Cell { text: String::from_str(" "), fg: Color::Unset, bg });
        i += 1;
    }
    cells
}

} // verus!
