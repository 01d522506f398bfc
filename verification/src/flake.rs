//! One falling stream of glyphs: how it grows, scrolls and is painted.

use crate::env::{effective_max_length, is_glyph, Env, Size};
use vstd::prelude::*;

verus! {

/// The glyph that wipes a cell.
pub const BLANK: char = ' ';

/// One falling stream. `start` is the row of its oldest glyph, `content` holds the
/// glyphs from the oldest to the newest, one row each.
#[derive(Debug, Clone, PartialEq, Eq)]
pub struct Flake {
    pub start: u16,
    pub column: u16,
    pub content: Vec<char>,
}

/// A flake as a mathematical value.
pub struct FlakeView {
    pub start: nat,
    pub column: nat,
    pub content: Seq<char>,
}

impl View for Flake {
    type V = FlakeView;

    open spec fn view(&self) -> FlakeView {
        FlakeView {
            start: self.start as nat,
            column: self.column as nat,
            content: self.content@,
        }
    }
}

/// How a cell is painted.
#[derive(Debug, Clone, Copy, PartialEq, Eq, Structural)]
pub enum Tone {
    /// The tone of the newest glyph of a stream, and of a wiped cell.
    Bright,
    /// The tone of the glyph just above the newest one.
    Dim,
}

/// One cell of the terminal to repaint.
#[derive(Debug, Clone, Copy, PartialEq, Eq, Structural)]
pub struct Cell {
    pub column: u16,
    pub row: u16,
    pub tone: Tone,
    pub glyph: char,
}

impl FlakeView {
    /// The flake that a spawn creates: one glyph in the top row.
    pub open spec fn fresh(column: nat, glyph: char) -> FlakeView {
        FlakeView { start: 0, column, content: seq![glyph] }
    }

    /// Row of the newest glyph. Meaningful for a flake that holds a glyph.
    pub open spec fn head(self) -> int {
        self.start + self.content.len() - 1
    }

    /// The newest glyph. Meaningful for a flake that holds a glyph.
    pub open spec fn newest(self) -> char {
        self.content[self.content.len() - 1]
    }

    /// The glyph just older than the newest. Meaningful for a flake that holds two.
    pub open spec fn second_newest(self) -> char {
        self.content[self.content.len() - 2]
    }

    /// Whether the flake has reached the length it is held to, so that it scrolls
    /// instead of growing.
    pub open spec fn is_full(self, max_length: u16) -> bool {
        self.content.len() >= effective_max_length(max_length)
    }

    /// The flake one tick later, `glyph` being the glyph drawn for it. A flake
    /// that is not full keeps its place and gains the glyph; a full one moves down
    /// a row, loses its oldest glyph and gains the new one.
    pub open spec fn advance(self, max_length: u16, glyph: char) -> FlakeView {
        if self.is_full(max_length) {
            FlakeView {
                start: self.start + 1,
                column: self.column,
                content: self.content.drop_first().push(glyph),
            }
        } else {
            FlakeView {
                start: self.start,
                column: self.column,
                content: self.content.push(glyph),
            }
        }
    }

    /// The cells that painting the flake touches, in the order in which they are
    /// painted: its newest glyph, the glyph above it, and a blank over its oldest
    /// row. A cell outside the terminal is left out, so is the second where the
    /// flake has no second glyph, and a flake without glyphs paints nothing.
    pub open spec fn render(self, size: Size) -> Seq<Cell> {
        if self.content.len() == 0 || self.column >= size.cols {
            Seq::empty()
        } else {
            let head = self.head();
            let len = self.content.len() as int;
            let column = self.column as u16;
            let newest = if head < size.rows {
                seq![Cell { column, row: head as u16, tone: Tone::Bright, glyph: self.newest() }]
            } else {
                Seq::empty()
            };
            let above = if len >= 2 && 0 <= head - 1 < size.rows {
                seq![Cell { column, row: (head - 1) as u16, tone: Tone::Dim, glyph: self.second_newest() }]
            } else {
                Seq::empty()
            };
            let oldest = if self.start < size.rows {
                seq![Cell { column, row: self.start as u16, tone: Tone::Bright, glyph: BLANK }]
            } else {
                Seq::empty()
            };
            newest + above + oldest
        }
    }
}

/// Appends `item` to `vec`.
pub fn push<T>(vec: Vec<T>, item: T) -> (out: Vec<T>)
    ensures
        out@ == vec@.push(item),
{
    let mut out = vec;
    out.push(item);
    out
}

impl Flake {
    /// A new flake in the top row of `column`, holding `glyph` alone.
    pub fn fresh(column: u16, glyph: char) -> (flake: Flake)
        ensures
            flake@ == FlakeView::fresh(column as nat, glyph),
    {
        let content: Vec<char> = push(Vec::new(), glyph);
        proof {
            assert(content@ =~= seq![glyph]);
        }
        Flake { start: 0, column, content }
    }

    /// The cells to repaint for this flake on a terminal of the given size, in
    /// painting order.
    pub fn render(&self, size: Size) -> (cells: Vec<Cell>)
        ensures
            cells@ == self@.render(size),
    {
        let mut cells: Vec<Cell> = Vec::new();
        let len: usize = self.content.len();
        if len == 0 || self.column >= size.cols || self.start >= size.rows {
            return cells;
        }
        let room: usize = (size.rows - self.start) as usize;
        if len - 1 < room {
            let row: u16 = self.start + ((len - 1) as u16);
            cells.push(Cell { column: self.column, row, tone: Tone::Bright, glyph: self.content[len - 1] });
        }
        if len >= 2 && len - 2 < room {
            let row: u16 = self.start + ((len - 2) as u16);
            cells.push(Cell { column: self.column, row, tone: Tone::Dim, glyph: self.content[len - 2] });
        }
        cells.push(Cell { column: self.column, row: self.start, tone: Tone::Bright, glyph: BLANK });
        proof {
            assert(cells@ =~= self@.render(size));
        }
        cells
    }

    /// The flake one tick later, given the glyph drawn for it.
    pub fn advance(self, max_length: u16, glyph: char) -> (next: Flake)
        requires
            self@.is_full(max_length) ==> self.start < u16::MAX,
        ensures
            next@ == self@.advance(max_length, glyph),
    {
        let limit: usize = if max_length == 0 {
            1
        } else {
            max_length as usize
        };
        if self.content.len() < limit {
            Flake { start: self.start, column: self.column, content: push(self.content, glyph) }
        } else {
            let mut rest: Vec<char> = self.content;
            rest.remove(0);
            proof {
                assert(rest@ =~= self.content@.drop_first());
            }
            Flake { start: self.start + 1, column: self.column, content: push(rest, glyph) }
        }
    }

    /// The flake one tick later, with a glyph drawn from the environment.
    pub fn next(self, env: &mut Env) -> (next: Flake)
        requires
            self@.is_full(old(env).max_length) ==> self.start < u16::MAX,
        ensures
            exists|glyph: char|
                is_glyph(glyph) && next@ == #[trigger] self@.advance(old(env).max_length, glyph),
            final(env)@ == old(env)@,
    {
        let max_length: u16 = env.max_length;
        let glyph: char = env.random_char();
        let next = self.advance(max_length, glyph);
        proof {
            assert(is_glyph(glyph) && next@ == self@.advance(max_length, glyph));
        }
        next
    }
}

} // verus!
