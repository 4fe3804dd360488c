//! The drawing model of the user interface: a clip rectangle and a style
//! over a terminal of known size, and the cells that drawing paints.
//!
//! Drawing does not touch the terminal itself: each drawing operation
//! returns the cells it paints, in painting order, and the caller hands
//! them to the terminal (a later cell at the same position wins).

use vstd::prelude::*;

verus! {

/// What a `UI` draws with: where it may draw and how.
#[derive(Clone, Copy, Debug, PartialEq, Eq, Structural)]
pub struct State {
    pub clip: Rect,
    pub style: Style,
}

/// The attributes of drawn text.
#[derive(Clone, Copy, Debug, PartialEq, Eq, Structural)]
pub struct Style {
    pub bold: bool,
    pub underline: bool,
    pub reverse: bool,
    pub foreground_color: Color,
    pub background_color: Color,
}

/// A rectangle of terminal cells: columns `left..right`, rows `top..bottom`.
#[derive(Clone, Copy, Debug, PartialEq, Eq, Structural, PartialOrd, Ord)]
pub struct Rect {
    pub left: usize,
    pub top: usize,
    pub right: usize,
    pub bottom: usize,
}

/// A terminal color.
#[derive(Clone, Copy, Debug, PartialEq, Eq, Structural)]
pub enum Color {
    Default,
    Black,
    Red,
    Green,
    Yellow,
    Blue,
    Magenta,
    Cyan,
    White,
}

/// One painted terminal cell: its column `x`, its row `y`, its character
/// and its style.
#[derive(Clone, Copy, Debug, PartialEq, Eq, Structural)]
pub struct Cell {
    pub x: usize,
    pub y: usize,
    pub ch: char,
    pub style: Style,
}

/// A drawing context over a terminal of `width` columns and `height` rows.
pub struct UI {
    width: usize,
    height: usize,
    state: State,
}

/// The number of positions in `lo..hi` (zero when the range is empty).
pub open spec fn span(lo: usize, hi: usize) -> nat {
    if lo < hi {
        (hi - lo) as nat
    } else {
        0
    }
}

/// The plain style: no attributes, default colors.
pub open spec fn plain_style() -> Style {
    Style {
        bold: false,
        underline: false,
        reverse: false,
        foreground_color: Color::Default,
        background_color: Color::Default,
    }
}

/// The state of a fresh drawing context: the whole terminal, plain style.
pub open spec fn initial_state(width: usize, height: usize) -> State {
    State { clip: Rect { left: 0, top: 0, right: width, bottom: height }, style: plain_style() }
}

/// The cell at column `x`, row `y`.
pub open spec fn cell_at(x: int, y: int, ch: char, style: Style) -> Cell {
    Cell { x: x as usize, y: y as usize, ch, style }
}

/// The blank cells of row `y` of `clip`, left to right.
pub open spec fn row_cells(clip: Rect, style: Style, y: int) -> Seq<Cell> {
    Seq::new(span(clip.left, clip.right), |j: int| cell_at(clip.left + j, y, ' ', style))
}

/// The blank cells of the first `n` rows of `clip`, row by row.
pub open spec fn rows_cells(clip: Rect, style: Style, n: nat) -> Seq<Cell>
    decreases n,
{
    if n == 0 {
        Seq::empty()
    } else {
        rows_cells(clip, style, (n - 1) as nat) + row_cells(clip, style, clip.top + n - 1)
    }
}

/// The blank cells that cover `clip`, row by row, each row left to right.
pub open spec fn fill_cells(clip: Rect, style: Style) -> Seq<Cell> {
    rows_cells(clip, style, span(clip.top, clip.bottom))
}

/// The cells of `text` on the top row of `clip`, one character per
/// column from the left edge on.
pub open spec fn text_cells(clip: Rect, style: Style, text: Seq<char>) -> Seq<Cell> {
    Seq::new(text.len(), |i: int| cell_at(clip.left + i, clip.top as int, text[i], style))
}

/// The first `n` rows of blank cells list the cells row by row: the cell
/// at index `i` is in column `left + i % w` of row `top + i / w`, where `w`
/// is the clip's width.
proof fn lemma_rows_cells(clip: Rect, style: Style, n: nat)
    ensures
        rows_cells(clip, style, n).len() == n * span(clip.left, clip.right),
        span(clip.left, clip.right) > 0 ==> forall|i: int|
            0 <= i < rows_cells(clip, style, n).len() ==> #[trigger] rows_cells(clip, style, n)[i]
                == cell_at(
                clip.left + i % (span(clip.left, clip.right) as int),
                clip.top + i / (span(clip.left, clip.right) as int),
                ' ',
                style,
            ),
    decreases n,
{
    let w = span(clip.left, clip.right) as int;
    if n > 0 {
        let m = (n - 1) as nat;
        lemma_rows_cells(clip, style, m);
        let prev = rows_cells(clip, style, m);
        let all = rows_cells(clip, style, n);
        assert(n * w == m * w + w) by (nonlinear_arith)
            requires
                n == m + 1,
        ;
        if w > 0 {
            assert forall|i: int| 0 <= i < all.len() implies #[trigger] all[i] == cell_at(
                clip.left + i % w,
                clip.top + i / w,
                ' ',
                style,
            ) by {
                if i < prev.len() {
                    assert(all[i] == prev[i]);
                } else {
                    let j = i - m * w;
                    vstd::arithmetic::div_mod::lemma_fundamental_div_mod_converse(i, w, m as int, j);
                    assert(all[i] == row_cells(clip, style, clip.top + n - 1)[j]);
                }
            }
        }
    } else {
        assert(0 * w == 0) by (nonlinear_arith);
    }
}

/// Filling paints each cell of the clip exactly once, row by row and
/// each row left to right, all blank and in the given style: the fill has
/// width times height cells, and the cell at index `i` is in column
/// `left + i % width` of row `top + i / width`.
pub proof fn lemma_fill_covers_clip(clip: Rect, style: Style)
    ensures
        fill_cells(clip, style).len() == span(clip.left, clip.right) * span(clip.top, clip.bottom),
        span(clip.left, clip.right) > 0 ==> forall|i: int|
            0 <= i < fill_cells(clip, style).len() ==> {
                let c = #[trigger] fill_cells(clip, style)[i];
                &&& c.x == clip.left + i % (span(clip.left, clip.right) as int)
                &&& c.y == clip.top + i / (span(clip.left, clip.right) as int)
            },
        forall|i: int|
            0 <= i < fill_cells(clip, style).len() ==> {
                let c = #[trigger] fill_cells(clip, style)[i];
                &&& clip.left <= c.x < clip.right
                &&& clip.top <= c.y < clip.bottom
                &&& c.ch == ' '
                &&& c.style == style
            },
{
    lemma_rows_cells(clip, style, span(clip.top, clip.bottom));
    let w = span(clip.left, clip.right) as int;
    let h = span(clip.top, clip.bottom) as int;
    assert(w * h == h * w) by (nonlinear_arith);
    let cells = fill_cells(clip, style);
    assert forall|i: int| 0 <= i < cells.len() implies {
        let c = #[trigger] cells[i];
        &&& clip.left <= c.x < clip.right
        &&& clip.top <= c.y < clip.bottom
        &&& c.ch == ' '
        &&& c.style == style
    } by {
        assert(w > 0) by (nonlinear_arith)
            requires
                0 <= i < w * h,
                w >= 0,
                h >= 0,
        ;
        assert(0 <= i % w < w && 0 <= i / w < h) by (nonlinear_arith)
            requires
                0 <= i < h * w,
                w > 0,
        ;
    }
    if w > 0 {
        assert forall|i: int| 0 <= i < cells.len() implies {
            let c = #[trigger] cells[i];
            &&& c.x == clip.left + i % w
            &&& c.y == clip.top + i / w
        } by {
            assert(0 <= i % w < w && 0 <= i / w < h) by (nonlinear_arith)
                requires
                    0 <= i < h * w,
                    w > 0,
            ;
        }
    }
}

/// Drawing text paints the fill first and then, right after it, one cell
/// per character of the text: the `i`-th on the clip's top row, in column
/// `left + i`, holding the `i`-th character, in the current style.
pub proof fn lemma_draw_text_places_text(clip: Rect, style: Style, text: Seq<char>)
    requires
        clip.left + text.len() <= usize::MAX + 1,
    ensures
        (fill_cells(clip, style) + text_cells(clip, style, text)).len() == fill_cells(clip, style).len()
            + text.len(),
        forall|i: int|
            0 <= i < text.len() ==> {
                let c = #[trigger] (fill_cells(clip, style) + text_cells(clip, style, text))[fill_cells(
                    clip,
                    style,
                ).len() + i];
                &&& c.x == clip.left + i
                &&& c.y == clip.top
                &&& c.ch == text[i]
                &&& c.style == style
            },
{
    let f = fill_cells(clip, style);
    let all = f + text_cells(clip, style, text);
    assert forall|i: int| 0 <= i < text.len() implies {
        let c = #[trigger] all[f.len() + i];
        &&& c.x == clip.left + i
        &&& c.y == clip.top
        &&& c.ch == text[i]
        &&& c.style == style
    } by {
        assert(all[f.len() + i] == text_cells(clip, style, text)[i]);
    }
}

impl UI {
    /// The size of the terminal drawn on, as (columns, rows).
    pub closed spec fn target_size(&self) -> (usize, usize) {
        (self.width, self.height)
    }

    /// The current clip and style.
    pub closed spec fn state(&self) -> State {
        self.state
    }

    /// A drawing context over the whole of a `width` by `height` terminal,
    /// in the plain style.
    pub fn new(width: usize, height: usize) -> (ui: UI)
        ensures
            ui.target_size() == (width, height),
            ui.state() == initial_state(width, height),
            ui.state().clip == (Rect { left: 0, top: 0, right: width, bottom: height }),
            !ui.state().style.bold && !ui.state().style.underline && !ui.state().style.reverse,
            ui.state().style.foreground_color == Color::Default,
            ui.state().style.background_color == Color::Default,
    {
        UI {
            width: width,
            height: height,
            state: State {
                clip: Rect { left: 0, top: 0, right: width, bottom: height },
                style: Style {
                    bold: false,
                    underline: false,
                    reverse: false,
                    foreground_color: Color::Default,
                    background_color: Color::Default,
                },
            },
        }
    }

    /// The style to draw with, for changing.
    pub fn style(&mut self) -> (r: &mut Style)
        ensures
            *r == old(self).state().style,
            final(self).target_size() == old(self).target_size(),
            final(self).state() == (State { clip: old(self).state().clip, style: *final(r) }),
    {
        &mut self.state.style
    }

    /// The clip rectangle, for changing.
    pub fn clip(&mut self) -> (r: &mut Rect)
        ensures
            *r == old(self).state().clip,
            final(self).target_size() == old(self).target_size(),
            final(self).state() == (State { clip: *final(r), style: old(self).state().style }),
    {
        &mut self.state.clip
    }

    /// A fresh drawing context over the same terminal.
    pub fn push(&self) -> (ui: UI)
        ensures
            ui.target_size() == self.target_size(),
            ui.state() == initial_state(self.target_size().0, self.target_size().1),
            ui.state().clip == (Rect {
                left: 0,
                top: 0,
                right: self.target_size().0,
                bottom: self.target_size().1,
            }),
            !ui.state().style.bold && !ui.state().style.underline && !ui.state().style.reverse,
            ui.state().style.foreground_color == Color::Default,
            ui.state().style.background_color == Color::Default,
    {
        UI::new(self.width, self.height)
    }

    /// Paints every cell of the clip blank, in the current style.
    pub fn fill(&self) -> (cells: Vec<Cell>)
        ensures
            cells@ == fill_cells(self.state().clip, self.state().style),
    {
        let clip = self.state.clip;
        let style = self.state.style;
        let mut cells: Vec<Cell> = Vec::new();
        let mut y: usize = clip.top;
        while y < clip.bottom
            invariant
                style == self.state().style,
                clip.top <= y,
                y <= clip.bottom || y == clip.top,
                cells@ == rows_cells(clip, style, (y - clip.top) as nat),
            decreases clip.bottom - y,
        {
            let ghost before = cells@;
            let mut x: usize = clip.left;
            while x < clip.right
                invariant
                    style == self.state().style,
                    clip.top <= y < clip.bottom,
                    clip.left <= x,
                    x <= clip.right || x == clip.left,
                    cells@ == before + row_cells(clip, style, y as int).take(x - clip.left),
                decreases clip.right - x,
            {
                cells.push(self.plot(x, y));
                assert(row_cells(clip, style, y as int).take(x + 1 - clip.left)
                    =~= row_cells(clip, style, y as int).take(x - clip.left).push(
                        cell_at(x as int, y as int, ' ', style),
                    ));
                x = x + 1;
            }
            assert(row_cells(clip, style, y as int).take(x - clip.left)
                =~= row_cells(clip, style, y as int));
            y = y + 1;
        }
        cells
    }

    /// Paints the clip blank, then `contents` on the clip's top row, one
    /// character per column from the clip's left edge on.
    pub fn draw_text(&self, contents: &str) -> (cells: Vec<Cell>)
        requires
            self.state().clip.left + contents@.len() <= usize::MAX + 1,
            contents@.len() <= usize::MAX,
        ensures
            cells@ == fill_cells(self.state().clip, self.state().style) + text_cells(
                self.state().clip,
                self.state().style,
                contents@,
            ),
            cells@.len() == fill_cells(self.state().clip, self.state().style).len() + contents@.len(),
            forall|i: int|
                0 <= i < contents@.len() ==> {
                    let c = #[trigger] cells@[fill_cells(self.state().clip, self.state().style).len() + i];
                    &&& c.x == self.state().clip.left + i
                    &&& c.y == self.state().clip.top
                    &&& c.ch == contents@[i]
                    &&& c.style == self.state().style
                },
    {
        proof {
            lemma_draw_text_places_text(self.state().clip, self.state().style, contents@);
        }
        let clip = self.state.clip;
        let mut cells = self.fill();
        let ghost filled = cells@;
        let mut col: usize = 0;
        let row: usize = 0;
        for c in it: contents.chars()
            invariant
                col == it.index(),
                it.seq() == contents@,
                clip == self.state().clip,
                row == 0,
                clip.left + contents@.len() <= usize::MAX + 1,
                contents@.len() <= usize::MAX,
                cells@ == filled + text_cells(clip, self.state().style, contents@).take(col as int),
        {
            cells.push(self.set(clip.left + col, clip.top + row, c));
            assert(text_cells(clip, self.state().style, contents@).take(col + 1)
                =~= text_cells(clip, self.state().style, contents@).take(col as int).push(
                    cell_at(clip.left + col, clip.top as int, c, self.state().style),
                ));
            col += 1;
        }
        assert(text_cells(clip, self.state().style, contents@).take(col as int)
            =~= text_cells(clip, self.state().style, contents@));
        cells
    }

    fn set(&self, x: usize, y: usize, c: char) -> (cell: Cell)
        ensures
            cell == cell_at(x as int, y as int, c, self.state().style),
    {
        Cell { x: x, y: y, ch: c, style: self.state.style }
    }

    fn plot(&self, x: usize, y: usize) -> (cell: Cell)
        ensures
            cell == cell_at(x as int, y as int, ' ', self.state().style),
    {
        self.set(x, y, ' ')
    }
}

} // verus!
