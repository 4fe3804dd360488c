//! Widgets: text, and layouts that share their space among weighted
//! children.
//!
//! Splitting a layout's extent among its children scales each child's
//! weight range by a floating-point ratio; that scaling is done by the
//! caller. This module holds the rest: the weight bookkeeping, the child
//! rectangles, and the drawing of text widgets.

use vstd::prelude::*;

use crate::ui::{fill_cells, text_cells, Cell, Color, Rect, State, Style, UI};

verus! {

/// A piece of the user interface.
pub enum Widget {
    /// Text drawn over the whole of its space.
    Text { contents: String },
    /// Children side by side (or stacked), each given a share of the space
    /// in proportion to its weight.
    LinearLayout { orientation: Orientation, children: Vec<(usize, Widget)> },
}

/// The direction in which a layout places its children.
#[derive(Clone, Copy, Debug, PartialEq, Eq, Structural)]
pub enum Orientation {
    Horizontal,
    Vertical,
}

/// The style of a text widget: the given style, bold, white on blue.
pub open spec fn text_widget_style(s: Style) -> Style {
    Style {
        bold: true,
        underline: s.underline,
        reverse: s.reverse,
        foreground_color: Color::White,
        background_color: Color::Blue,
    }
}

/// The sum of the weights of the first `n` children.
pub open spec fn weight_prefix(children: Seq<(usize, Widget)>, n: int) -> int
    decreases n,
{
    if n <= 0 {
        0
    } else {
        weight_prefix(children, n - 1) + children[n - 1].0
    }
}

/// The sum of the weights of all children.
pub open spec fn weight_total(children: Seq<(usize, Widget)>) -> int {
    weight_prefix(children, children.len() as int)
}

/// The rectangle of a child that spans `lower..upper` across the layout's
/// direction; along the other direction it spans the whole of `total`.
pub open spec fn child_clip(o: Orientation, total: Rect, lower: usize, upper: usize) -> Rect {
    match o {
        Orientation::Horizontal => Rect {
            left: lower,
            top: total.top,
            right: upper,
            bottom: total.bottom,
        },
        Orientation::Vertical => Rect {
            left: total.left,
            top: lower,
            right: total.right,
            bottom: upper,
        },
    }
}

/// Drawing a text widget changes only three things of the style: it turns
/// bold on, the foreground white and the background blue; underline and
/// reverse are kept as they were. Doing it again changes nothing more.
pub proof fn lemma_text_widget_style(s: Style)
    ensures
        text_widget_style(s).bold,
        text_widget_style(s).foreground_color == Color::White,
        text_widget_style(s).background_color == Color::Blue,
        text_widget_style(s).underline == s.underline,
        text_widget_style(s).reverse == s.reverse,
        text_widget_style(text_widget_style(s)) == text_widget_style(s),
{
}

/// A child's rectangle spans `lower..upper` across the layout's direction
/// and the whole of the layout's rectangle along the other direction.
pub proof fn lemma_child_clip(o: Orientation, total: Rect, lower: usize, upper: usize)
    ensures
        o == Orientation::Horizontal ==> {
            let r = child_clip(o, total, lower, upper);
            &&& r.left == lower && r.right == upper
            &&& r.top == total.top && r.bottom == total.bottom
        },
        o == Orientation::Vertical ==> {
            let r = child_clip(o, total, lower, upper);
            &&& r.top == lower && r.bottom == upper
            &&& r.left == total.left && r.right == total.right
        },
{
}

/// Weight prefixes never decrease.
pub proof fn lemma_weight_prefix_monotone(children: Seq<(usize, Widget)>, i: int, j: int)
    requires
        0 <= i <= j <= children.len(),
    ensures
        0 <= weight_prefix(children, i) <= weight_prefix(children, j),
    decreases j - i,
{
    if i < j {
        lemma_weight_prefix_monotone(children, i, j - 1);
    } else {
        lemma_weight_prefix_nonneg(children, i);
    }
}

/// The weight ranges tile the total weight: the first starts at zero,
/// each spans exactly its child's weight, each starts where the one before
/// it ends, and the last ends at the total.
pub proof fn lemma_weight_ranges_tile(children: Seq<(usize, Widget)>)
    ensures
        weight_prefix(children, 0) == 0,
        forall|i: int|
            0 <= i < children.len() ==> #[trigger] weight_prefix(children, i + 1) == weight_prefix(
                children,
                i,
            ) + children[i].0,
        weight_prefix(children, children.len() as int) == weight_total(children),
{
}

proof fn lemma_weight_prefix_nonneg(children: Seq<(usize, Widget)>, n: int)
    ensures
        0 <= weight_prefix(children, n),
    decreases n,
{
    if n > 0 {
        lemma_weight_prefix_nonneg(children, n - 1);
    }
}

impl Widget {
    /// Draws a text widget: the whole clip in bold white on blue, with the
    /// contents on its top row. The style stays set on `ui`.
    pub fn render_text(ui: &mut UI, contents: &str) -> (cells: Vec<Cell>)
        requires
            old(ui).state().clip.left + contents@.len() <= usize::MAX + 1,
            contents@.len() <= usize::MAX,
        ensures
            final(ui).target_size() == old(ui).target_size(),
            final(ui).state() == (State {
                clip: old(ui).state().clip,
                style: text_widget_style(old(ui).state().style),
            }),
            final(ui).state().style.bold,
            final(ui).state().style.foreground_color == Color::White,
            final(ui).state().style.background_color == Color::Blue,
            final(ui).state().style.underline == old(ui).state().style.underline,
            final(ui).state().style.reverse == old(ui).state().style.reverse,
            cells@ == fill_cells(final(ui).state().clip, final(ui).state().style) + text_cells(
                final(ui).state().clip,
                final(ui).state().style,
                contents@,
            ),
    {
        ui.style().background_color = Color::Blue;
        ui.style().foreground_color = Color::White;
        ui.style().bold = true;
        ui.draw_text(contents)
    }

    /// The sum of the children's weights.
    pub fn total_weight(children: &Vec<(usize, Widget)>) -> (total: usize)
        requires
            weight_total(children@) <= usize::MAX,
        ensures
            total == weight_total(children@),
    {
        let mut total: usize = 0;
        let mut i: usize = 0;
        while i < children.len()
            invariant
                i <= children@.len(),
                total == weight_prefix(children@, i as int),
                weight_total(children@) <= usize::MAX,
            decreases children@.len() - i,
        {
            proof {
                lemma_weight_prefix_monotone(children@, i + 1, children@.len() as int);
            }
            total = total + children[i].0;
            i = i + 1;
        }
        total
    }

    /// The weight range of each child: from the sum of the weights before
    /// it to that sum plus its own weight.
    pub fn weight_ranges(children: &Vec<(usize, Widget)>) -> (ranges: Vec<(usize, usize)>)
        requires
            weight_total(children@) <= usize::MAX,
        ensures
            ranges@.len() == children@.len(),
            forall|i: int|
                0 <= i < ranges@.len() ==> #[trigger] ranges@[i] == (
                    weight_prefix(children@, i) as usize,
                    weight_prefix(children@, i + 1) as usize,
                ),
    {
        let mut ranges: Vec<(usize, usize)> = Vec::new();
        let mut taken: usize = 0;
        let mut i: usize = 0;
        while i < children.len()
            invariant
                i <= children@.len(),
                ranges@.len() == i,
                taken == weight_prefix(children@, i as int),
                weight_total(children@) <= usize::MAX,
                forall|k: int|
                    0 <= k < i ==> #[trigger] ranges@[k] == (
                        weight_prefix(children@, k) as usize,
                        weight_prefix(children@, k + 1) as usize,
                    ),
            decreases children@.len() - i,
        {
            proof {
                lemma_weight_prefix_monotone(children@, i + 1, children@.len() as int);
            }
            let next = taken + children[i].0;
            ranges.push((taken, next));
            taken = next;
            i = i + 1;
        }
        ranges
    }
}

impl Orientation {
    /// The rectangle of a child that spans `lower..upper` across this
    /// direction, within the layout's rectangle `total`.
    pub fn sub_clip(&self, total: &Rect, lower: usize, upper: usize) -> (r: Rect)
        ensures
            r == child_clip(*self, *total, lower, upper),
            *self == Orientation::Horizontal ==> r == (Rect {
                left: lower,
                top: total.top,
                right: upper,
                bottom: total.bottom,
            }),
            *self == Orientation::Vertical ==> r == (Rect {
                left: total.left,
                top: lower,
                right: total.right,
                bottom: upper,
            }),
    {
        match self {
            Orientation::Horizontal => Rect {
                top: total.top,
                bottom: total.bottom,
                left: lower,
                right: upper,
            },
            Orientation::Vertical => Rect {
                top: lower,
                bottom: upper,
                left: total.left,
                right: total.right,
            },
        }
    }
}

} // verus!
