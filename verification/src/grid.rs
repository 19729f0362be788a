//! Which grid lines a viewport needs.
//!
//! The renderer maps the corners of its viewport into the world and takes the
//! bounding box of what it finds, in whole cells. From that box and the zoom
//! factor this module lists the indices of the grid lines to draw. The zoom
//! picks a line step from a fixed table, so that the lines do not crowd when
//! the view is zoomed out. The box is widened by [`CELL_MARGIN`] cells, both
//! ends are moved outward to a multiple of the step, and every `step`-th index
//! from the first to the last is a line. The lines of constant `x` and those of
//! constant `y` are two such lists.
//!
//! The zoom factor is taken in thousandths, rounded down: the table's
//! thresholds are whole thousandths, so nothing that the step depends on is
//! lost.

use vstd::prelude::*;

verus! {

/// Cells added to each side of the bounding box, so that lines do not pop in
/// at the edge while the view is dragged.
pub const CELL_MARGIN: i64 = 5;

/// The coarsest line step, and the one used in place of a step below one.
pub const LARGEST_STEP: i64 = 16;

/// The step that is used for `step`: itself where it is at least one, the
/// largest step otherwise, so that no caller can ask for a step of zero.
pub open spec fn effective_step(step: int) -> int {
    if step >= 1 {
        step
    } else {
        LARGEST_STEP as int
    }
}

/// The line step at a zoom factor of `zoom_permille` thousandths: every line
/// from eight tenths on, every second from a half on, every fourth from a
/// quarter on, every eighth from an eighth on, and every sixteenth below that.
pub open spec fn spec_grid_step(zoom_permille: int) -> int {
    if zoom_permille >= 800 {
        1
    } else if zoom_permille >= 500 {
        2
    } else if zoom_permille >= 250 {
        4
    } else if zoom_permille >= 125 {
        8
    } else {
        LARGEST_STEP as int
    }
}

/// The line step at a zoom factor of `zoom_permille` thousandths.
pub fn calculate_grid_step(zoom_permille: u32) -> (step: i32)
    ensures
        step == spec_grid_step(zoom_permille as int),
{
    if zoom_permille >= 800 {
        1
    } else if zoom_permille >= 500 {
        2
    } else if zoom_permille >= 250 {
        4
    } else if zoom_permille >= 125 {
        8
    } else {
        16
    }
}

/// The largest multiple of `step` that is not above `index`.
pub open spec fn floor_multiple(index: int, step: int) -> int {
    index - index % step
}

/// The smallest multiple of `step` that is not below `index`.
pub open spec fn ceil_multiple(index: int, step: int) -> int {
    index + (-index) % step
}

/// Index of the first line for a box that starts at cell `min_cell`.
pub open spec fn first_line(min_cell: int, step: int) -> int {
    floor_multiple(min_cell - CELL_MARGIN, effective_step(step))
}

/// Index of the last line for a box that ends at cell `max_cell`.
pub open spec fn last_line(max_cell: int, step: int) -> int {
    ceil_multiple(max_cell + CELL_MARGIN, effective_step(step))
}

/// The indices of the lines of one family, in increasing order: none for an
/// empty box, else every multiple of the step from the first line to the last.
pub open spec fn line_indices(min_cell: int, max_cell: int, step: int) -> Seq<int> {
    if min_cell > max_cell {
        Seq::empty()
    } else {
        let first = first_line(min_cell, step);
        let last = last_line(max_cell, step);
        Seq::new(
            ((last - first) / effective_step(step) + 1) as nat,
            |k: int| first + k * effective_step(step),
        )
    }
}

/// The indices that a vector of lines holds, as whole numbers.
pub open spec fn as_ints(lines: Seq<i64>) -> Seq<int> {
    lines.map_values(|index: i64| index as int)
}

/// The bounding box of a viewport in the world, in whole cells: along each
/// axis the cells from `min` to `max`, both included.
#[derive(Debug, Clone, Copy, PartialEq, Eq, Structural)]
pub struct CellBounds {
    pub min_x: i32,
    pub max_x: i32,
    pub min_y: i32,
    pub max_y: i32,
}

impl CellBounds {
    /// A box that holds no cell: one whose upper bound is below its lower
    /// bound on some axis.
    pub open spec fn is_empty(self) -> bool {
        self.min_x > self.max_x || self.min_y > self.max_y
    }

    /// The box of a viewport without extent: it holds no cell.
    pub fn empty() -> (bounds: Self)
        ensures
            bounds.is_empty(),
    {
        CellBounds { min_x: 0, max_x: -1, min_y: 0, max_y: -1 }
    }
}

/// The grid lines to draw, each named by its index: `vertical` holds the
/// lines of constant `x`, `horizontal` those of constant `y`.
#[derive(Debug, Clone, PartialEq, Eq)]
pub struct GridLines {
    pub vertical: Vec<i64>,
    pub horizontal: Vec<i64>,
}

/// Any whole number of steps is a multiple of the step.
proof fn lemma_steps_are_multiple(count: int, step: int)
    requires
        step >= 1,
    ensures
        (count * step) % step == 0,
{
    vstd::arithmetic::div_mod::lemma_mod_multiples_basic(count, step);
}

/// A multiple of the step is a whole number of steps.
proof fn lemma_multiple_is_steps(multiple: int, step: int)
    requires
        step >= 1,
        multiple % step == 0,
    ensures
        multiple == (multiple / step) * step,
{
    vstd::arithmetic::div_mod::lemma_fundamental_div_mod(multiple, step);
    vstd::arithmetic::mul::lemma_mul_is_commutative(step, multiple / step);
}

/// The negative of a multiple of the step is a multiple of the step.
proof fn lemma_multiple_negated(multiple: int, step: int)
    requires
        step >= 1,
        multiple % step == 0,
    ensures
        (-multiple) % step == 0,
{
    lemma_multiple_is_steps(multiple, step);
    vstd::arithmetic::mul::lemma_mul_unary_negation(multiple / step, step);
    lemma_steps_are_multiple(-(multiple / step), step);
}

/// Two multiples of the step, the second not below the first, lie a whole
/// number of steps apart.
proof fn lemma_difference_of_multiples(low: int, high: int, step: int)
    requires
        step >= 1,
        low % step == 0,
        high % step == 0,
        low <= high,
    ensures
        (high - low) / step >= 0,
        high - low == ((high - low) / step) * step,
{
    lemma_multiple_is_steps(low, step);
    lemma_multiple_is_steps(high, step);
    vstd::arithmetic::mul::lemma_mul_is_distributive_sub_other_way(step, high / step, low / step);
    lemma_steps_are_multiple(high / step - low / step, step);
    lemma_multiple_is_steps(high - low, step);
    vstd::arithmetic::div_mod::lemma_div_pos_is_pos(high - low, step);
}

/// `floor_multiple` is a multiple of the step, and the nearest one at or below
/// the index.
pub proof fn lemma_floor_multiple(index: int, step: int)
    requires
        step >= 1,
    ensures
        floor_multiple(index, step) % step == 0,
        floor_multiple(index, step) <= index < floor_multiple(index, step) + step,
        floor_multiple(index, step) == (index / step) * step,
{
    vstd::arithmetic::div_mod::lemma_fundamental_div_mod(index, step);
    vstd::arithmetic::div_mod::lemma_mod_bound(index, step);
    vstd::arithmetic::mul::lemma_mul_is_commutative(step, index / step);
    lemma_steps_are_multiple(index / step, step);
}

/// `ceil_multiple` is a multiple of the step, and the nearest one at or above
/// the index.
pub proof fn lemma_ceil_multiple(index: int, step: int)
    requires
        step >= 1,
    ensures
        ceil_multiple(index, step) % step == 0,
        index <= ceil_multiple(index, step) < index + step,
        ceil_multiple(index, step) == -floor_multiple(-index, step),
{
    lemma_floor_multiple(-index, step);
    lemma_multiple_negated(floor_multiple(-index, step), step);
}

/// A multiple of the step that lies within one step at or below the index is
/// `floor_multiple`.
proof fn lemma_floor_multiple_unique(index: int, step: int, multiple: int)
    requires
        step >= 1,
        multiple % step == 0,
        multiple <= index < multiple + step,
    ensures
        multiple == floor_multiple(index, step),
{
    lemma_multiple_is_steps(multiple, step);
    vstd::arithmetic::div_mod::lemma_fundamental_div_mod_converse(
        index,
        step,
        multiple / step,
        index - multiple,
    );
    lemma_floor_multiple(index, step);
}

/// The largest multiple of `step` at or below `index`.
fn round_down_to_step(index: i64, step: i64) -> (multiple: i64)
    requires
        1 <= step <= i32::MAX,
        -0x1_0000_0000 <= index <= 0x1_0000_0000,
    ensures
        multiple == floor_multiple(index as int, step as int),
{
    if index >= 0 {
        index - index % step
    } else {
        let over: i64 = (-index) % step;
        let multiple: i64 = if over == 0 {
            index
        } else {
            index - (step - over)
        };
        proof {
            let i = index as int;
            let s = step as int;
            vstd::arithmetic::div_mod::lemma_fundamental_div_mod(-i, s);
            vstd::arithmetic::div_mod::lemma_mod_bound(-i, s);
            vstd::arithmetic::mul::lemma_mul_is_commutative(s, (-i) / s);
            let steps = if over == 0 {
                (-i) / s
            } else {
                (-i) / s + 1
            };
            assert(-multiple == steps * s) by {
                vstd::arithmetic::mul::lemma_mul_is_distributive_add_other_way(s, (-i) / s, 1);
            }
            lemma_steps_are_multiple(steps, s);
            lemma_multiple_negated(-multiple, s);
            lemma_floor_multiple_unique(i, s, multiple as int);
        }
        multiple
    }
}

/// The smallest multiple of `step` at or above `index`.
fn round_up_to_step(index: i64, step: i64) -> (multiple: i64)
    requires
        1 <= step <= i32::MAX,
        -0x1_0000_0000 <= index <= 0x1_0000_0000,
    ensures
        multiple == ceil_multiple(index as int, step as int),
{
    proof {
        lemma_floor_multiple(-index, step as int);
        lemma_ceil_multiple(index as int, step as int);
    }
    -round_down_to_step(-index, step)
}

/// The indices of the grid lines of one family.
///
/// `min_cell` and `max_cell` bound the viewport's box along the axis that the
/// family counts, in cells; `step` says that every `step`-th line is drawn. A
/// box with `min_cell > max_cell` is empty and gets no lines. A step below one
/// is replaced by [`LARGEST_STEP`].
pub fn grid_line_indices(min_cell: i32, max_cell: i32, step: i32) -> (lines: Vec<i64>)
    ensures
        as_ints(lines@) == line_indices(min_cell as int, max_cell as int, step as int),
{
    let mut lines: Vec<i64> = Vec::new();
    if min_cell > max_cell {
        assert(as_ints(lines@) =~= Seq::<int>::empty());
        return lines;
    }
    let stride: i64 = if step >= 1 {
        step as i64
    } else {
        LARGEST_STEP
    };
    let first: i64 = round_down_to_step(min_cell as i64 - CELL_MARGIN, stride);
    let last: i64 = round_up_to_step(max_cell as i64 + CELL_MARGIN, stride);
    proof {
        lemma_floor_multiple(min_cell - CELL_MARGIN, stride as int);
        lemma_ceil_multiple(max_cell + CELL_MARGIN, stride as int);
    }
    let ghost f: int = first as int;
    let ghost l: int = last as int;
    let ghost s: int = stride as int;
    let ghost count: int = (l - f) / s + 1;
    proof {
        lemma_difference_of_multiples(f, l, s);
        vstd::arithmetic::mul::lemma_mul_is_commutative(s, count - 1);
    }
    let mut index: i64 = first;
    let ghost mut drawn: int = 0;
    while index <= last
        invariant
            s == stride,
            f == first,
            l == last,
            1 <= s <= i32::MAX,
            i32::MIN - CELL_MARGIN - s < f <= l < i32::MAX + CELL_MARGIN + s,
            l - f == s * (count - 1),
            0 <= drawn <= count,
            index == f + drawn * s,
            lines@.len() == drawn,
            forall|k: int| 0 <= k < drawn ==> lines@[k] == f + k * s,
        decreases count - drawn,
    {
        lines.push(index);
        proof {
            assert(drawn < count && (drawn + 1) * s == drawn * s + s) by (nonlinear_arith)
                requires
                    s >= 1,
                    f + drawn * s <= l,
                    l - f == s * (count - 1),
                    0 <= drawn <= count,
            ;
            drawn = drawn + 1;
        }
        index = index + stride;
    }
    proof {
        assert(drawn == count) by (nonlinear_arith)
            requires
                s >= 1,
                f + drawn * s > l,
                l - f == s * (count - 1),
                0 <= drawn <= count,
        ;
        assert(as_ints(lines@) =~= line_indices(min_cell as int, max_cell as int, step as int));
    }
    lines
}

/// The grid lines that a viewport needs at a zoom factor of `zoom_permille`
/// thousandths.
///
/// An empty box gets no lines in either family. Otherwise the zoom picks the
/// step, and each family is listed by itself from the box's extent along its
/// axis, in increasing order of index.
pub fn calculate_visible_grid(bounds: CellBounds, zoom_permille: u32) -> (lines: GridLines)
    ensures
        bounds.is_empty() ==> lines.vertical@.len() == 0 && lines.horizontal@.len() == 0,
        !bounds.is_empty() ==> as_ints(lines.vertical@) == line_indices(
            bounds.min_x as int,
            bounds.max_x as int,
            spec_grid_step(zoom_permille as int),
        ),
        !bounds.is_empty() ==> as_ints(lines.horizontal@) == line_indices(
            bounds.min_y as int,
            bounds.max_y as int,
            spec_grid_step(zoom_permille as int),
        ),
{
    if bounds.min_x > bounds.max_x || bounds.min_y > bounds.max_y {
        GridLines { vertical: Vec::new(), horizontal: Vec::new() }
    } else {
        let step = calculate_grid_step(zoom_permille);
        GridLines {
            vertical: grid_line_indices(bounds.min_x, bounds.max_x, step),
            horizontal: grid_line_indices(bounds.min_y, bounds.max_y, step),
        }
    }
}

/// Level of detail is monotone: zooming in never makes the step coarser.
pub proof fn lemma_grid_step_is_monotone(lower_zoom: int, higher_zoom: int)
    requires
        lower_zoom <= higher_zoom,
    ensures
        spec_grid_step(lower_zoom) >= spec_grid_step(higher_zoom),
{
}

/// The step from the table is never zero and never above the largest step,
/// whatever the zoom, and it is used as it stands.
pub proof fn lemma_grid_step_is_usable(zoom_permille: int)
    ensures
        1 <= spec_grid_step(zoom_permille) <= LARGEST_STEP,
        effective_step(spec_grid_step(zoom_permille)) == spec_grid_step(zoom_permille),
{
}

/// What the lines of a box that is not empty look like: there are at least
/// two, so the step never reaches past what is scanned; the first is the
/// nearest multiple of the step at or below the widened lower bound and the
/// last the nearest at or above the widened upper bound; each is a multiple of
/// the step, and each but the first lies one step above the one before it.
pub proof fn lemma_lines_span_the_box(min_cell: int, max_cell: int, step: int)
    requires
        min_cell <= max_cell,
    ensures
        ({
            let lines = line_indices(min_cell, max_cell, step);
            let stride = effective_step(step);
            &&& lines.len() >= 2
            &&& lines[0] <= min_cell - CELL_MARGIN < lines[0] + stride
            &&& lines.last() - stride < max_cell + CELL_MARGIN <= lines.last()
            &&& forall|k: int| 0 <= k < lines.len() ==> #[trigger] lines[k] % stride == 0
            &&& forall|k: int| 0 < k < lines.len() ==> #[trigger] lines[k] == lines[k - 1] + stride
        }),
{
    let lines = line_indices(min_cell, max_cell, step);
    let stride = effective_step(step);
    let first = first_line(min_cell, step);
    let last = last_line(max_cell, step);
    lemma_floor_multiple(min_cell - CELL_MARGIN, stride);
    lemma_ceil_multiple(max_cell + CELL_MARGIN, stride);
    lemma_difference_of_multiples(first, last, stride);
    let count = (last - first) / stride;
    assert(count >= 1) by {
        if count == 0 {
            vstd::arithmetic::mul::lemma_mul_basics(stride);
        }
    }
    assert(lines.len() == count + 1);
    assert(lines.last() == last);
    assert forall|k: int| 0 <= k < lines.len() implies #[trigger] lines[k] % stride == 0 by {
        lemma_multiple_is_steps(first, stride);
        vstd::arithmetic::mul::lemma_mul_is_distributive_add_other_way(stride, first / stride, k);
        lemma_steps_are_multiple(first / stride + k, stride);
    }
    assert forall|k: int| 0 < k < lines.len() implies #[trigger] lines[k] == lines[k - 1]
        + stride by {
        vstd::arithmetic::mul::lemma_mul_is_distributive_add_other_way(stride, k - 1, 1);
    }
}

/// No line is drawn for nothing: every line lies within the widened box or
/// less than one step outside it.
pub proof fn lemma_no_line_beyond_the_box(min_cell: int, max_cell: int, step: int, k: int)
    requires
        min_cell <= max_cell,
        0 <= k < line_indices(min_cell, max_cell, step).len(),
    ensures
        min_cell - CELL_MARGIN - effective_step(step) < line_indices(min_cell, max_cell, step)[k],
        line_indices(min_cell, max_cell, step)[k] < max_cell + CELL_MARGIN + effective_step(step),
{
    let stride = effective_step(step);
    let first = first_line(min_cell, step);
    let last = last_line(max_cell, step);
    lemma_floor_multiple(min_cell - CELL_MARGIN, stride);
    lemma_ceil_multiple(max_cell + CELL_MARGIN, stride);
    lemma_difference_of_multiples(first, last, stride);
    let count = (last - first) / stride;
    vstd::arithmetic::mul::lemma_mul_inequality(k, count, stride);
    vstd::arithmetic::mul::lemma_mul_nonnegative(k, stride);
}

/// The lines are all the multiples of the step from the first line to the
/// last: none is left out.
pub proof fn lemma_every_multiple_is_a_line(min_cell: int, max_cell: int, step: int, index: int)
    requires
        min_cell <= max_cell,
        index % effective_step(step) == 0,
        first_line(min_cell, step) <= index <= last_line(max_cell, step),
    ensures
        line_indices(min_cell, max_cell, step).contains(index),
{
    let lines = line_indices(min_cell, max_cell, step);
    let stride = effective_step(step);
    let first = first_line(min_cell, step);
    let last = last_line(max_cell, step);
    lemma_floor_multiple(min_cell - CELL_MARGIN, stride);
    lemma_ceil_multiple(max_cell + CELL_MARGIN, stride);
    lemma_difference_of_multiples(first, last, stride);
    lemma_difference_of_multiples(first, index, stride);
    let k = (index - first) / stride;
    vstd::arithmetic::div_mod::lemma_div_is_ordered(index - first, last - first, stride);
    assert(lines[k] == index);
}

} // verus!
