//! The brick pickers of the filter, feature-flag and worktree panels: items
//! flow left to right into rows, and the arrow keys move between them.
use vstd::prelude::*;
use crate::text::{chars_of, push_char};

verus! {

/// The narrowest the filter panel gets.
pub const FILTER_PANEL_MIN_WIDTH: u16 = 32;
/// The widest the filter panel gets.
pub const FILTER_PANEL_MAX_WIDTH: u16 = 78;
/// The gap between two bricks of a row.
pub const FILTER_BRICK_GAP: usize = 1;
/// The cells a brick takes besides its text.
pub const FILTER_BRICK_CHROME: usize = 4;

/// One item's place in the layout.
#[derive(Clone, PartialEq, Eq, Debug)]
pub struct PickerBrick {
    /// The item's index.
    pub index: usize,
    /// The row the brick sits in.
    pub row: usize,
    /// The brick's first cell.
    pub x: usize,
    /// The brick's width in cells.
    pub width: usize,
}

/// An arrow key in a picker.
#[derive(Clone, Copy, PartialEq, Eq, Structural, Debug)]
pub enum PickerMove {
    /// The previous item.
    Left,
    /// The next item.
    Right,
    /// The nearest item of the row above (wrapping to the last row).
    Up,
    /// The nearest item of the row below (wrapping to the first row).
    Down,
}

/// A brick as numbers: `(index, row, x, width)`.
pub open spec fn brick_view(b: PickerBrick) -> (nat, nat, nat, nat) {
    (b.index as nat, b.row as nat, b.x as nat, b.width as nat)
}

/// The bricks of the first `n` items and the row and next free cell after them.
pub open spec fn layout_prefix(widths: Seq<nat>, width: nat, n: nat) -> (Seq<(nat, nat, nat, nat)>, nat, nat)
    decreases n,
{
    if n == 0 || n > widths.len() {
        (seq![], 0, 0)
    } else {
        let prev = layout_prefix(widths, width, (n - 1) as nat);
        let row = prev.1;
        let x = prev.2;
        let w = widths[n - 1];
        let wraps = x > 0 && x + FILTER_BRICK_GAP + w > width;
        let row2 = if wraps { row + 1 } else { row };
        let x2: nat = if wraps { 0 } else { x };
        let bx: nat = if x2 == 0 { 0 } else { (x2 + FILTER_BRICK_GAP) as nat };
        (prev.0.push(((n - 1) as nat, row2, bx, w)), row2, bx + w)
    }
}

/// The layout of items of the given widths in rows `width` cells wide: each
/// brick follows the previous one after a one-cell gap, and starts a new row
/// when it would not fit (a brick alone in its row may overflow it).
pub open spec fn layout_spec(widths: Seq<nat>, width: nat) -> Seq<(nat, nat, nat, nat)> {
    layout_prefix(widths, width, widths.len()).0
}

proof fn lemma_layout_prefix_len(widths: Seq<nat>, width: nat, n: nat)
    requires
        n <= widths.len(),
    ensures
        layout_prefix(widths, width, n).0.len() == n,
    decreases n,
{
    if n > 0 {
        lemma_layout_prefix_len(widths, width, (n - 1) as nat);
    }
}

/// Lays out items of the given widths in rows `width` cells wide (at least one).
pub fn picker_brick_layout(widths: &Vec<usize>, width: usize) -> (r: Vec<PickerBrick>)
    ensures
        r@.map_values(|b: PickerBrick| brick_view(b)) == layout_spec(
            widths@.map_values(|x: usize| x as nat),
            if width == 0 { 1 } else { width as nat },
        ),
{
    let width = if width == 0 { 1 } else { width };
    let ghost ws = widths@.map_values(|x: usize| x as nat);
    let mut row: usize = 0;
    let mut x: usize = 0;
    let mut layout: Vec<PickerBrick> = Vec::new();
    let mut index: usize = 0;
    while index < widths.len()
        invariant
            index <= widths.len(),
            width >= 1,
            ws == widths@.map_values(|x: usize| x as nat),
            row <= index,
            layout@.map_values(|b: PickerBrick| brick_view(b)) == layout_prefix(ws, width as nat, index as nat).0,
            row as nat == layout_prefix(ws, width as nat, index as nat).1,
            x as nat == layout_prefix(ws, width as nat, index as nat).2,
        decreases widths.len() - index,
    {
        let brick_width = widths[index];
        if x > 0 && (x as u128) + (FILTER_BRICK_GAP as u128) + (brick_width as u128) > width as u128 {
            row += 1;
            x = 0;
        }
        let gap = if x == 0 { 0 } else { FILTER_BRICK_GAP };
        let brick_x = x + gap;
        let ghost before = layout@;
        layout.push(PickerBrick { index, row, x: brick_x, width: brick_width });
        proof {
            assert(layout@.map_values(|b: PickerBrick| brick_view(b)) =~= before.map_values(
                |b: PickerBrick| brick_view(b),
            ).push((index as nat, row as nat, brick_x as nat, brick_width as nat)));
        }
        x = brick_x + brick_width;
        index += 1;
    }
    layout
}

/// Every brick starts its row or ends within the row's width.
pub proof fn lemma_layout_bricks_fit(widths: Seq<nat>, width: nat, n: nat, i: int)
    requires
        n <= widths.len(),
        0 <= i < n,
    ensures
        ({
            let b = layout_prefix(widths, width, n).0[i];
            b.2 == 0 || b.2 + b.3 <= width
        }),
        layout_prefix(widths, width, n).2 == 0 || layout_prefix(widths, width, n).2 <= width
            || layout_prefix(widths, width, n).0.last().2 == 0,
    decreases n,
{
    lemma_layout_prefix_len(widths, width, n);
    if n > 0 {
        lemma_layout_prefix_len(widths, width, (n - 1) as nat);
        if i < n - 1 {
            lemma_layout_bricks_fit(widths, width, (n - 1) as nat, i);
        } else if n > 1 {
            lemma_layout_bricks_fit(widths, width, (n - 1) as nat, 0);
        }
    }
}

/// Bricks come in item order and rows never go back.
pub proof fn lemma_layout_ordered(widths: Seq<nat>, width: nat, n: nat, i: int, j: int)
    requires
        n <= widths.len(),
        0 <= i <= j < n,
    ensures
        layout_prefix(widths, width, n).0[i].0 == i,
        layout_prefix(widths, width, n).0[i].1 <= layout_prefix(widths, width, n).0[j].1,
        layout_prefix(widths, width, n).0[j].1 <= layout_prefix(widths, width, n).1,
    decreases n,
{
    lemma_layout_prefix_len(widths, width, n);
    if n > 0 {
        lemma_layout_prefix_len(widths, width, (n - 1) as nat);
        if j < n - 1 {
            lemma_layout_ordered(widths, width, (n - 1) as nat, i, j);
        } else if i < n - 1 {
            lemma_layout_ordered(widths, width, (n - 1) as nat, i, i);
        } else if n > 1 {
            lemma_layout_ordered(widths, width, (n - 1) as nat, 0, 0);
        }
    }
}

/// The doubled horizontal center of a brick.
pub open spec fn center(b: PickerBrick) -> int {
    b.x * 2 + b.width
}

/// The doubled horizontal center of `brick`.
pub fn brick_center(brick: &PickerBrick) -> (c: u128)
    ensures
        c == center(*brick),
{
    (brick.x as u128) * 2 + (brick.width as u128)
}

/// `|a - b|`.
pub open spec fn dist(a: int, b: int) -> int {
    if a >= b { a - b } else { b - a }
}

/// How far `b` is from `cur`: by center first, then by index.
pub open spec fn pick_key(b: PickerBrick, cur: PickerBrick) -> (int, int) {
    (dist(center(b), center(cur)), dist(b.index as int, cur.index as int))
}

/// Lexicographic `<` on pairs.
pub open spec fn key_lt(a: (int, int), b: (int, int)) -> bool {
    a.0 < b.0 || (a.0 == b.0 && a.1 < b.1)
}

/// The first brick among the first `n` whose index is `sel`.
pub open spec fn find_first(layout: Seq<PickerBrick>, sel: nat, n: nat) -> Option<int>
    decreases n,
{
    if n == 0 || n > layout.len() {
        None
    } else {
        match find_first(layout, sel, (n - 1) as nat) {
            Some(k) => Some(k),
            None => if layout[n - 1].index == sel { Some((n - 1) as int) } else { None },
        }
    }
}

/// The largest row among the first `n` bricks.
pub open spec fn max_row(layout: Seq<PickerBrick>, n: nat) -> nat
    decreases n,
{
    if n == 0 || n > layout.len() {
        0
    } else {
        let m = max_row(layout, (n - 1) as nat);
        let r = layout[n - 1].row as nat;
        if n == 1 || r > m { r } else { m }
    }
}

/// The first brick among the first `n` in `row` that is nearest to `cur`.
pub open spec fn best_in_row(layout: Seq<PickerBrick>, row: nat, cur: PickerBrick, n: nat) -> Option<int>
    decreases n,
{
    if n == 0 || n > layout.len() {
        None
    } else {
        let prev = best_in_row(layout, row, cur, (n - 1) as nat);
        let k = (n - 1) as int;
        if layout[k].row != row {
            prev
        } else {
            match prev {
                None => Some(k),
                Some(b) => if key_lt(pick_key(layout[k], cur), pick_key(layout[b], cur)) { Some(k) } else { prev },
            }
        }
    }
}

/// The row an up/down move aims at, wrapping around.
pub open spec fn target_row(direction: PickerMove, row: nat, max: nat) -> nat {
    match direction {
        PickerMove::Up => if row == 0 { max } else { (row - 1) as nat },
        PickerMove::Down => if row == max { 0 } else { row + 1 },
        _ => row,
    }
}

/// The selection after a move.
pub open spec fn moved_selection(sel: nat, count: nat, direction: PickerMove, layout: Seq<PickerBrick>) -> nat {
    if count == 0 {
        0
    } else if direction == PickerMove::Left {
        ((sel - 1) % (count as int)) as nat
    } else if direction == PickerMove::Right {
        ((sel + 1) as int % (count as int)) as nat
    } else {
        match find_first(layout, sel, layout.len()) {
            None => 0,
            Some(k) => {
                let cur = layout[k];
                let tr = target_row(direction, cur.row as nat, max_row(layout, layout.len()));
                match best_in_row(layout, tr, cur, layout.len()) {
                    None => sel,
                    Some(b) => layout[b].index as nat,
                }
            },
        }
    }
}

/// Moves the selection of a picker of `item_count` items laid out as `layout`:
/// left and right step through the items cyclically; up and down jump to the
/// nearest brick of the neighbouring row, cyclically.
pub fn move_picker_selection(
    selected: &mut usize,
    item_count: usize,
    direction: PickerMove,
    layout: &[PickerBrick],
)
    ensures
        *final(selected) == moved_selection(*old(selected) as nat, item_count as nat, direction, layout@),
{
    if item_count == 0 {
        *selected = 0;
        return;
    }
    if direction == PickerMove::Left || direction == PickerMove::Right {
        let sel = *selected;
        let r = sel % item_count;
        if direction == PickerMove::Right {
            let next = if r + 1 == item_count { 0 } else { r + 1 };
            proof {
                lemma_step_mod(sel as int, item_count as int, 1);
            }
            *selected = next;
        } else {
            let next = if r == 0 { item_count - 1 } else { r - 1 };
            proof {
                lemma_step_mod(sel as int, item_count as int, -1);
            }
            *selected = next;
        }
        return;
    }
    let sel = *selected;
    let n = layout.len();
    // The brick of the current selection.
    let mut found: Option<usize> = None;
    let mut i: usize = 0;
    while i < n && found.is_none()
        invariant
            i <= n == layout@.len(),
            found is None ==> find_first(layout@, sel as nat, i as nat) is None,
            found matches Some(k) ==> find_first(layout@, sel as nat, i as nat) == Some(k as int) && k < n,
        decreases n - i,
    {
        if layout[i].index == sel {
            found = Some(i);
        }
        i += 1;
    }
    proof {
        lemma_find_first_stable(layout@, sel as nat, i as nat, n as nat);
    }
    let k = match found {
        None => {
            *selected = 0;
            return;
        },
        Some(k) => k,
    };
    let current = &layout[k];
    // The last row.
    let mut max: usize = 0;
    let mut j: usize = 0;
    while j < n
        invariant
            j <= n == layout@.len(),
            max as nat == max_row(layout@, j as nat),
        decreases n - j,
    {
        if j == 0 || layout[j].row > max {
            max = layout[j].row;
        }
        j += 1;
    }
    proof {
        lemma_max_row_ge(layout@, n as nat, k as int);
    }
    let target = match direction {
        PickerMove::Up => if current.row == 0 { max } else { current.row - 1 },
        PickerMove::Down => if current.row == max { 0 } else { current.row + 1 },
        _ => current.row,
    };
    let cur_center = brick_center(current);
    // The nearest brick of the target row (the first among equals).
    let mut best: Option<usize> = None;
    let mut best_key: (u128, usize) = (0, 0);
    let mut m: usize = 0;
    while m < n
        invariant
            m <= n == layout@.len(),
            k < n,
            *current == layout@[k as int],
            cur_center as int == center(*current),
            match best_in_row(layout@, target as nat, *current, m as nat) {
                Some(b) => best == Some(b as usize) && 0 <= b < m,
                None => best is None,
            },
            best matches Some(b) ==> b < n && best_key.0 as int == pick_key(layout@[b as int], *current).0
                && best_key.1 as int == pick_key(layout@[b as int], *current).1,
        decreases n - m,
    {
        proof {
            lemma_best_bounds(layout@, target as nat, *current, m as nat);
        }
        let brick = &layout[m];
        if brick.row == target {
            let c = brick_center(brick);
            let d0 = if c >= cur_center { c - cur_center } else { cur_center - c };
            let d1 = if brick.index >= current.index { brick.index - current.index } else { current.index - brick.index };
            let better = match best {
                None => true,
                Some(_) => d0 < best_key.0 || (d0 == best_key.0 && d1 < best_key.1),
            };
            if better {
                best = Some(m);
                best_key = (d0, d1);
            }
        }
        m += 1;
    }
    match best {
        None => {},
        Some(b) => {
            *selected = layout[b].index;
        },
    }
}

proof fn lemma_max_row_ge(layout: Seq<PickerBrick>, n: nat, k: int)
    requires
        n <= layout.len(),
        0 <= k < n,
    ensures
        layout[k].row <= max_row(layout, n),
    decreases n,
{
    if k < n - 1 {
        lemma_max_row_ge(layout, (n - 1) as nat, k);
    }
}

proof fn lemma_best_bounds(layout: Seq<PickerBrick>, row: nat, cur: PickerBrick, n: nat)
    ensures
        best_in_row(layout, row, cur, n) matches Some(b) ==> 0 <= b < n && n <= layout.len(),
    decreases n,
{
    if n > 0 && n <= layout.len() {
        lemma_best_bounds(layout, row, cur, (n - 1) as nat);
    }
}

proof fn lemma_find_first_stable(layout: Seq<PickerBrick>, sel: nat, i: nat, n: nat)
    requires
        i <= n == layout.len(),
        find_first(layout, sel, i) is Some || i == n,
    ensures
        find_first(layout, sel, n) == find_first(layout, sel, i),
    decreases n - i,
{
    if i < n {
        lemma_find_first_stable_step(layout, sel, i, n);
    }
}

proof fn lemma_find_first_stable_step(layout: Seq<PickerBrick>, sel: nat, i: nat, n: nat)
    requires
        i <= n <= layout.len(),
        find_first(layout, sel, i) is Some,
    ensures
        find_first(layout, sel, n) == find_first(layout, sel, i),
    decreases n - i,
{
    if i < n {
        lemma_find_first_stable_step(layout, sel, i, (n - 1) as nat);
    }
}

/// Stepping by `delta` and reducing modulo `count` is what the code computes
/// from the reduced selection.
proof fn lemma_step_mod(sel: int, count: int, delta: int)
    requires
        count > 0,
        sel >= 0,
        delta == 1 || delta == -1,
    ensures
        delta == 1 ==> ((sel + 1) % count) == (if sel % count + 1 == count { 0 } else { sel % count + 1 }),
        delta == -1 ==> ((sel - 1) % count) == (if sel % count == 0 { count - 1 } else { sel % count - 1 }),
{
    let r = sel % count;
    let q = sel / count;
    assert(sel == q * count + r && 0 <= r < count) by (nonlinear_arith)
        requires count > 0, r == sel % count, q == sel / count;
    if delta == 1 {
        if r + 1 == count {
            assert((sel + 1) % count == 0) by (nonlinear_arith)
                requires sel == q * count + r, r + 1 == count, count > 0;
        } else {
            assert((sel + 1) % count == r + 1) by (nonlinear_arith)
                requires sel == q * count + r, 0 <= r, r + 1 < count, count > 0;
        }
    } else {
        if r == 0 {
            assert((sel - 1) % count == count - 1) by (nonlinear_arith)
                requires sel == q * count + r, r == 0, count > 0;
        } else {
            assert((sel - 1) % count == r - 1) by (nonlinear_arith)
                requires sel == q * count + r, 0 < r, r < count, count > 0;
        }
    }
}

/// A left move undoes a right move and vice versa, for a selection inside the picker.
pub proof fn lemma_left_undoes_right(sel: nat, count: nat, layout: Seq<PickerBrick>)
    requires
        sel < count,
    ensures
        moved_selection(moved_selection(sel, count, PickerMove::Right, layout), count, PickerMove::Left, layout) == sel,
        moved_selection(moved_selection(sel, count, PickerMove::Left, layout), count, PickerMove::Right, layout) == sel,
        moved_selection(sel, count, PickerMove::Left, layout) < count,
        moved_selection(sel, count, PickerMove::Right, layout) < count,
{
    lemma_step_mod(sel as int, count as int, 1);
    lemma_step_mod(sel as int, count as int, -1);
    assert(sel as int % count as int == sel) by (nonlinear_arith) requires sel < count;
    let r = moved_selection(sel, count, PickerMove::Right, layout);
    let l = moved_selection(sel, count, PickerMove::Left, layout);
    lemma_step_mod(r as int, count as int, -1);
    lemma_step_mod(l as int, count as int, 1);
    assert(r as int % count as int == r) by (nonlinear_arith) requires r < count;
    assert(l as int % count as int == l) by (nonlinear_arith) requires l < count;
}

/// How many characters a brick shows of a text `n` characters long in a row
/// `row_width` cells wide.
pub open spec fn clipped_len(n: nat, row_width: nat) -> nat {
    let m: nat = if row_width > FILTER_BRICK_CHROME { (row_width - FILTER_BRICK_CHROME) as nat } else { 1 };
    if n < m { n } else { m }
}

/// The first `max_width` characters of `raw` (at least one).
pub fn filter_text(raw: &str, max_width: usize) -> (r: String)
    ensures
        r@ == raw@.take(if raw@.len() < (if max_width == 0 { 1 } else { max_width as int }) { raw@.len() as int } else { if max_width == 0 { 1 } else { max_width as int } }),
{
    let limit = if max_width == 0 { 1 } else { max_width };
    let v = chars_of(raw);
    let end = if v.len() < limit { v.len() } else { limit };
    let mut r = String::new();
    let mut i: usize = 0;
    while i < end
        invariant
            i <= end <= v.len(),
            r@ == v@.take(i as int),
        decreases end - i,
    {
        push_char(&mut r, v[i]);
        assert(v@.take(i + 1) =~= v@.take(i as int).push(v@[i as int]));
        i += 1;
    }
    r
}

/// The widest text a brick shows in a row `row_width` cells wide.
pub fn filter_text_width(row_width: usize) -> (w: usize)
    ensures
        w == (if row_width > FILTER_BRICK_CHROME { row_width - FILTER_BRICK_CHROME } else { 1 }),
{
    let w = row_width.saturating_sub(FILTER_BRICK_CHROME);
    if w == 0 { 1 } else { w }
}

/// The layout width the filter panel assumes before it is first drawn.
pub fn default_filter_layout_width() -> (w: usize)
    ensures
        w == FILTER_PANEL_MAX_WIDTH - 2,
{
    (FILTER_PANEL_MAX_WIDTH - 2) as usize
}

/// The bricks a layout gives, as picker bricks.
pub open spec fn bricks_of(widths: Seq<nat>, width: nat) -> Seq<PickerBrick> {
    let l = layout_spec(widths, width);
    Seq::new(l.len(), |i: int| PickerBrick {
        index: l[i].0 as usize,
        row: l[i].1 as usize,
        x: l[i].2 as usize,
        width: l[i].3 as usize,
    })
}

/// Bricks whose numbers are a layout's are that layout's picker bricks.
pub proof fn lemma_bricks_of(r: Seq<PickerBrick>, widths: Seq<nat>, width: nat)
    requires
        r.map_values(|b: PickerBrick| brick_view(b)) == layout_spec(widths, width),
    ensures
        r == bricks_of(widths, width),
{
    let l = layout_spec(widths, width);
    assert(r.len() == l.len());
    assert forall|i: int| 0 <= i < r.len() implies r[i] == bricks_of(widths, width)[i] by {
        assert(brick_view(r[i]) == l[i]);
    }
    assert(r =~= bricks_of(widths, width));
}

} // verus!
