//! Screen layout: how many panes of command output go in a row, and where
//! each pane lies, so that a mouse click can be matched to its pane.

use ratatui::layout as rl;
use vstd::prelude::*;

verus! {

/// A rectangle of terminal cells.
#[derive(Clone, Copy, Debug, PartialEq, Eq, Structural)]
pub struct Rect {
    pub x: u16,
    pub y: u16,
    pub width: u16,
    pub height: u16,
}

/// The direction in which an area is split.
#[derive(Clone, Copy, Debug, PartialEq, Eq, Structural)]
pub enum Direction {
    Horizontal,
    Vertical,
}

/// What size a part of a split area should get.
#[derive(Clone, Copy, Debug, PartialEq, Eq, Structural)]
pub enum Constraint {
    Percentage(u16),
    Length(u16),
    Min(u16),
}

/// `p` lies inside `a`.
pub open spec fn within(p: Rect, a: Rect) -> bool {
    &&& a.x <= p.x
    &&& p.x + p.width <= a.x + a.width
    &&& a.y <= p.y
    &&& p.y + p.height <= a.y + a.height
}

/// `p` is a part of `a` cut along `dir`: inside it, and across the cut as
/// wide (horizontal) or as high (vertical) as `a` is.
pub open spec fn part_of(p: Rect, a: Rect, dir: Direction) -> bool {
    &&& within(p, a)
    &&& match dir {
        Direction::Horizontal => p.y == a.y && p.height == a.height,
        Direction::Vertical => p.x == a.x && p.width == a.width,
    }
}

/// Every one of `parts` is a part of `area` cut along `dir`.
pub open spec fn split_parts(parts: Seq<Rect>, area: Rect, dir: Direction) -> bool {
    forall|i: int| 0 <= i < parts.len() ==> part_of(#[trigger] parts[i], area, dir)
}

/// Whether `parts` is an outcome of ratatui's layout solver splitting `area`
/// along `dir` by `constraints`.  A relation, not a function: the solver may
/// pick among equally good outcomes, so nothing here says which.
pub uninterp spec fn solver_split(
    area: Rect,
    dir: Direction,
    constraints: Seq<Constraint>,
    parts: Seq<Rect>,
) -> bool;

/// Splits `area` into one part per constraint, with ratatui's layout solver
/// (`ratatui::layout::Layout::split`, default margin, flex and spacing).
/// Stated, as the solver's source shows: one part per constraint; each part
/// lies inside the area (every boundary is a required constraint between
/// the area's ends), spans the whole area across the cut (`changes_to_rects`
/// copies the area's cross extent), and is what the solver gave for these
/// inputs ([`solver_split`]).  Not stated: the sizes and the order of the
/// parts along the cut; the size constraints are not required ones, and
/// the solver's choice among equally good solutions follows the walk of its
/// hash maps.  The solver panics only on a required constraint it cannot
/// add; those it adds here can always be met.
#[verifier::external_body]
fn layout_split(area: Rect, direction: Direction, constraints: &Vec<Constraint>) -> (parts: Vec<
    Rect,
>)
    ensures
        parts.len() == constraints.len(),
        split_parts(parts@, area, direction),
        solver_split(area, direction, constraints@, parts@),
{
    let dir = match direction {
        Direction::Horizontal => rl::Direction::Horizontal,
        Direction::Vertical => rl::Direction::Vertical,
    };
    let cs: Vec<rl::Constraint> = constraints.iter().map(|c| match *c {
        Constraint::Percentage(p) => rl::Constraint::Percentage(p),
        Constraint::Length(l) => rl::Constraint::Length(l),
        Constraint::Min(m) => rl::Constraint::Min(m),
    }).collect();
    let a = rl::Rect { x: area.x, y: area.y, width: area.width, height: area.height };
    rl::Layout::new(dir, cs).split(a).iter().map(|r| Rect { x: r.x, y: r.y, width: r.width, height: r.height }).collect()
}

/// Columns of the output grid for `n` panes: one for one pane, two for up to
/// four, three for up to nine, else four.
pub open spec fn grid_cols(n: nat) -> nat {
    if n == 1 {
        1
    } else if 2 <= n <= 4 {
        2
    } else if 5 <= n <= 9 {
        3
    } else {
        4
    }
}

/// Rows of the output grid for `n` panes: enough rows of
/// [`grid_cols`] panes to hold them all.
pub open spec fn grid_rows(n: nat) -> nat {
    ((n + grid_cols(n) - 1) as nat) / grid_cols(n)
}

/// Columns and rows of the output grid for `n` panes.
pub fn grid_shape(n: usize) -> (r: (usize, usize))
    ensures
        r.0 == grid_cols(n as nat),
        r.1 == grid_rows(n as nat),
{
    let cols: usize = if n == 1 {
        1
    } else if 2 <= n && n <= 4 {
        2
    } else if 5 <= n && n <= 9 {
        3
    } else {
        4
    };
    let rows = n / cols + if n % cols == 0 {
        0
    } else {
        1
    };
    assert(rows == ((n + cols - 1) as nat) / (cols as nat)) by (nonlinear_arith)
        requires
            rows == n / cols + if n % cols == 0 {
                0nat
            } else {
                1nat
            },
            1 <= cols <= 4,
    ;
    (cols, rows)
}

/// The grid has room for every pane, and no more than one row of room to
/// spare.
pub proof fn law_grid_holds_all_panes(n: nat)
    ensures
        grid_cols(n) * grid_rows(n) >= n,
        n > 0 ==> grid_cols(n) * (grid_rows(n) - 1) < n,
        1 <= grid_cols(n) <= 4,
{
    let c = grid_cols(n);
    let r = grid_rows(n);
    assert(c * r >= n && (n > 0 ==> c * (r - 1) < n)) by (nonlinear_arith)
        requires
            1 <= c <= 4,
            r == ((n + c - 1) as nat) / c,
    ;
}

/// The constraints that split an area into `n` nearly equal parts: each of
/// the first `n - 1` takes `100 / n` percent and the last takes the rest.
pub open spec fn equal_constraints(n: nat) -> Seq<Constraint> {
    Seq::new(
        n,
        |i: int|
            if i == n - 1 {
                Constraint::Min(1)
            } else {
                Constraint::Percentage((100nat / ((n as u16) as nat)) as u16)
            },
    )
}

/// The constraints that split an area into `n` nearly equal parts.  The
/// percentage is `100 / n` taken in `u16`, so a part count that is a
/// multiple of 65536 divides by zero.
pub fn equal_split_constraints(n: usize) -> (cs: Vec<Constraint>)
    requires
        n == 0 || (n as u16) != 0,
    ensures
        cs@ == equal_constraints(n as nat),
{
    let mut cs: Vec<Constraint> = Vec::new();
    if n == 0 {
        assert(cs@ =~= equal_constraints(0));
        return cs;
    }
    let pct: u16 = 100u16 / (n as u16);
    let mut i: usize = 0;
    while i < n
        invariant
            i <= n,
            n > 0,
            pct == (100nat / ((n as u16) as nat)) as u16,
            cs@ == equal_constraints(n as nat).take(i as int),
        decreases n - i,
    {
        let c = if i == n - 1 {
            Constraint::Min(1)
        } else {
            Constraint::Percentage(pct)
        };
        cs.push(c);
        assert(cs@ =~= equal_constraints(n as nat).take(i + 1));
        i += 1;
    }
    assert(equal_constraints(n as nat).take(n as int) =~= equal_constraints(n as nat));
    cs
}

/// Splits `area` into `n` nearly equal parts side by side.
pub fn split_equal_h(area: Rect, n: usize) -> (parts: Vec<Rect>)
    requires
        n == 0 || (n as u16) != 0,
    ensures
        parts.len() == n,
        split_parts(parts@, area, Direction::Horizontal),
        n > 0 ==> solver_split(area, Direction::Horizontal, equal_constraints(n as nat), parts@),
{
    if n == 0 {
        return Vec::new();
    }
    let cs = equal_split_constraints(n);
    layout_split(area, Direction::Horizontal, &cs)
}

/// Splits `area` into `n` nearly equal parts one above the other.
pub fn split_equal_v(area: Rect, n: usize) -> (parts: Vec<Rect>)
    requires
        n == 0 || (n as u16) != 0,
    ensures
        parts.len() == n,
        split_parts(parts@, area, Direction::Vertical),
        n > 0 ==> solver_split(area, Direction::Vertical, equal_constraints(n as nat), parts@),
{
    if n == 0 {
        return Vec::new();
    }
    let cs = equal_split_constraints(n);
    layout_split(area, Direction::Vertical, &cs)
}

/// Whether `n` panes can be laid out: the row count, taken in `u16` for the
/// row percentages, is not zero.
pub open spec fn panes_fit(n: nat) -> bool {
    n == 0 || (grid_rows(n) as u16) != 0
}

/// The constraints of the screen's columns: the repository column takes
/// 30 percent, the output column the rest.
pub open spec fn column_split() -> Seq<Constraint> {
    seq![Constraint::Percentage(30), Constraint::Min(1)]
}

/// The constraints of the output column: the output area takes what the
/// 3-line status bar leaves.
pub open spec fn status_split() -> Seq<Constraint> {
    seq![Constraint::Min(1), Constraint::Length(3)]
}

/// The constraints of the screen's columns.
pub fn column_constraints() -> (cs: Vec<Constraint>)
    ensures
        cs@ == column_split(),
{
    let mut cs: Vec<Constraint> = Vec::new();
    cs.push(Constraint::Percentage(30));
    cs.push(Constraint::Min(1));
    assert(cs@ =~= column_split());
    cs
}

/// The constraints of the output column.
pub fn status_constraints() -> (cs: Vec<Constraint>)
    ensures
        cs@ == status_split(),
{
    let mut cs: Vec<Constraint> = Vec::new();
    cs.push(Constraint::Min(1));
    cs.push(Constraint::Length(3));
    assert(cs@ =~= status_split());
    cs
}

/// How the screen `area` is cut: side by side into the repository column
/// `left` and the column `right` by [`column_split`], and `right` into the
/// output area `out` above the status bar `status` by [`status_split`].
pub open spec fn screen_layout(area: Rect, left: Rect, right: Rect, out: Rect, status: Rect) -> bool {
    &&& split_parts(seq![left, right], area, Direction::Horizontal)
    &&& solver_split(area, Direction::Horizontal, column_split(), seq![left, right])
    &&& split_parts(seq![out, status], right, Direction::Vertical)
    &&& solver_split(right, Direction::Vertical, status_split(), seq![out, status])
}

/// The parts of the screen: repository column, output column, output area
/// and status bar.
pub struct ScreenAreas {
    pub left: Rect,
    pub right: Rect,
    pub out: Rect,
    pub status: Rect,
}

/// Cuts the screen `area` into the repository column, the output column,
/// the output area and the status bar.
pub fn screen_split(area: Rect) -> (s: ScreenAreas)
    ensures
        screen_layout(area, s.left, s.right, s.out, s.status),
{
    let h = layout_split(area, Direction::Horizontal, &column_constraints());
    let v = layout_split(h[1], Direction::Vertical, &status_constraints());
    assert(h@ =~= seq![h@[0], h@[1]]);
    assert(v@ =~= seq![v@[0], v@[1]]);
    ScreenAreas { left: h[0], right: h[1], out: v[0], status: v[1] }
}

/// The cell of the grid where row `row` meets column `col`.
pub open spec fn cell(row: Rect, col: Rect) -> Rect {
    Rect { x: col.x, y: row.y, width: col.width, height: row.height }
}

/// The cells of one grid row: `row` met with every column.
pub open spec fn row_cells(row: Rect, cols: Seq<Rect>) -> Seq<Rect> {
    cols.map_values(|c: Rect| cell(row, c))
}

/// The cells of the first `r` rows, row after row.
pub open spec fn grid_prefix(rows: Seq<Rect>, cols: Seq<Rect>, r: nat) -> Seq<Rect>
    decreases r,
{
    if r == 0 {
        Seq::empty()
    } else {
        grid_prefix(rows, cols, (r - 1) as nat) + row_cells(rows[r - 1], cols)
    }
}

/// `cells` are the cells of the output grid for `n` panes drawn in `out`:
/// `out` cut into the grid's rows one above the other and, once, into the
/// grid's columns side by side, both nearly equally
/// ([`equal_constraints`]); every row is cut at the same columns, and the
/// cells follow row after row.
pub open spec fn grid_cells_of(cells: Seq<Rect>, out: Rect, n: nat, rows: Seq<Rect>, cols: Seq<Rect>) -> bool {
    &&& rows.len() == grid_rows(n)
    &&& cols.len() == grid_cols(n)
    &&& split_parts(rows, out, Direction::Vertical)
    &&& split_parts(cols, out, Direction::Horizontal)
    &&& rows.len() > 0 ==> solver_split(out, Direction::Vertical, equal_constraints(rows.len()), rows)
    &&& solver_split(out, Direction::Horizontal, equal_constraints(cols.len()), cols)
    &&& cells == grid_prefix(rows, cols, rows.len())
}

/// The grid's cells for `n` panes drawn in `out`, row after row; the first
/// `n` hold the panes, the rest of the last row stays empty.
pub fn grid_cells(out: Rect, n: usize) -> (cells: Vec<Rect>)
    requires
        panes_fit(n as nat),
    ensures
        exists|rows: Seq<Rect>, cols: Seq<Rect>| #[trigger] grid_cells_of(cells@, out, n as nat, rows, cols),
        cells.len() == grid_rows(n as nat) * grid_cols(n as nat),
{
    let (ncols, nrows) = grid_shape(n);
    proof {
        law_grid_holds_all_panes(n as nat);
    }
    let rows = split_equal_v(out, nrows);
    let cols = split_equal_h(out, ncols);
    let mut cells: Vec<Rect> = Vec::new();
    let mut r: usize = 0;
    while r < nrows
        invariant
            r <= nrows == rows.len(),
            ncols == cols.len(),
            1 <= ncols <= 4,
            nrows == grid_rows(n as nat),
            ncols * nrows >= n,
            n > 0 ==> ncols * (nrows - 1) < n,
            cells@ == grid_prefix(rows@, cols@, r as nat),
            cells.len() == r * ncols,
        decreases nrows - r,
    {
        assert((r + 1) * ncols <= nrows * ncols) by (nonlinear_arith)
            requires
                r < nrows,
        ;
        assert(nrows * ncols <= 4 * nrows) by (nonlinear_arith)
            requires
                ncols <= 4,
        ;
        let ghost start = cells@;
        let row = rows[r];
        let mut k: usize = 0;
        while k < ncols
            invariant
                k <= ncols == cols.len(),
                cells@ == start + row_cells(row, cols@).take(k as int),
            decreases ncols - k,
        {
            let c = cols[k];
            cells.push(Rect { x: c.x, y: row.y, width: c.width, height: row.height });
            assert(row_cells(row, cols@).take(k + 1) =~= row_cells(row, cols@).take(k as int).push(
                cell(row, cols@[k as int]),
            ));
            k += 1;
        }
        assert(row_cells(row, cols@).take(ncols as int) =~= row_cells(row, cols@));
        assert((r + 1) * ncols == r * ncols + ncols) by (nonlinear_arith);
        r += 1;
    }
    assert(nrows * ncols == ncols * nrows) by (nonlinear_arith);
    assert(grid_cells_of(cells@, out, n as nat, rows@, cols@));
    cells
}

/// Where the `n` output panes lie on a terminal of size `area`: the screen
/// cut as [`screen_layout`] says, and the panes the first `n` cells of the
/// output grid in the output area.
pub open spec fn pane_layout(rects: Seq<Rect>, area: Rect, n: nat) -> bool {
    &&& rects.len() == n
    &&& n > 0 ==> exists|
        left: Rect,
        right: Rect,
        out: Rect,
        status: Rect,
        rows: Seq<Rect>,
        cols: Seq<Rect>,
    |
        #![trigger screen_layout(area, left, right, out, status), grid_prefix(rows, cols, rows.len())]
        screen_layout(area, left, right, out, status) && grid_cells_of(
            grid_prefix(rows, cols, rows.len()),
            out,
            n,
            rows,
            cols,
        ) && rects == grid_prefix(rows, cols, rows.len()).take(n as int)
}

/// Where each of `n` output panes lies on a terminal of size `area`, as the
/// output grid draws them: the output area is the right part of the screen
/// (right of a 30 percent column) above a 3-line status bar, cut into the
/// grid's rows and columns; the first `n` cells, row after row, are the
/// panes.
pub fn pane_rects(area: Rect, n: usize) -> (rects: Vec<Rect>)
    requires
        panes_fit(n as nat),
    ensures
        pane_layout(rects@, area, n as nat),
{
    if n == 0 {
        return Vec::new();
    }
    let s = screen_split(area);
    let cells = grid_cells(s.out, n);
    proof {
        law_grid_holds_all_panes(n as nat);
        assert(grid_rows(n as nat) * grid_cols(n as nat) >= n) by (nonlinear_arith)
            requires
                grid_cols(n as nat) * grid_rows(n as nat) >= n,
        ;
    }
    let ghost all = cells@;
    let mut rects: Vec<Rect> = Vec::new();
    let mut i: usize = 0;
    while i < n
        invariant
            i <= n <= cells.len(),
            cells@ == all,
            rects@ == all.take(i as int),
        decreases n - i,
    {
        rects.push(cells[i]);
        assert(all.take(i + 1) =~= all.take(i as int).push(all[i as int]));
        i += 1;
    }
    proof {
        let (rows, cols) = choose|rows: Seq<Rect>, cols: Seq<Rect>| #[trigger]
            grid_cells_of(all, s.out, n as nat, rows, cols);
        assert(all == grid_prefix(rows, cols, rows.len()));
        assert(screen_layout(area, s.left, s.right, s.out, s.status));
    }
    rects
}

} // verus!
