use gitp::layout::{equal_split_constraints, grid_cells, grid_shape, pane_rects, screen_split, split_equal_h, Constraint, Rect};

#[test]
fn grid_shape_boundaries() {
    assert_eq!(grid_shape(1), (1, 1));
    assert_eq!(grid_shape(2), (2, 1));
    assert_eq!(grid_shape(3), (2, 2));
    assert_eq!(grid_shape(4), (2, 2));
    assert_eq!(grid_shape(5), (3, 2));
    assert_eq!(grid_shape(9), (3, 3));
    assert_eq!(grid_shape(10), (4, 3));
    assert_eq!(grid_shape(12), (4, 3));
    assert_eq!(grid_shape(13), (4, 4));
}

#[test]
fn grid_shape_of_no_panes() {
    assert_eq!(grid_shape(0), (4, 0));
}

#[test]
fn equal_split_constraints_last_takes_rest() {
    assert_eq!(
        equal_split_constraints(3),
        vec![Constraint::Percentage(33), Constraint::Percentage(33), Constraint::Min(1)]
    );
    assert_eq!(equal_split_constraints(1), vec![Constraint::Min(1)]);
    assert!(equal_split_constraints(0).is_empty());
}

#[test]
fn split_equal_h_gives_one_rect_per_part() {
    let area = Rect { x: 0, y: 0, width: 90, height: 10 };
    let parts = split_equal_h(area, 3);
    assert_eq!(parts.len(), 3);
    assert_eq!(parts[0].x, 0);
    assert!(split_equal_h(area, 0).is_empty());
}

#[test]
fn pane_rects_one_per_pane() {
    let area = Rect { x: 0, y: 0, width: 200, height: 50 };
    for n in 0..14 {
        assert_eq!(pane_rects(area, n).len(), n);
    }
    let one = pane_rects(area, 1);
    // the output area is right of a 30% column, above a 3-line status bar
    assert_eq!(one[0], Rect { x: 60, y: 0, width: 140, height: 47 });
}

#[test]
fn pane_rects_match_the_drawn_grid() {
    // three panes: two columns, two rows; the last row is cut into two
    // columns like the rows above it, and its second cell stays empty
    let area = Rect { x: 0, y: 0, width: 100, height: 40 };
    let r = pane_rects(area, 3);
    assert_eq!(r.len(), 3);
    assert_eq!(r[2].x, r[0].x);
    assert_eq!(r[2].width, r[0].width);
    assert!(r[0].y + r[0].height <= r[2].y);
    assert!(r[0].x + r[0].width <= r[1].x);
    for p in &r {
        assert!(p.x >= 30 && p.x + p.width <= 100);
        assert!(p.y + p.height <= 37);
    }
}

#[test]
fn grid_cells_share_columns_across_rows() {
    let out = Rect { x: 30, y: 0, width: 70, height: 37 };
    let cells = grid_cells(out, 5);
    // five panes: three columns, two rows, six cells
    assert_eq!(cells.len(), 6);
    for k in 0..3 {
        assert_eq!(cells[k].x, cells[k + 3].x);
        assert_eq!(cells[k].width, cells[k + 3].width);
        assert_eq!(cells[k].y, 0);
        assert!(cells[k].y + cells[k].height <= cells[k + 3].y);
    }
    let s = screen_split(Rect { x: 0, y: 0, width: 100, height: 40 });
    assert_eq!(s.out, Rect { x: 30, y: 0, width: 70, height: 37 });
    assert_eq!(s.status, Rect { x: 30, y: 37, width: 70, height: 3 });
    assert_eq!(pane_rects(Rect { x: 0, y: 0, width: 100, height: 40 }, 5), grid_cells(s.out, 5)[..5].to_vec());
}
