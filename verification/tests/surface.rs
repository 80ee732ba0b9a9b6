use qraw::cells::Cell;
use qraw::cells::PaintSurface;

#[test]
fn new_surface_is_empty_and_idle() {
    let s = PaintSurface::new();
    assert_eq!(s.cell_count(), 0);
    assert!(!s.is_drawing());
}

#[test]
fn paint_inserts_cell() {
    let mut s = PaintSurface::new();
    s.on_drag_paint(Cell { col: 2, row: 3 });
    assert_eq!(s.cell_count(), 1);
    assert!(s.is_painted(Cell { col: 2, row: 3 }));
    assert!(!s.is_painted(Cell { col: 3, row: 2 }));
}

#[test]
fn paint_twice_is_idempotent() {
    let mut s = PaintSurface::new();
    s.on_drag_paint(Cell { col: 2, row: 3 });
    s.on_drag_paint(Cell { col: 2, row: 3 });
    assert_eq!(s.cell_count(), 1);
    assert!(s.is_painted(Cell { col: 2, row: 3 }));
}

#[test]
fn erase_after_paint_restores_previous_state() {
    let mut s = PaintSurface::new();
    s.on_drag_paint(Cell { col: 1, row: 1 });
    s.on_drag_paint(Cell { col: 5, row: 7 });
    assert_eq!(s.cell_count(), 2);
    s.on_drag_paint(Cell { col: 9, row: 9 });
    s.on_drag_erase(Cell { col: 9, row: 9 });
    assert_eq!(s.cell_count(), 2);
    assert!(s.is_painted(Cell { col: 1, row: 1 }));
    assert!(s.is_painted(Cell { col: 5, row: 7 }));
    assert!(!s.is_painted(Cell { col: 9, row: 9 }));
}

#[test]
fn erase_absent_cell_is_a_no_op() {
    let mut s = PaintSurface::new();
    s.on_drag_paint(Cell { col: 0, row: 1 });
    s.on_drag_erase(Cell { col: 4, row: 4 });
    assert_eq!(s.cell_count(), 1);
    assert!(s.is_painted(Cell { col: 0, row: 1 }));
}

#[test]
fn clear_empties_any_prior_state() {
    let mut s = PaintSurface::new();
    for col in 0..20u16 {
        s.on_drag_paint(Cell { col, row: col });
    }
    assert_eq!(s.cell_count(), 20);
    s.clear();
    assert_eq!(s.cell_count(), 0);
    s.clear();
    assert_eq!(s.cell_count(), 0);
}

#[test]
fn pointer_down_and_up_only_toggle_mode() {
    let mut s = PaintSurface::new();
    s.on_drag_paint(Cell { col: 3, row: 3 });
    s.on_pointer_down(Cell { col: 8, row: 8 });
    assert!(s.is_drawing());
    assert_eq!(s.cell_count(), 1);
    assert!(!s.is_painted(Cell { col: 8, row: 8 }));
    s.on_pointer_up();
    assert!(!s.is_drawing());
    assert_eq!(s.cell_count(), 1);
}

#[test]
fn paint_and_erase_ignore_mode() {
    let mut s = PaintSurface::new();
    assert!(!s.is_drawing());
    s.on_drag_paint(Cell { col: 1, row: 2 });
    assert_eq!(s.cell_count(), 1);
    s.on_drag_erase(Cell { col: 1, row: 2 });
    assert_eq!(s.cell_count(), 0);
}

#[test]
fn render_coordinates_flip_vertically() {
    let mut s = PaintSurface::new();
    s.on_drag_paint(Cell { col: 2, row: 3 });
    let r = s.render_coordinates(Cell { col: 0, row: 0 }, 10);
    assert_eq!(r, vec![(2, 7)]);
}

#[test]
fn render_coordinates_subtract_origin() {
    let mut s = PaintSurface::new();
    s.on_drag_paint(Cell { col: 5, row: 6 });
    let r = s.render_coordinates(Cell { col: 2, row: 1 }, 8);
    assert_eq!(r, vec![(3, 3)]);
}

#[test]
fn render_coordinates_accept_out_of_bounds_cells() {
    let mut s = PaintSurface::new();
    s.on_drag_paint(Cell { col: 0, row: 50 });
    let r = s.render_coordinates(Cell { col: 3, row: 0 }, 10);
    assert_eq!(r, vec![(-3, -40)]);
}
