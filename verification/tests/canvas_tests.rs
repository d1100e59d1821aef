use netviz::canvas::{hit_test, in_rect, CanvasGeometry, PixelCanvas, ScreenRect, GRID_SIDE};

fn geometry() -> CanvasGeometry {
    CanvasGeometry { origin_x: 0, origin_y: 0, cell_w: 2, cell_h: 1 }
}

#[test]
fn hit_test_maps_in_bounds_points_to_cells() {
    let g = geometry();
    // the drawn bounds start past the one-cell border at (1, 1)
    assert_eq!(hit_test(&g, 1, 1), Some((0, 0)));
    assert_eq!(hit_test(&g, 2, 1), Some((0, 0)));
    assert_eq!(hit_test(&g, 3, 1), Some((0, 1)));
    assert_eq!(hit_test(&g, 56, 28), Some((27, 27)));
    assert_eq!(hit_test(&g, 11, 5), Some((4, 5)));
}

#[test]
fn hit_test_rejects_out_of_bounds_points() {
    let g = geometry();
    assert_eq!(hit_test(&g, 0, 5), None); // left of the border
    assert_eq!(hit_test(&g, 5, 0), None); // above the border
    assert_eq!(hit_test(&g, 57, 5), None); // past the last column
    assert_eq!(hit_test(&g, 5, 29), None); // past the last row
    assert_eq!(hit_test(&g, 60000, 60000), None);
}

#[test]
fn drag_paints_only_while_drawing() {
    let mut c = PixelCanvas::new();
    c.pointer_drag(3, 3);
    assert!(!c.get(3, 3)); // no pointer-down yet: nothing painted
    c.pointer_down(1, 1);
    c.pointer_drag(1, 2);
    c.pointer_drag(2, 2);
    c.pointer_up();
    c.pointer_drag(5, 5);
    assert!(c.get(1, 1));
    assert!(c.get(1, 2));
    assert!(c.get(2, 2));
    assert!(!c.get(5, 5)); // drag after release does not paint
}

#[test]
fn reset_after_drags_yields_all_false_grid() {
    let mut c = PixelCanvas::new();
    c.pointer_down(0, 0);
    for t in 0..GRID_SIDE {
        c.pointer_drag(t, t);
    }
    c.reset();
    for row in 0..GRID_SIDE {
        for col in 0..GRID_SIDE {
            assert!(!c.get(row, col));
        }
    }
}

#[test]
fn input_vector_is_row_major_zero_one() {
    let mut c = PixelCanvas::new();
    c.pointer_down(0, 0);
    c.pointer_drag(1, 2);
    let v = c.to_input_vector();
    assert_eq!(v.len(), GRID_SIDE * GRID_SIDE);
    assert_eq!(v[0], 1);
    assert_eq!(v[1 * GRID_SIDE + 2], 1);
    assert_eq!(v[1], 0);
    assert_eq!(v.iter().map(|&b| b as usize).sum::<usize>(), 2);
}

#[test]
fn rect_containment_is_half_open() {
    let r = ScreenRect { x: 10, y: 4, w: 7, h: 1 };
    assert!(in_rect(&r, 10, 4));
    assert!(in_rect(&r, 16, 4));
    assert!(!in_rect(&r, 17, 4));
    assert!(!in_rect(&r, 10, 5));
    assert!(!in_rect(&r, 9, 4));
}
