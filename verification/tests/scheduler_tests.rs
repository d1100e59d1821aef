use netviz::canvas::{CanvasGeometry, ScreenRect, GRID_SIDE};
use netviz::frame::{argmax, canvas_cell_rects};
use netviz::input::{map_event, Command, RawEvent};
use netviz::rat::Rat;
use netviz::scheduler::{PointerTargets, RenderScheduler, RunState};

fn targets() -> PointerTargets {
    PointerTargets {
        grid: CanvasGeometry { origin_x: 0, origin_y: 0, cell_w: 2, cell_h: 1 },
        reset: ScreenRect { x: 100, y: 40, w: 7, h: 1 },
    }
}

#[test]
fn events_map_to_the_closed_command_set() {
    assert_eq!(map_event(RawEvent::KeyChar('q'), 10), Some(Command::Quit));
    assert_eq!(map_event(RawEvent::KeyChar('+'), 10), Some(Command::ZoomIn));
    assert_eq!(map_event(RawEvent::KeyChar('-'), 10), Some(Command::ZoomOut));
    assert_eq!(map_event(RawEvent::KeyUp, 10), Some(Command::PanUp(10)));
    assert_eq!(map_event(RawEvent::KeyDown, 10), Some(Command::PanDown(10)));
    assert_eq!(map_event(RawEvent::KeyLeft, 10), Some(Command::PanLeft(10)));
    assert_eq!(map_event(RawEvent::KeyRight, 10), Some(Command::PanRight(10)));
    assert_eq!(map_event(RawEvent::MouseDown(3, 4), 10), Some(Command::PointerDown(3, 4)));
    assert_eq!(map_event(RawEvent::MouseDrag(5, 6), 10), Some(Command::PointerDrag(5, 6)));
    assert_eq!(map_event(RawEvent::MouseUp, 10), Some(Command::PointerUp));
    assert_eq!(map_event(RawEvent::KeyChar('x'), 10), None);
    assert_eq!(map_event(RawEvent::Resized(80, 24), 10), None);
    assert_eq!(map_event(RawEvent::Other, 10), None);
}

#[test]
fn zoom_three_times_then_pan_left_end_to_end() {
    let mut s = RenderScheduler::new(100);
    let tg = targets();
    for _ in 0..3 {
        s.handle_event(RawEvent::KeyChar('+'), 10, &tg);
    }
    // zoom = 1.2^3 = 216/125 (~1.728)
    assert!(s.view.zoom.eqv(&Rat { num: 216, den: 125 }));
    s.handle_event(RawEvent::KeyLeft, 10, &tg);
    // pan.x decreased by 10/1.728 = 1250/216 (~5.79)
    assert!(s.view.pan_x.eqv(&Rat { num: -1250, den: 216 }));
    assert!(s.is_running());
}

#[test]
fn quit_stops_the_loop_and_touches_nothing_else() {
    let mut s = RenderScheduler::new(100);
    let tg = targets();
    s.handle_event(RawEvent::KeyChar('+'), 10, &tg);
    let view_before = s.view;
    s.handle_event(RawEvent::KeyChar('q'), 10, &tg);
    assert!(!s.is_running());
    assert_eq!(s.run_state, RunState::Stopped);
    assert_eq!(s.view, view_before);
}

#[test]
fn pointer_down_in_reset_control_clears_the_grid() {
    let mut s = RenderScheduler::new(100);
    let tg = targets();
    s.handle_event(RawEvent::MouseDown(1, 1), 10, &tg);
    s.handle_event(RawEvent::MouseDrag(4, 2), 10, &tg);
    assert!(s.canvas.get(0, 0));
    assert!(s.canvas.get(1, 1));
    // (103, 40) is inside the reset control: checked before hit-testing
    s.handle_event(RawEvent::MouseDown(103, 40), 10, &tg);
    for row in 0..GRID_SIDE {
        for col in 0..GRID_SIDE {
            assert!(!s.canvas.get(row, col));
        }
    }
}

#[test]
fn pointer_events_outside_both_targets_do_nothing() {
    let mut s = RenderScheduler::new(100);
    let tg = targets();
    s.handle_event(RawEvent::MouseDown(90, 39), 10, &tg);
    s.handle_event(RawEvent::MouseDrag(4, 2), 10, &tg);
    for row in 0..GRID_SIDE {
        for col in 0..GRID_SIDE {
            assert!(!s.canvas.get(row, col));
        }
    }
}

#[test]
fn frames_are_paced_by_the_refresh_interval() {
    let mut s = RenderScheduler::new(100);
    assert!(!s.frame_due(0));
    assert!(!s.frame_due(99));
    assert!(s.frame_due(100));
    s.mark_frame(140);
    assert!(!s.frame_due(239));
    assert!(s.frame_due(240));
}

#[test]
fn cell_rects_follow_the_grid_geometry() {
    let mut s = RenderScheduler::new(100);
    let tg = targets();
    s.handle_event(RawEvent::MouseDown(1, 1), 10, &tg);
    let rects = canvas_cell_rects(&s.canvas, &tg.grid);
    assert_eq!(rects.len(), GRID_SIDE * GRID_SIDE);
    let r00 = rects[0];
    assert_eq!((r00.x, r00.y, r00.w, r00.h, r00.on), (1, 1, 2, 1, true));
    let r12 = rects[1 * GRID_SIDE + 2];
    assert_eq!((r12.x, r12.y, r12.w, r12.h, r12.on), (5, 2, 2, 1, false));
}

#[test]
fn argmax_picks_the_first_maximum() {
    assert_eq!(argmax(&vec![]), None);
    assert_eq!(argmax(&vec![7]), Some(0));
    assert_eq!(argmax(&vec![3, 1, 4, 1, 5, 9, 2, 6]), Some(5));
    assert_eq!(argmax(&vec![7, 7, 3]), Some(0));
    assert_eq!(argmax(&vec![0, 0, 0]), Some(0));
}
