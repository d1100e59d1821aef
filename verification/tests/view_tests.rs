use netviz::rat::Rat;
use netviz::view::{RatPoint, ViewState};

#[test]
fn zoom_starts_at_one_and_stays_positive() {
    let mut v = ViewState::new();
    assert!(v.zoom.eqv(&Rat { num: 1, den: 1 }));
    for _ in 0..40 {
        v.zoom_out();
        assert!(v.zoom.num > 0);
        assert!(v.zoom.den > 0);
    }
    for _ in 0..80 {
        v.zoom_in();
        assert!(v.zoom.num > 0);
        assert!(v.zoom.den > 0);
    }
}

#[test]
fn zoom_out_after_zoom_in_restores_zoom() {
    let mut v = ViewState::new();
    v.pan_by(7, -3);
    let before = v.zoom;
    assert!(v.zoom_in());
    assert!(v.zoom_out());
    assert!(v.zoom.eqv(&before));
}

#[test]
fn zoom_in_three_times_then_pan_left() {
    let mut v = ViewState::new();
    assert!(v.zoom_in());
    assert!(v.zoom_in());
    assert!(v.zoom_in());
    // 1 * (6/5)^3 = 216/125 = 1.728
    assert!(v.zoom.eqv(&Rat { num: 216, den: 125 }));
    // pan left by 10: pan.x moves by -10 / 1.728 = -1250/216
    assert!(v.pan_by(-10, 0));
    assert!(v.pan_x.eqv(&Rat { num: -1250, den: 216 }));
    assert!(v.pan_y.eqv(&Rat { num: 0, den: 1 }));
}

#[test]
fn pan_speed_scales_inversely_with_zoom() {
    let mut v = ViewState::new();
    assert!(v.pan_by(10, 0));
    assert!(v.pan_x.eqv(&Rat { num: 10, den: 1 }));
    let mut w = ViewState::new();
    assert!(w.zoom_in());
    assert!(w.pan_by(10, 0));
    // at zoom 6/5 the same command moves by 10 * 5/6 = 50/6
    assert!(w.pan_x.eqv(&Rat { num: 50, den: 6 }));
}

#[test]
fn pan_overflow_is_rejected_and_state_unchanged() {
    let mut v = ViewState::new();
    v.pan_x = Rat { num: i64::MAX, den: 1 };
    let before_x = v.pan_x;
    let applied = v.pan_by(1, 0);
    assert!(!applied);
    assert_eq!(v.pan_x, before_x);
    assert!(v.zoom.eqv(&Rat { num: 1, den: 1 }));
}

#[test]
fn screen_world_round_trip_is_identity() {
    let mut v = ViewState::new();
    assert!(v.zoom_in());
    assert!(v.pan_by(13, -4));
    for (sx, sy) in [(0i64, 0i64), (5, 7), (39, 19), (17, 2)] {
        let w = v.to_world(sx, sy).expect("in-range point maps");
        let s = v.screen_from_world(&w).expect("world point maps back");
        assert!(s.x.eqv(&Rat { num: sx, den: 1 }));
        assert!(s.y.eqv(&Rat { num: sy, den: 1 }));
    }
}

#[test]
fn world_screen_round_trip_is_identity() {
    let mut v = ViewState::new();
    assert!(v.zoom_in());
    assert!(v.pan_by(-3, 9));
    let w = RatPoint { x: Rat { num: 7, den: 3 }, y: Rat { num: -11, den: 4 } };
    let s = v.screen_from_world(&w).expect("maps to screen");
    let back = v
        .to_world_rational(&s)
        .expect("maps back into the world");
    assert!(back.x.eqv(&w.x));
    assert!(back.y.eqv(&w.y));
}

#[test]
fn world_bounds_follow_pan_and_zoom() {
    let mut v = ViewState::new();
    let b = v.world_bounds(40, 20).expect("bounds fit");
    assert!(b.x_min.eqv(&Rat { num: 0, den: 1 }));
    assert!(b.x_max.eqv(&Rat { num: 40, den: 1 }));
    assert!(b.y_max.eqv(&Rat { num: 20, den: 1 }));
    assert!(v.zoom_in());
    let b2 = v.world_bounds(40, 20).expect("bounds fit");
    // at zoom 6/5 the window shrinks to 40 / (6/5) = 200/6
    assert!(b2.x_max.eqv(&Rat { num: 200, den: 6 }));
    assert!(b2.y_max.eqv(&Rat { num: 100, den: 6 }));
}
