use sdvx_keyoverlay::input::VolRotation;
use sdvx_keyoverlay::vol::VolState;

#[test]
fn detect_none_before_window_full() {
    let mut vol = VolState::new();
    for v in [900, 800, 700, 600, 500] {
        vol.push_left(v);
        vol.push_right(v);
        assert_eq!(vol.get_left_vol_rotation(), None);
        assert_eq!(vol.get_right_vol_rotation(), None);
    }
}

#[test]
fn detect_reports_after_sixth_push() {
    let mut vol = VolState::new();
    for v in [0, 100, 200, 300, 400, 500] {
        vol.push_left(v);
    }
    assert_eq!(vol.get_left_vol_rotation(), Some(VolRotation::Right));
}

#[test]
fn sides_are_mirrored() {
    let mut vol = VolState::new();
    for v in [0, 100, 200, 300, 400, 500] {
        vol.push_left(v);
        vol.push_right(v);
    }
    assert_eq!(vol.get_left_vol_rotation(), Some(VolRotation::Right));
    assert_eq!(vol.get_right_vol_rotation(), Some(VolRotation::Left));
}

#[test]
fn decreasing_detects_backward() {
    let mut vol = VolState::new();
    for v in [500, 400, 300, 200, 100, 0] {
        vol.push_left(v);
        vol.push_right(v);
    }
    assert_eq!(vol.get_left_vol_rotation(), Some(VolRotation::Left));
    assert_eq!(vol.get_right_vol_rotation(), Some(VolRotation::Right));
}

#[test]
fn seventh_push_evicts_oldest() {
    let mut vol = VolState::new();
    for v in [10, 20, 30, 40, 50, 60] {
        vol.push_left(v);
    }
    assert_eq!(vol.left_len(), 6);
    assert_eq!(vol.left_sample(0), 10);
    vol.push_left(70);
    assert_eq!(vol.left_len(), 6);
    assert_eq!(vol.left_sample(0), 20);
    assert_eq!(vol.left_sample(5), 70);
}

#[test]
fn window_never_exceeds_capacity() {
    let mut vol = VolState::new();
    for i in 0..50 {
        vol.push_right(i);
        assert!(vol.right_len() <= 6);
    }
}

#[test]
fn wraparound_step_counts_forward() {
    // Two forward pairs, two backward pairs, and the wrap from 1000 to
    // -1000: forward wins only because the wrap counts as +1.
    let mut vol = VolState::new();
    for v in [900, 1000, -1000, -900, -950, -990] {
        vol.push_left(v);
        vol.push_right(v);
    }
    assert_eq!(vol.get_left_vol_rotation(), Some(VolRotation::Right));
    assert_eq!(vol.get_right_vol_rotation(), Some(VolRotation::Left));
}

#[test]
fn near_wrap_step_is_not_a_wraparound() {
    // The same shape, but the fall stops short of the minimum: it is an
    // ordinary backward step, so the backward pairs win.
    let mut vol = VolState::new();
    for v in [900, 1000, -990, -900, -950, -990] {
        vol.push_left(v);
    }
    assert_eq!(vol.get_left_vol_rotation(), Some(VolRotation::Left));
}

#[test]
fn balanced_window_reports_none() {
    // An odd capacity gives an even number of pairs, which alternating
    // samples balance exactly; the detector reports nothing.
    let mut vol = VolState::with_capacity(7);
    for v in [0, 100, 0, 100, 0, 100, 0] {
        vol.push_left(v);
        vol.push_right(v);
    }
    assert_eq!(vol.left_len(), 7);
    assert_eq!(vol.get_left_vol_rotation(), None);
    assert_eq!(vol.get_right_vol_rotation(), None);
}

#[test]
fn left_scenario_after_six_pushes() {
    // Axis course 0.0, 0.5, 0.8, 1.0, -0.9, -0.3 in thousandths: four of
    // the five pairs step forward, so the left knob reads rightward.
    let mut vol = VolState::new();
    for v in [0, 500, 800, 1000, -900, -300] {
        vol.push_left(v);
    }
    assert_eq!(vol.get_left_vol_rotation(), Some(VolRotation::Right));
}

#[test]
fn out_of_range_samples_are_clamped() {
    let mut vol = VolState::new();
    vol.push_left(1500);
    vol.push_left(-2000);
    vol.push_left(300);
    assert_eq!(vol.left_sample(0), 1000);
    assert_eq!(vol.left_sample(1), -1000);
    assert_eq!(vol.left_sample(2), 300);
}

#[test]
fn clear_empties_one_side_only() {
    let mut vol = VolState::new();
    vol.push_left(100);
    vol.push_right(200);
    vol.clear_left();
    assert_eq!(vol.left_len(), 0);
    assert_eq!(vol.right_len(), 1);
    vol.clear_right();
    assert_eq!(vol.right_len(), 0);
}

#[test]
fn default_detector_is_empty() {
    let vol = VolState::default();
    assert_eq!(vol.left_len(), 0);
    assert_eq!(vol.right_len(), 0);
    assert_eq!(vol.get_left_vol_rotation(), None);
}
