use sdvx_keyoverlay::beam::{Beam, BeamConfig};
use sdvx_keyoverlay::input::{
    ButtonKind, GamepadButtonCode, SdvxInput, SdvxInputKind, VolKind, VolRotation, VolSide,
};
use sdvx_keyoverlay::overlay::{GamepadInputEvent, OverlayState};

const PRESS: i32 = 1000;
const RELEASE: i32 = 0;

#[test]
fn press_edge_spawns_beam_at_origin() {
    let mut o = OverlayState::new();
    o.button_changed(GamepadButtonCode::West, PRESS);
    assert_eq!(o.beams.len(), 1);
    let b = o.beams[0];
    assert_eq!(b.kind, SdvxInputKind::Button(ButtonKind::BTA));
    assert!(b.growing);
    assert_eq!(b.age_ms, 0);
    assert_eq!(b.growth_age_ms, 0);
    assert_eq!(b.pos.x_milli, -78000);
    assert_eq!(b.pos.y_milli, -200000);
    assert_eq!(b.scale_y_milli, 1000);
    assert_eq!(o.press_ages_ms.len(), 1);
}

#[test]
fn unrecognized_code_is_ignored() {
    let mut o = OverlayState::new();
    o.button_changed(GamepadButtonCode::Select, PRESS);
    o.button_changed(GamepadButtonCode::Start, RELEASE);
    assert_eq!(o.beams.len(), 0);
    assert_eq!(o.press_ages_ms.len(), 0);
}

#[test]
fn in_between_value_is_ignored() {
    let mut o = OverlayState::new();
    o.button_changed(GamepadButtonCode::West, 500);
    assert_eq!(o.beams.len(), 0);
}

#[test]
fn release_clears_growing_at_any_age() {
    let mut o = OverlayState::new();
    o.button_changed(GamepadButtonCode::South, PRESS);
    assert!(o.beams[0].growing);
    // No time has passed at all; the release edge still settles it.
    o.button_changed(GamepadButtonCode::South, RELEASE);
    assert!(!o.beams[0].growing);
}

#[test]
fn release_of_other_button_changes_nothing() {
    let mut o = OverlayState::new();
    o.button_changed(GamepadButtonCode::South, PRESS);
    o.button_changed(GamepadButtonCode::East, RELEASE);
    assert!(o.beams[0].growing);
}

#[test]
fn settled_beam_despawns_exactly_after_ttl() {
    let mut o = OverlayState::new();
    o.button_changed(GamepadButtonCode::West, PRESS);
    o.button_changed(GamepadButtonCode::West, RELEASE);
    o.despawn_beams(3000);
    // Age is exactly the time-to-live: not yet over it, so the beam stays.
    assert_eq!(o.beams.len(), 1);
    assert_eq!(o.beams[0].age_ms, 3000);
    o.despawn_beams(1);
    assert_eq!(o.beams.len(), 0);
}

#[test]
fn growing_beam_never_despawns() {
    let mut o = OverlayState::new();
    o.button_changed(GamepadButtonCode::West, PRESS);
    o.despawn_beams(10000);
    assert_eq!(o.beams.len(), 1);
}

#[test]
fn translation_moves_at_scroll_speed() {
    let mut o = OverlayState::new();
    o.button_changed(GamepadButtonCode::North, PRESS);
    o.button_changed(GamepadButtonCode::North, RELEASE);
    o.move_beams(10);
    assert_eq!(o.beams[0].pos.y_milli, -200000 + 300 * 10);
}

#[test]
fn growth_expands_from_the_leading_edge() {
    let mut o = OverlayState::new();
    o.button_changed(GamepadButtonCode::North, PRESS);
    o.grow_beams(10);
    let b = o.beams[0];
    assert_eq!(b.scale_y_milli, 1000 + 300 * 10);
    assert_eq!(b.pos.y_milli, -200000 - 300 * 10 / 2);
    assert_eq!(b.growth_age_ms, 10);
}

#[test]
fn settled_beam_does_not_grow() {
    let mut o = OverlayState::new();
    o.button_changed(GamepadButtonCode::North, PRESS);
    o.button_changed(GamepadButtonCode::North, RELEASE);
    o.grow_beams(10);
    let b = o.beams[0];
    assert_eq!(b.scale_y_milli, 1000);
    assert_eq!(b.pos.y_milli, -200000);
    assert_eq!(b.growth_age_ms, 0);
}

#[test]
fn rotation_detection_spawns_vol_beam() {
    let mut o = OverlayState::new();
    for v in [0, 100, 200, 300, 400, 500] {
        o.axis_changed(VolSide::Left, v);
    }
    assert_eq!(o.beams.len(), 1);
    let b = o.beams[0];
    assert_eq!(b.kind, SdvxInputKind::Vol(VolKind::Left(VolRotation::Right)));
    assert!(b.growing);
    // Rotations feed no press marker.
    assert_eq!(o.press_ages_ms.len(), 0);
}

#[test]
fn retrigger_resets_growth_age_and_spawns_nothing(
) {
    let mut o = OverlayState::new();
    for v in [0, 100, 200, 300, 400, 500] {
        o.axis_changed(VolSide::Left, v);
    }
    o.grow_beams(10);
    assert_eq!(o.beams[0].growth_age_ms, 10);
    // Another forward sample detects the same direction again.
    o.axis_changed(VolSide::Left, 600);
    assert_eq!(o.beams.len(), 1);
    assert_eq!(o.beams[0].growth_age_ms, 0);
    assert!(o.beams[0].growing);
}

#[test]
fn vol_beam_settles_only_past_growth_threshold() {
    let mut o = OverlayState::new();
    for v in [0, 100, 200, 300, 400, 500] {
        o.axis_changed(VolSide::Left, v);
    }
    o.grow_beams(40);
    o.stop_growing_vol_beams();
    // Growth age 40 has not passed the 50 ms threshold.
    assert!(o.beams[0].growing);
    assert_eq!(o.vol_state.left_len(), 6);
    o.grow_beams(20);
    o.stop_growing_vol_beams();
    // Growth age 60 has; the beam settles and the window clears.
    assert!(!o.beams[0].growing);
    assert_eq!(o.vol_state.left_len(), 0);
}

#[test]
fn external_signals_do_not_settle_vol_beam() {
    let mut o = OverlayState::new();
    for v in [0, 100, 200, 300, 400, 500] {
        o.axis_changed(VolSide::Left, v);
    }
    // A release edge settles button beams only.
    o.button_changed(GamepadButtonCode::West, RELEASE);
    assert!(o.beams[0].growing);
}

#[test]
fn overlap_suppresses_window_clear_until_one_side_settles() {
    let mut o = OverlayState::new();
    // Forward course: a rightward beam spawns on the left knob.
    for v in [0, 100, 200, 300, 400, 500] {
        o.axis_changed(VolSide::Left, v);
    }
    assert_eq!(o.beams.len(), 1);
    // Reversal begins; the first two falling samples still read forward
    // and only retrigger the rightward beam.
    o.axis_changed(VolSide::Left, 400);
    o.axis_changed(VolSide::Left, 300);
    assert_eq!(o.beams.len(), 1);
    o.grow_beams(60);
    // The third falling sample reads backward: a leftward beam spawns,
    // and both directions of the left knob are now growing.
    o.axis_changed(VolSide::Left, 200);
    assert_eq!(o.beams.len(), 2);
    assert_eq!(
        o.beams[1].kind,
        SdvxInputKind::Vol(VolKind::Left(VolRotation::Left))
    );
    o.stop_growing_vol_beams();
    // The rightward beam was due and settles, but the overlap keeps the
    // shared window intact.
    assert!(!o.beams[0].growing);
    assert!(o.beams[1].growing);
    assert_eq!(o.vol_state.left_len(), 6);
    // Next frame only the leftward beam is growing: when its own
    // threshold passes, the clear resumes.
    o.grow_beams(60);
    o.stop_growing_vol_beams();
    assert!(!o.beams[1].growing);
    assert_eq!(o.vol_state.left_len(), 0);
}

#[test]
fn live_settled_beam_blocks_duplicate_spawn() {
    let mut o = OverlayState::new();
    for v in [0, 100, 200, 300, 400, 500] {
        o.axis_changed(VolSide::Left, v);
    }
    o.grow_beams(60);
    o.stop_growing_vol_beams();
    assert!(!o.beams[0].growing);
    assert_eq!(o.beams.len(), 1);
    // The same direction detects again while the settled beam lives:
    // nothing spawns and nothing restarts.
    for v in [0, 100, 200, 300, 400, 500] {
        o.axis_changed(VolSide::Left, v);
    }
    assert_eq!(o.beams.len(), 1);
    assert!(!o.beams[0].growing);
}

#[test]
fn right_side_events_spawn_right_kinds() {
    let mut o = OverlayState::new();
    for v in [500, 400, 300, 200, 100, 0] {
        o.axis_changed(VolSide::Right, v);
    }
    assert_eq!(o.beams.len(), 1);
    assert_eq!(
        o.beams[0].kind,
        SdvxInputKind::Vol(VolKind::Right(VolRotation::Right))
    );
}

#[test]
fn kps_counts_presses_within_one_second() {
    let mut o = OverlayState::new();
    o.button_changed(GamepadButtonCode::West, PRESS);
    o.button_changed(GamepadButtonCode::South, PRESS);
    o.button_changed(GamepadButtonCode::East, PRESS);
    assert_eq!(o.track_kps(500), 3);
    // The markers are now 1001 ms old and all leave the window.
    assert_eq!(o.track_kps(501), 0);
}

#[test]
fn kps_boundary_is_inclusive() {
    let mut o = OverlayState::new();
    o.button_changed(GamepadButtonCode::West, PRESS);
    assert_eq!(o.track_kps(1000), 1);
    assert_eq!(o.track_kps(1), 0);
}

#[test]
fn step_frame_runs_passes_in_order() {
    let mut o = OverlayState::new();
    let events = vec![GamepadInputEvent::ButtonChanged(GamepadButtonCode::West, PRESS)];
    let kps = o.step_frame(10, &events);
    assert_eq!(kps, 1);
    assert_eq!(o.beams.len(), 1);
    let b = o.beams[0];
    // Spawned at the origin, then translated up and grown downward by
    // half the scale delta within the same frame.
    assert_eq!(b.pos.y_milli, -200000 + 3000 - 1500);
    assert_eq!(b.scale_y_milli, 1000 + 3000);
    assert_eq!(b.age_ms, 10);
    assert_eq!(b.growth_age_ms, 10);
    assert_eq!(o.press_ages_ms[0], 10);
}

#[test]
fn step_frame_axis_events_reach_the_detector() {
    let mut o = OverlayState::new();
    let mut events = Vec::new();
    for v in [0, 100, 200, 300, 400, 500] {
        events.push(GamepadInputEvent::AxisChanged(VolSide::Left, v));
    }
    let kps = o.step_frame(10, &events);
    assert_eq!(kps, 0);
    assert_eq!(o.beams.len(), 1);
    assert_eq!(o.beams[0].kind, SdvxInputKind::Vol(VolKind::Left(VolRotation::Right)));
}

#[test]
fn beam_new_matches_config() {
    let kind = SdvxInputKind::Button(ButtonKind::FXL);
    let b = Beam::new(kind);
    assert_eq!(b.pos, BeamConfig::pos(&kind));
    assert_eq!(b.size, BeamConfig::size(&kind));
    assert!(b.growing);
    assert_eq!(b.scale_y_milli, 1000);
}

#[test]
fn sdvx_input_carries_its_kind() {
    let input = SdvxInput::new(SdvxInputKind::Button(ButtonKind::BTC));
    assert_eq!(input.kind, SdvxInputKind::Button(ButtonKind::BTC));
}
