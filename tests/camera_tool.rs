use camera_tool::camera_paths::CameraPaths;
use camera_tool::command::Command;
use camera_tool::fixed::{ratio_clamped, UNIT};
use camera_tool::keyframe::{insert_keyframe, new_control_point, sort_by_time, CameraCurves, Keyframe};
use camera_tool::preview::{camera_pose, track_rects};
use camera_tool::tool::{hits_handle, CameraTool, EditSession};

fn kf(time: u32, value: i64) -> Keyframe {
    Keyframe { time, value, value_final: None, ease_a: None, ease_b: None }
}

fn zoom_curves(zoom: Vec<Keyframe>) -> CameraCurves {
    CameraCurves { zoom, rotation_x: Vec::new() }
}

fn dragging(index: usize) -> CameraTool {
    let mut t = CameraTool::new();
    t.curving_index = Some(EditSession { segment_index: index, ease_a: UNIT / 2, ease_b: UNIT / 2 });
    t
}

#[test]
fn drag_to_segment_midpoint_gives_half_half() {
    let chart = zoom_curves(vec![kf(0, 0), kf(100, 3 * UNIT)]);
    let mut t = dragging(0);
    // pointer at tick 50 and on the lane whose value is 1.5 (lane 4.5)
    t.update(50 * UNIT, 4 * UNIT + UNIT / 2, &chart);
    let e = t.curving_index.unwrap();
    assert_eq!(e.segment_index, 0);
    assert_eq!(e.ease_a, UNIT / 2);
    assert_eq!(e.ease_b, UNIT / 2);
}

#[test]
fn drag_outside_segment_saturates() {
    let chart = zoom_curves(vec![kf(10, -UNIT), kf(20, UNIT)]);
    let mut t = dragging(0);
    t.update(-1000 * UNIT, -100 * UNIT, &chart);
    let e = t.curving_index.unwrap();
    assert_eq!((e.ease_a, e.ease_b), (0, 0));
    t.update(1000 * UNIT, 100 * UNIT, &chart);
    let e = t.curving_index.unwrap();
    assert_eq!((e.ease_a, e.ease_b), (UNIT, UNIT));
    t.update(i64::MAX, i64::MIN, &chart);
    let e = t.curving_index.unwrap();
    assert_eq!((e.ease_a, e.ease_b), (UNIT, 0));
}

#[test]
fn drag_on_descending_segment() {
    // values fall from 2 to 0; the pointer at value 1.5 is a quarter of the way
    let chart = zoom_curves(vec![kf(0, 2 * UNIT), kf(40, 0)]);
    let mut t = dragging(0);
    t.update(10 * UNIT, 4 * UNIT + UNIT / 2, &chart);
    let e = t.curving_index.unwrap();
    assert_eq!(e.ease_a, UNIT / 4);
    assert_eq!(e.ease_b, UNIT / 4);
}

#[test]
fn drag_eases_from_jump_value() {
    let mut k0 = kf(0, 3 * UNIT);
    k0.value_final = Some(0);
    let chart = zoom_curves(vec![k0, kf(100, 2 * UNIT)]);
    let mut t = dragging(0);
    // value 1.0 between the jump target 0 and the end value 2
    t.update(0, 4 * UNIT, &chart);
    let e = t.curving_index.unwrap();
    assert_eq!(e.ease_a, 0);
    assert_eq!(e.ease_b, UNIT / 2);
}

#[test]
fn drag_on_flat_or_zero_length_segment() {
    let chart = zoom_curves(vec![kf(10, UNIT), kf(10, UNIT)]);
    let mut t = dragging(0);
    t.update(11 * UNIT, 5 * UNIT, &chart);
    let e = t.curving_index.unwrap();
    assert_eq!((e.ease_a, e.ease_b), (UNIT, UNIT));
    t.update(10 * UNIT, 4 * UNIT, &chart);
    let e = t.curving_index.unwrap();
    assert_eq!((e.ease_a, e.ease_b), (0, 0));
}

#[test]
fn drag_on_missing_segment_keeps_session() {
    let chart = zoom_curves(vec![kf(0, 0), kf(100, UNIT)]);
    let mut t = dragging(1);
    let before = t;
    t.update(50 * UNIT, 3 * UNIT, &chart);
    assert_eq!(t, before);
    let mut idle = CameraTool::new();
    idle.update(50 * UNIT, 3 * UNIT, &chart);
    assert_eq!(idle, CameraTool::new());
}

#[test]
fn drag_reads_the_displayed_track() {
    let chart = CameraCurves {
        zoom: vec![kf(0, 0), kf(100, 3 * UNIT)],
        rotation_x: vec![kf(0, 0), kf(200, 3 * UNIT)],
    };
    let mut t = dragging(0);
    t.set_display_line(CameraPaths::RotationX);
    t.update(50 * UNIT, 3 * UNIT, &chart);
    assert_eq!(t.curving_index.unwrap().ease_a, UNIT / 4);
}

#[test]
fn press_on_handle_selects_segment() {
    let mut k1 = kf(100, 0);
    k1.ease_a = Some(UNIT / 5);
    k1.ease_b = Some(UNIT / 10);
    let chart = zoom_curves(vec![kf(0, 0), k1, kf(200, UNIT)]);
    let handles = vec![Some((10 * UNIT, 10 * UNIT)), Some((40 * UNIT, 12 * UNIT))];
    let mut t = CameraTool::new();
    t.drag_start(&handles, (40 * UNIT, 12 * UNIT), &chart);
    assert_eq!(
        t.curving_index,
        Some(EditSession { segment_index: 1, ease_a: UNIT / 5, ease_b: UNIT / 10 })
    );
    let mut t = CameraTool::new();
    t.drag_start(&handles, (10 * UNIT, 10 * UNIT), &chart);
    assert_eq!(
        t.curving_index,
        Some(EditSession { segment_index: 0, ease_a: UNIT / 2, ease_b: UNIT / 2 })
    );
}

#[test]
fn overlapping_handles_last_one_wins() {
    let chart = zoom_curves(vec![kf(0, 0), kf(100, 0), kf(200, 0)]);
    let handles = vec![Some((0, 0)), Some((2 * UNIT, 0))];
    let mut t = CameraTool::new();
    t.drag_start(&handles, (UNIT, 0), &chart);
    assert_eq!(t.curving_index.unwrap().segment_index, 1);
}

#[test]
fn press_away_from_handles_starts_nothing() {
    let chart = zoom_curves(vec![kf(0, 0), kf(100, 0)]);
    let handles = vec![Some((0, 0))];
    let mut t = CameraTool::new();
    // exactly five pixels away is out of reach
    t.drag_start(&handles, (5 * UNIT, 0), &chart);
    assert_eq!(t.curving_index, None);
    t.drag_start(&vec![None], (0, 0), &chart);
    assert_eq!(t.curving_index, None);
    assert!(hits_handle((0, 0), (3 * UNIT, 4 * UNIT - 1)));
    assert!(!hits_handle((0, 0), (3 * UNIT, 4 * UNIT)));
    assert!(!hits_handle((i64::MIN, 0), (i64::MAX, 0)));
}

#[test]
fn release_commits_and_clears() {
    let mut t = dragging(3);
    t.set_display_line(CameraPaths::RotationX);
    let c = t.drag_end();
    assert_eq!(
        c,
        Some(Command::CommitCurveEdit {
            track: CameraPaths::RotationX,
            index: 3,
            ease_a: UNIT / 2,
            ease_b: UNIT / 2,
        })
    );
    assert_eq!(t.curving_index, None);
    assert_eq!(t.drag_end(), None);
    assert_eq!(c.unwrap().description(), "Edit curve for camera angle.");
}

#[test]
fn commit_sets_ease_on_keyframe() {
    let mut chart = zoom_curves(vec![kf(0, 0), kf(100, UNIT)]);
    let c = Command::CommitCurveEdit { track: CameraPaths::Zoom, index: 0, ease_a: 7, ease_b: 9 };
    c.apply(&mut chart);
    assert_eq!(chart.zoom[0].ease_a, Some(7));
    assert_eq!(chart.zoom[0].ease_b, Some(9));
    assert_eq!(chart.zoom[1], kf(100, UNIT));
    assert_eq!(c.description(), "Edit curve for camera radius.");
}

#[test]
fn commit_on_missing_keyframe_changes_nothing() {
    let mut chart = zoom_curves(vec![kf(0, 0), kf(100, UNIT)]);
    let before = chart.clone();
    let c = Command::CommitCurveEdit { track: CameraPaths::Zoom, index: 2, ease_a: 7, ease_b: 9 };
    c.apply(&mut chart);
    assert_eq!(chart, before);
}

#[test]
fn add_control_point_only_to_changed_track() {
    let mut t = CameraTool::new();
    t.set_radius(-UNIT);
    assert!(t.radius_dirty);
    assert!(!t.angle_dirty);
    let c = t.add_control_point(40);
    assert!(!t.radius_dirty && !t.angle_dirty);
    let mut chart = CameraCurves { zoom: vec![kf(0, 0), kf(100, 0)], rotation_x: vec![kf(0, 0)] };
    c.apply(&mut chart);
    assert_eq!(chart.zoom.len(), 3);
    assert_eq!(
        chart.zoom[1],
        Keyframe {
            time: 40,
            value: -UNIT,
            value_final: None,
            ease_a: Some(UNIT / 2),
            ease_b: Some(UNIT / 2),
        }
    );
    assert_eq!(chart.rotation_x, vec![kf(0, 0)]);
    assert_eq!(c.description(), "Added camera control point.");
}

#[test]
fn add_control_point_to_both_tracks() {
    let mut t = CameraTool::new();
    t.set_radius(UNIT);
    t.set_angle(2 * UNIT);
    let c = t.add_control_point(5);
    assert_eq!(c, Command::AddControlPoint { time: 5, radius: Some(UNIT), angle: Some(2 * UNIT) });
    let mut chart = CameraCurves { zoom: vec![kf(10, 0)], rotation_x: vec![kf(0, 0)] };
    c.apply(&mut chart);
    assert_eq!(chart.zoom.iter().map(|k| k.time).collect::<Vec<_>>(), vec![5, 10]);
    assert_eq!(chart.rotation_x.iter().map(|k| k.time).collect::<Vec<_>>(), vec![0, 5]);
    assert_eq!(chart.rotation_x[1].value, 2 * UNIT);
}

#[test]
fn equal_ticks_are_ordered_by_arrival() {
    let run = || {
        let mut track = vec![kf(10, 1)];
        insert_keyframe(&mut track, kf(10, 2));
        insert_keyframe(&mut track, kf(5, 3));
        insert_keyframe(&mut track, kf(10, 4));
        track
    };
    let first = run();
    assert_eq!(first.iter().map(|k| (k.time, k.value)).collect::<Vec<_>>(), vec![
        (5, 3),
        (10, 1),
        (10, 2),
        (10, 4)
    ]);
    for _ in 0..10 {
        assert_eq!(run(), first);
    }
}

#[test]
fn inserted_control_point_keeps_times_increasing() {
    let mut track = vec![kf(0, 0), kf(20, 0), kf(30, 0)];
    insert_keyframe(&mut track, new_control_point(25, 7));
    assert_eq!(track.iter().map(|k| k.time).collect::<Vec<_>>(), vec![0, 20, 25, 30]);
    insert_keyframe(&mut track, new_control_point(99, 7));
    assert_eq!(track.last().unwrap().time, 99);
}

#[test]
fn sliders_follow_tracks_until_changed() {
    let mut t = CameraTool::new();
    t.sync_sliders(UNIT, 2 * UNIT);
    assert_eq!((t.radius, t.angle), (UNIT, 2 * UNIT));
    t.set_angle(2 * UNIT);
    assert!(!t.angle_dirty);
    t.set_angle(-UNIT);
    assert!(t.angle_dirty);
    t.sync_sliders(3 * UNIT, 0);
    assert_eq!((t.radius, t.angle), (3 * UNIT, -UNIT));
}

#[test]
fn camera_pose_from_track_values() {
    let p = camera_pose(-UNIT, UNIT);
    assert_eq!(p.angle, -59 * UNIT as i128);
    assert_eq!(p.radius, 2_050_000);
    assert_eq!(p.field_of_view, 70 * UNIT);
    assert_eq!(p.tilt, 0);
    assert_eq!(p.track_length, 16 * UNIT);
    assert_eq!(p.center, (0, 0, 0));
    let p = camera_pose(3_100_001, 0);
    assert_eq!(p.radius, -1);
    assert_eq!(p.angle, -45 * UNIT as i128);
    let mut t = CameraTool::new();
    t.set_radius(3 * UNIT);
    assert_eq!(t.camera().radius, 50_000);
}

#[test]
fn track_layout_rectangles() {
    let r = track_rects();
    assert_eq!(r.len(), 9);
    assert_eq!(r[0].min, (-UNIT / 2, 0));
    assert_eq!(r[0].max, (UNIT / 2, 16 * UNIT));
    assert_eq!(r[0].color, (50, 50, 50));
    assert_eq!(r[1].min.0, -500_000 + 166_666 - 10_000);
    assert_eq!(r[5].max.0, -500_000 + 833_333 + 10_000);
    assert_eq!(r[6].max.0, -500_000 + 166_666);
    assert_eq!(r[7].color, (0, 100, 255));
    assert_eq!(r[8].min, (-UNIT / 2, -10_000));
    assert_eq!(r[8].color, (255, 0, 0));
}

#[test]
fn track_selector_labels_and_default() {
    assert_eq!(CameraPaths::default(), CameraPaths::Zoom);
    assert_eq!(CameraPaths::Zoom.to_string(), "Radius");
    assert_eq!(CameraPaths::RotationX.to_string(), "Angle");
    assert_eq!(CameraTool::default(), CameraTool::new());
    let chart = CameraCurves { zoom: vec![kf(1, 1)], rotation_x: vec![kf(2, 2)] };
    assert_eq!(CameraPaths::RotationX.track(&chart)[0].time, 2);
}

#[test]
fn clamped_ratio_values() {
    assert_eq!(ratio_clamped(1, 3), 333_333);
    assert_eq!(ratio_clamped(-1, -3), 333_333);
    assert_eq!(ratio_clamped(1, -3), 0);
    assert_eq!(ratio_clamped(5, 0), UNIT);
    assert_eq!(ratio_clamped(0, 0), 0);
    assert_eq!(ratio_clamped(-5, 0), 0);
}

#[test]
fn segments_show_live_ease_on_dragged_one() {
    let chart = zoom_curves(vec![kf(0, 0), kf(100, UNIT), kf(200, 0)]);
    let mut t = dragging(1);
    t.curving_index = Some(EditSession { segment_index: 1, ease_a: 3, ease_b: 4 });
    let v = t.segment_views(&chart);
    assert_eq!(v.len(), 2);
    assert_eq!(v[0], (kf(0, 0), kf(100, UNIT), false));
    let mut live = kf(100, UNIT);
    live.ease_a = Some(3);
    live.ease_b = Some(4);
    assert_eq!(v[1], (live, kf(200, 0), true));
    let mut end = kf(200, 0);
    end.ease_a = Some(3);
    end.ease_b = Some(4);
    assert_eq!(t.dragged_curve(&chart), Some((live, end)));
    assert_eq!(CameraTool::new().dragged_curve(&chart), None);
    assert_eq!(dragging(2).dragged_curve(&chart), None);
    assert_eq!(CameraTool::new().segment_views(&zoom_curves(vec![kf(0, 0)])).len(), 0);
}

#[test]
fn add_control_point_sorts_unordered_tracks_stably() {
    let c = Command::AddControlPoint { time: 15, radius: Some(9), angle: None };
    let mut chart = CameraCurves {
        zoom: vec![kf(20, 1), kf(10, 2), kf(20, 3)],
        rotation_x: vec![kf(30, 4), kf(5, 5)],
    };
    c.apply(&mut chart);
    assert_eq!(chart.zoom.iter().map(|k| (k.time, k.value)).collect::<Vec<_>>(), vec![
        (10, 2),
        (15, 9),
        (20, 1),
        (20, 3)
    ]);
    assert_eq!(chart.rotation_x, vec![kf(5, 5), kf(30, 4)]);
}

#[test]
fn control_point_at_taken_tick_goes_after_existing_one() {
    let run = || {
        let c = Command::AddControlPoint { time: 10, radius: Some(-UNIT), angle: None };
        let mut chart = zoom_curves(vec![kf(0, 0), kf(10, UNIT), kf(20, 0)]);
        c.apply(&mut chart);
        chart
    };
    let first = run();
    assert_eq!(first.zoom.len(), 4);
    assert_eq!(first.zoom[1], kf(10, UNIT));
    assert_eq!((first.zoom[2].time, first.zoom[2].value), (10, -UNIT));
    assert_eq!(first.zoom[3], kf(20, 0));
    for _ in 0..10 {
        assert_eq!(run(), first);
    }
}

#[test]
fn sort_by_time_keeps_equal_ticks_in_order() {
    let mut track = vec![kf(3, 1), kf(1, 2), kf(3, 3), kf(2, 4), kf(1, 5)];
    sort_by_time(&mut track);
    assert_eq!(track.iter().map(|k| k.value).collect::<Vec<_>>(), vec![2, 5, 4, 1, 3]);
    let mut empty: Vec<Keyframe> = Vec::new();
    sort_by_time(&mut empty);
    assert!(empty.is_empty());
}
