use vstd::prelude::*;

use crate::camera_paths::{track_of, CameraPaths};
use crate::command::{applied_rotation, applied_zoom, with_optional_point, Command};
use crate::fixed::{lemma_frac01_bounded, UNIT};
use crate::keyframe::{
    control_point, has_time, lemma_insert_ordered, lemma_sorted_by_time_of_ordered,
    lemma_sorted_by_time_ordered, lemma_upper_bound_split, sorted_by_time, times_increasing,
    times_ordered, upper_bound, with_ease, with_keyframe, CameraCurves, Keyframe,
};
use crate::tool::{commit_of, dragged, hit_range, last_hit, seeded, within_radius, EditSession};

verus! {

/// Both ease parameters of a session are in `[0, UNIT]`.
pub open spec fn eases_in_range(e: EditSession) -> bool {
    0 <= e.ease_a <= UNIT && 0 <= e.ease_b <= UNIT
}

/// Adding a keyframe to an ordered track keeps it ordered, and the new
/// keyframe lands after every keyframe at a tick no later than its own and
/// before every later one; so keyframes sharing a tick keep the order in
/// which they were added.
pub proof fn lemma_with_keyframe_ordered(s: Seq<Keyframe>, k: Keyframe)
    requires
        times_ordered(s),
    ensures
        times_ordered(with_keyframe(s, k)),
        with_keyframe(s, k).len() == s.len() + 1,
        with_keyframe(s, k)[upper_bound(s, k.time) as int] == k,
        forall|j: int|
            0 <= j < upper_bound(s, k.time) ==> with_keyframe(s, k)[j] == s[j] && s[j].time
                <= k.time,
        forall|j: int|
            upper_bound(s, k.time) < j < s.len() + 1 ==> with_keyframe(s, k)[j] == s[j - 1]
                && s[j - 1].time > k.time,
{
    lemma_upper_bound_split(s, k.time);
    lemma_insert_ordered(s, k);
}

/// Adding a keyframe at a tick that the track does not hold keeps the times
/// of a well-formed track strictly increasing.
pub proof fn lemma_with_keyframe_increasing(s: Seq<Keyframe>, k: Keyframe)
    requires
        times_increasing(s),
        !has_time(s, k.time),
    ensures
        times_increasing(with_keyframe(s, k)),
{
    assert(times_ordered(s));
    lemma_with_keyframe_ordered(s, k);
    let p = upper_bound(s, k.time) as int;
    let r = with_keyframe(s, k);
    assert forall|i: int, j: int| 0 <= i < j < r.len() implies r[i].time < r[j].time by {
        if j < p {
        } else if i < p {
            if j == p {
                assert(s[i].time != k.time);
            }
        } else if i == p {
        } else {
            assert(s[i - 1].time < s[j - 1].time);
        }
    }
}

/// On an ordered track, appending a keyframe and sorting by time places it
/// just as `with_keyframe` does: after every keyframe at a tick no later than
/// its own, the track otherwise unchanged.
pub proof fn lemma_append_then_sort_on_ordered(s: Seq<Keyframe>, k: Keyframe)
    requires
        times_ordered(s),
    ensures
        sorted_by_time(s.push(k)) == with_keyframe(s, k),
{
    assert(s.push(k).drop_last() =~= s);
    lemma_sorted_by_time_of_ordered(s);
}

/// The track that adding a control point with optional value `v` yields,
/// on an ordered track.
proof fn lemma_optional_point_on_ordered(s: Seq<Keyframe>, time: u32, v: Option<i64>)
    requires
        times_ordered(s),
    ensures
        with_optional_point(s, time, v) == (match v {
            Some(v) => with_keyframe(s, control_point(time, v)),
            None => s,
        }),
{
    match v {
        Some(v) => lemma_append_then_sort_on_ordered(s, control_point(time, v)),
        None => lemma_sorted_by_time_of_ordered(s),
    }
}

proof fn lemma_with_ease_keeps_times(s: Seq<Keyframe>, i: int, a: i64, b: i64)
    ensures
        with_ease(s, i, a, b).len() == s.len(),
        forall|j: int| 0 <= j < s.len() ==> #[trigger] with_ease(s, i, a, b)[j].time == s[j].time,
{
}

/// Applying any command to well-formed tracks leaves them well formed, as
/// long as no control point is added at a tick its track already holds.
pub proof fn lemma_apply_keeps_times_increasing(c: Command, curves: CameraCurves)
    requires
        times_increasing(curves.zoom@),
        times_increasing(curves.rotation_x@),
        c matches Command::AddControlPoint { time, radius, angle } ==> (radius is Some
            ==> !has_time(curves.zoom@, time)) && (angle is Some ==> !has_time(
            curves.rotation_x@,
            time,
        )),
    ensures
        times_increasing(applied_zoom(c, curves.zoom@)),
        times_increasing(applied_rotation(c, curves.rotation_x@)),
{
    let z = curves.zoom@;
    let r = curves.rotation_x@;
    assert(times_ordered(z));
    assert(times_ordered(r));
    match c {
        Command::CommitCurveEdit { track, index, ease_a, ease_b } => {
            lemma_with_ease_keeps_times(z, index as int, ease_a, ease_b);
            lemma_with_ease_keeps_times(r, index as int, ease_a, ease_b);
        },
        Command::AddControlPoint { time, radius, angle } => {
            lemma_optional_point_on_ordered(z, time, radius);
            lemma_optional_point_on_ordered(r, time, angle);
            if let Some(v) = radius {
                lemma_with_keyframe_increasing(z, control_point(time, v));
            }
            if let Some(v) = angle {
                lemma_with_keyframe_increasing(r, control_point(time, v));
            }
        },
    }
}

/// Adding a control point leaves both tracks ordered by time whatever they
/// held before, also when the new keyframe's tick is already taken; a curve
/// edit keeps an ordered track ordered.
pub proof fn lemma_apply_keeps_times_ordered(c: Command, curves: CameraCurves)
    requires
        c is CommitCurveEdit ==> times_ordered(curves.zoom@) && times_ordered(curves.rotation_x@),
    ensures
        times_ordered(applied_zoom(c, curves.zoom@)),
        times_ordered(applied_rotation(c, curves.rotation_x@)),
{
    let z = curves.zoom@;
    let r = curves.rotation_x@;
    match c {
        Command::CommitCurveEdit { track, index, ease_a, ease_b } => {
            lemma_with_ease_keeps_times(z, index as int, ease_a, ease_b);
            lemma_with_ease_keeps_times(r, index as int, ease_a, ease_b);
        },
        Command::AddControlPoint { time, radius, angle } => {
            match radius {
                Some(v) => lemma_sorted_by_time_ordered(z.push(control_point(time, v))),
                None => lemma_sorted_by_time_ordered(z),
            }
            match angle {
                Some(v) => lemma_sorted_by_time_ordered(r.push(control_point(time, v))),
                None => lemma_sorted_by_time_ordered(r),
            }
        },
    }
}

/// Following the pointer yields ease parameters in `[0, UNIT]` whatever the
/// pointer's time and lane, inside or outside the segment: the session keeps
/// them in range once it has them in range, and sets both in range whenever
/// its segment exists.
pub proof fn lemma_drag_eases_in_range(e: EditSession, s: Seq<Keyframe>, tick_f: i64, lane: i64)
    ensures
        e.segment_index + 1 < s.len() ==> eases_in_range(dragged(e, s, tick_f, lane)),
        eases_in_range(e) ==> eases_in_range(dragged(e, s, tick_f, lane)),
{
    let i = e.segment_index as int;
    if i + 1 < s.len() {
        let k0 = s[i];
        let k1 = s[i + 1];
        lemma_frac01_bounded(tick_f - k0.time * UNIT, (k1.time - k0.time) * UNIT);
        lemma_frac01_bounded(
            lane - 3 * UNIT - crate::tool::start_value(k0),
            k1.value - crate::tool::start_value(k0),
        );
    }
}

/// A drag never moves to another segment: following the pointer keeps the
/// session's segment index.
pub proof fn lemma_drag_keeps_segment(e: EditSession, s: Seq<Keyframe>, tick_f: i64, lane: i64)
    ensures
        dragged(e, s, tick_f, lane).segment_index == e.segment_index,
{
}

/// A session that starts on a keyframe whose stored ease parameters are in
/// `[0, UNIT]` (or absent) starts with both of them in range.
pub proof fn lemma_seeded_eases_in_range(s: Seq<Keyframe>, i: usize)
    requires
        i < s.len(),
        s[i as int].ease_a matches Some(a) ==> 0 <= a <= UNIT,
        s[i as int].ease_b matches Some(b) ==> 0 <= b <= UNIT,
    ensures
        eases_in_range(seeded(s, i)),
{
}

proof fn lemma_last_hit_from(handles: Seq<Option<(i64, i64)>>, pos: (i64, i64), n: int, i: int)
    requires
        0 <= i < n <= handles.len(),
        handles[i] == Some(pos),
        forall|j: int|
            i < j < n ==> (#[trigger] handles[j] matches Some(h) ==> !within_radius(h, pos)),
    ensures
        last_hit(handles, pos, n) == Some(i as usize),
    decreases n,
{
    if n - 1 > i {
        lemma_last_hit_from(handles, pos, n - 1, i);
    } else {
        assert(within_radius(pos, pos));
    }
}

/// Pressing exactly on the reported handle of a segment selects that
/// segment, unless a later segment's handle is also within reach (the last
/// hit wins).
pub proof fn lemma_press_on_handle_selects_it(
    handles: Seq<Option<(i64, i64)>>,
    s: Seq<Keyframe>,
    pos: (i64, i64),
    i: int,
)
    requires
        0 <= i < hit_range(handles, s),
        handles[i] == Some(pos),
        forall|j: int|
            i < j < hit_range(handles, s) ==> (#[trigger] handles[j] matches Some(h) ==> !within_radius(
                h,
                pos,
            )),
    ensures
        last_hit(handles, pos, hit_range(handles, s)) == Some(i as usize),
{
    lemma_last_hit_from(handles, pos, hit_range(handles, s), i);
}

/// Committing a session whose segment's keyframe is gone changes neither
/// track.
pub proof fn lemma_commit_of_missing_keyframe_is_noop(
    p: CameraPaths,
    e: EditSession,
    curves: CameraCurves,
)
    requires
        e.segment_index >= track_of(p, curves).len(),
    ensures
        applied_zoom(commit_of(p, e), curves.zoom@) == curves.zoom@,
        applied_rotation(commit_of(p, e), curves.rotation_x@) == curves.rotation_x@,
{
}

} // verus!
