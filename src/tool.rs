use vstd::prelude::*;

use crate::camera_paths::{track_of, CameraPaths};
use crate::command::Command;
use crate::fixed::{frac01, ratio_clamped, UNIT};
use crate::keyframe::{CameraCurves, Keyframe};
use crate::preview::{camera_pose, pose_of, CameraPose};

verus! {

/// Radius of a control handle on screen, in fixed-point pixels.
pub const HANDLE_RADIUS: i64 = 5 * UNIT;

/// A drag in progress on the control handle of one curve segment.
#[derive(Clone, Copy, Debug, PartialEq, Eq, Structural)]
pub struct EditSession {
    pub segment_index: usize,
    pub ease_a: i64,
    pub ease_b: i64,
}

/// The camera editing tool: slider values (fixed point), which of them the
/// user has changed since the last control point, the track on display and
/// the drag in progress, if any.
#[derive(Clone, Copy, Debug, PartialEq, Eq, Structural)]
pub struct CameraTool {
    pub radius: i64,
    pub angle: i64,
    pub angle_dirty: bool,
    pub radius_dirty: bool,
    pub display_line: CameraPaths,
    pub curving_index: Option<EditSession>,
}

/// Number of curve segments of a track: one between each pair of neighbours.
pub open spec fn segment_count(s: Seq<Keyframe>) -> int {
    if s.len() == 0 {
        0
    } else {
        s.len() - 1
    }
}

/// The value a segment eases from: its jump target if it has one.
pub open spec fn start_value(k: Keyframe) -> i64 {
    match k.value_final {
        Some(v) => v,
        None => k.value,
    }
}

/// Where a pointer at fixed-point tick `tick_f` falls between the segment's
/// two keyframe times, clamped to `[0, UNIT]`.
pub open spec fn time_fraction(k0: Keyframe, k1: Keyframe, tick_f: i64) -> int {
    frac01(tick_f - k0.time * UNIT, (k1.time - k0.time) * UNIT)
}

/// Where the value of a pointer in fixed-point lane `lane` (lanes `0..6`
/// standing for values `-3..3`) falls between the segment's start and end
/// values, clamped to `[0, UNIT]`.
pub open spec fn value_fraction(k0: Keyframe, k1: Keyframe, lane: i64) -> int {
    frac01(lane - 3 * UNIT - start_value(k0), k1.value - start_value(k0))
}

/// The session after the pointer moves to `(tick_f, lane)` while segment
/// `e.segment_index` of `s` is being dragged; unchanged when that segment no longer
/// exists.
pub open spec fn dragged(e: EditSession, s: Seq<Keyframe>, tick_f: i64, lane: i64) -> EditSession {
    let i = e.segment_index as int;
    if i + 1 < s.len() {
        EditSession {
            segment_index: e.segment_index,
            ease_a: time_fraction(s[i], s[i + 1], tick_f) as i64,
            ease_b: value_fraction(s[i], s[i + 1], lane) as i64,
        }
    } else {
        e
    }
}

/// Whether `pos` lies strictly within the handle radius of `h`.
pub open spec fn within_radius(h: (i64, i64), pos: (i64, i64)) -> bool {
    (h.0 - pos.0) * (h.0 - pos.0) + (h.1 - pos.1) * (h.1 - pos.1) < HANDLE_RADIUS
        * HANDLE_RADIUS
}

/// The last segment among the first `n` whose handle is within reach of `pos`.
pub open spec fn last_hit(handles: Seq<Option<(i64, i64)>>, pos: (i64, i64), n: int) -> Option<
    usize,
>
    decreases n,
{
    if n <= 0 {
        None
    } else {
        match handles[n - 1] {
            Some(h) if within_radius(h, pos) => Some((n - 1) as usize),
            _ => last_hit(handles, pos, n - 1),
        }
    }
}

/// Number of segments that hit-testing looks at.
pub open spec fn hit_range(handles: Seq<Option<(i64, i64)>>, s: Seq<Keyframe>) -> int {
    if handles.len() < segment_count(s) {
        handles.len() as int
    } else {
        segment_count(s)
    }
}

/// The session that starts on segment `i` of `s`, seeded with its ease.
pub open spec fn seeded(s: Seq<Keyframe>, i: usize) -> EditSession {
    EditSession {
        segment_index: i,
        ease_a: match s[i as int].ease_a {
            Some(a) => a,
            None => (UNIT / 2) as i64,
        },
        ease_b: match s[i as int].ease_b {
            Some(b) => b,
            None => (UNIT / 2) as i64,
        },
    }
}

/// `k` carrying the ease of session `e`.
pub open spec fn with_session_ease(k: Keyframe, e: EditSession) -> Keyframe {
    Keyframe { ease_a: Some(e.ease_a), ease_b: Some(e.ease_b), ..k }
}

/// How segment `i` of `s` is drawn: its two keyframes, the first carrying
/// the live ease when the drag is on this segment, and whether it is the
/// segment being dragged.
pub open spec fn segment_view(s: Seq<Keyframe>, i: int, session: Option<EditSession>) -> (
    Keyframe,
    Keyframe,
    bool,
) {
    match session {
        Some(e) if e.segment_index == i => (with_session_ease(s[i], e), s[i + 1], true),
        _ => (s[i], s[i + 1], false),
    }
}

/// The command that ends session `e` on track `p`.
pub open spec fn commit_of(p: CameraPaths, e: EditSession) -> Command {
    Command::CommitCurveEdit {
        track: p,
        index: e.segment_index,
        ease_a: e.ease_a,
        ease_b: e.ease_b,
    }
}

/// Whether the pointer at `pos` is within reach of handle `h`.
pub fn hits_handle(h: (i64, i64), pos: (i64, i64)) -> (r: bool)
    ensures
        r == within_radius(h, pos),
{
    let dx = h.0 as i128 - pos.0 as i128;
    let dy = h.1 as i128 - pos.1 as i128;
    let lim = HANDLE_RADIUS as i128;
    if dx >= lim || dx <= -lim || dy >= lim || dy <= -lim {
        assert((h.0 - pos.0) * (h.0 - pos.0) + (h.1 - pos.1) * (h.1 - pos.1) >= HANDLE_RADIUS
            * HANDLE_RADIUS) by (nonlinear_arith)
            requires
                (h.0 - pos.0) >= HANDLE_RADIUS || (h.0 - pos.0) <= -HANDLE_RADIUS || (h.1
                    - pos.1) >= HANDLE_RADIUS || (h.1 - pos.1) <= -HANDLE_RADIUS,
                HANDLE_RADIUS == 5_000_000,
        ;
        false
    } else {
        assert(0 <= dx * dx <= 25_000_000_000_000 && 0 <= dy * dy <= 25_000_000_000_000)
            by (nonlinear_arith)
            requires
                -5_000_000 < dx < 5_000_000,
                -5_000_000 < dy < 5_000_000,
        ;
        dx * dx + dy * dy < lim * lim
    }
}

impl Default for CameraTool {
    fn default() -> (r: Self)
        ensures
            r == CameraTool::initial(),
    {
        CameraTool::new()
    }
}

impl CameraTool {
    /// A tool with sliders at zero, nothing changed, the zoom track shown and
    /// no drag in progress.
    pub open spec fn initial() -> CameraTool {
        CameraTool {
            radius: 0,
            angle: 0,
            angle_dirty: false,
            radius_dirty: false,
            display_line: CameraPaths::Zoom,
            curving_index: None,
        }
    }

    pub fn new() -> (r: Self)
        ensures
            r == CameraTool::initial(),
    {
        CameraTool {
            radius: 0,
            angle: 0,
            angle_dirty: false,
            radius_dirty: false,
            display_line: CameraPaths::Zoom,
            curving_index: None,
        }
    }

    /// The track currently shown and edited.
    pub fn current_graph<'a>(&self, chart: &'a CameraCurves) -> (r: &'a Vec<Keyframe>)
        ensures
            r@ == track_of(self.display_line, *chart),
    {
        self.display_line.track(chart)
    }

    /// Follows the pointer during a drag: the dragged segment's ease becomes
    /// where the pointer stands in time and in value, each clamped to
    /// `[0, UNIT]`. Without a drag, or once the segment is gone, nothing
    /// changes.
    pub fn update(&mut self, tick_f: i64, lane: i64, chart: &CameraCurves)
        ensures
            final(self).curving_index == (match old(self).curving_index {
                Some(e) => Some(dragged(e, track_of(old(self).display_line, *chart), tick_f, lane)),
                None => None,
            }),
            final(self).radius == old(self).radius,
            final(self).angle == old(self).angle,
            final(self).radius_dirty == old(self).radius_dirty,
            final(self).angle_dirty == old(self).angle_dirty,
            final(self).display_line == old(self).display_line,
    {
        if let Some(e) = self.curving_index {
            let graph = self.current_graph(chart);
            let i = e.segment_index;
            if i < graph.len() && i + 1 < graph.len() {
                let k0 = graph[i];
                let k1 = graph[i + 1];
                let t0 = k0.time as i128;
                let t1 = k1.time as i128;
                assert(0 <= t0 * 1_000_000 <= 0x1_0000_0000 * 1_000_000) by (nonlinear_arith)
                    requires
                        0 <= t0 < 0x1_0000_0000,
                ;
                assert(-0x1_0000_0000 * 1_000_000 <= (t1 - t0) * 1_000_000
                    <= 0x1_0000_0000 * 1_000_000) by (nonlinear_arith)
                    requires
                        -0x1_0000_0000 <= t1 - t0 <= 0x1_0000_0000,
                ;
                let a = ratio_clamped(
                    tick_f as i128 - t0 * UNIT as i128,
                    (t1 - t0) * UNIT as i128,
                );
                let s: i64 = match k0.value_final {
                    Some(v) => v,
                    None => k0.value,
                };
                let b = ratio_clamped(
                    lane as i128 - 3 * UNIT as i128 - s as i128,
                    k1.value as i128 - s as i128,
                );
                self.curving_index = Some(EditSession { segment_index: i, ease_a: a, ease_b: b });
            }
        }
    }

    /// Starts a drag on the last segment whose handle is within reach of
    /// `pos`. `handles[i]` is where the handle of segment `i` of the current
    /// track is drawn, if it is drawn. Without a hit nothing changes.
    pub fn drag_start(
        &mut self,
        handles: &Vec<Option<(i64, i64)>>,
        pos: (i64, i64),
        chart: &CameraCurves,
    )
        ensures
            final(self).curving_index == (match last_hit(
                handles@,
                pos,
                hit_range(handles@, track_of(old(self).display_line, *chart)),
            ) {
                Some(i) => Some(seeded(track_of(old(self).display_line, *chart), i)),
                None => old(self).curving_index,
            }),
            final(self).radius == old(self).radius,
            final(self).angle == old(self).angle,
            final(self).radius_dirty == old(self).radius_dirty,
            final(self).angle_dirty == old(self).angle_dirty,
            final(self).display_line == old(self).display_line,
    {
        let graph = self.current_graph(chart);
        let ghost s = graph@;
        let n: usize = if graph.len() == 0 {
            0
        } else if handles.len() < graph.len() - 1 {
            handles.len()
        } else {
            graph.len() - 1
        };
        let mut i: usize = 0;
        while i < n
            invariant
                n == hit_range(handles@, s),
                n <= handles@.len(),
                n < s.len() || n == 0,
                i <= n,
                s == track_of(self.display_line, *chart),
                graph@ == s,
                self.curving_index == (match last_hit(handles@, pos, i as int) {
                    Some(j) => Some(seeded(s, j)),
                    None => old(self).curving_index,
                }),
                self.radius == old(self).radius,
                self.angle == old(self).angle,
                self.radius_dirty == old(self).radius_dirty,
                self.angle_dirty == old(self).angle_dirty,
                self.display_line == old(self).display_line,
            decreases n - i,
        {
            if let Some(h) = handles[i] {
                if hits_handle(h, pos) {
                    let k = graph[i];
                    let a: i64 = match k.ease_a {
                        Some(a) => a,
                        None => UNIT / 2,
                    };
                    let b: i64 = match k.ease_b {
                        Some(b) => b,
                        None => UNIT / 2,
                    };
                    self.curving_index = Some(EditSession { segment_index: i, ease_a: a, ease_b: b });
                }
            }
            i = i + 1;
        }
    }

    /// Ends the drag: returns the command that commits the session, if there
    /// was one, and clears the session in every case.
    pub fn drag_end(&mut self) -> (r: Option<Command>)
        ensures
            r == (match old(self).curving_index {
                Some(e) => Some(commit_of(old(self).display_line, e)),
                None => None,
            }),
            *final(self) == (CameraTool { curving_index: None, ..*old(self) }),
    {
        let r = match self.curving_index {
            Some(e) => Some(
                Command::CommitCurveEdit {
                    track: self.display_line,
                    index: e.segment_index,
                    ease_a: e.ease_a,
                    ease_b: e.ease_b,
                },
            ),
            None => None,
        };
        self.curving_index = None;
        r
    }

    /// Shows the live track values on the sliders that the user has not
    /// changed; a changed slider keeps its value.
    pub fn sync_sliders(&mut self, zoom_value: i64, angle_value: i64)
        ensures
            *final(self) == (CameraTool {
                radius: if old(self).radius_dirty {
                    old(self).radius
                } else {
                    zoom_value
                },
                angle: if old(self).angle_dirty {
                    old(self).angle
                } else {
                    angle_value
                },
                ..*old(self)
            }),
    {
        if !self.radius_dirty {
            self.radius = zoom_value;
        }
        if !self.angle_dirty {
            self.angle = angle_value;
        }
    }

    /// Moves the radius slider; moving it to another value marks it changed.
    pub fn set_radius(&mut self, v: i64)
        ensures
            *final(self) == (CameraTool {
                radius: v,
                radius_dirty: old(self).radius_dirty || v != old(self).radius,
                ..*old(self)
            }),
    {
        if v != self.radius {
            self.radius_dirty = true;
        }
        self.radius = v;
    }

    /// Moves the angle slider; moving it to another value marks it changed.
    pub fn set_angle(&mut self, v: i64)
        ensures
            *final(self) == (CameraTool {
                angle: v,
                angle_dirty: old(self).angle_dirty || v != old(self).angle,
                ..*old(self)
            }),
    {
        if v != self.angle {
            self.angle_dirty = true;
        }
        self.angle = v;
    }

    /// Selects the track to show and edit.
    pub fn set_display_line(&mut self, p: CameraPaths)
        ensures
            *final(self) == (CameraTool { display_line: p, ..*old(self) }),
    {
        self.display_line = p;
    }

    /// Returns the command that adds a control point at `time` to each track
    /// whose slider was changed, with the slider's value, and marks both
    /// sliders unchanged.
    pub fn add_control_point(&mut self, time: u32) -> (r: Command)
        ensures
            r == (Command::AddControlPoint {
                time,
                radius: if old(self).radius_dirty {
                    Some(old(self).radius)
                } else {
                    None
                },
                angle: if old(self).angle_dirty {
                    Some(old(self).angle)
                } else {
                    None
                },
            }),
            *final(self) == (CameraTool { radius_dirty: false, angle_dirty: false, ..*old(self) }),
    {
        let radius = if self.radius_dirty {
            Some(self.radius)
        } else {
            None
        };
        let angle = if self.angle_dirty {
            Some(self.angle)
        } else {
            None
        };
        self.radius_dirty = false;
        self.angle_dirty = false;
        Command::AddControlPoint { time, radius, angle }
    }

    /// The preview camera pose for the current slider values.
    pub fn camera(&self) -> (r: CameraPose)
        ensures
            pose_of(self.radius, self.angle, r),
    {
        camera_pose(self.radius, self.angle)
    }

    /// How each segment of the current track is drawn, in order.
    pub fn segment_views(&self, chart: &CameraCurves) -> (r: Vec<(Keyframe, Keyframe, bool)>)
        ensures
            r@.len() == segment_count(track_of(self.display_line, *chart)),
            forall|i: int|
                0 <= i < r@.len() ==> #[trigger] r@[i] == segment_view(
                    track_of(self.display_line, *chart),
                    i,
                    self.curving_index,
                ),
    {
        let graph = self.current_graph(chart);
        let mut r: Vec<(Keyframe, Keyframe, bool)> = Vec::new();
        let mut i: usize = 0;
        while i < graph.len() && i + 1 < graph.len()
            invariant
                graph@ == track_of(self.display_line, *chart),
                i == r@.len(),
                i <= segment_count(graph@),
                forall|j: int|
                    0 <= j < r@.len() ==> #[trigger] r@[j] == segment_view(
                        graph@,
                        j,
                        self.curving_index,
                    ),
            decreases graph@.len() - i,
        {
            let k0 = graph[i];
            let k1 = graph[i + 1];
            let v = match self.curving_index {
                Some(e) if e.segment_index == i => (
                    Keyframe { ease_a: Some(e.ease_a), ease_b: Some(e.ease_b), ..k0 },
                    k1,
                    true,
                ),
                _ => (k0, k1, false),
            };
            r.push(v);
            i = i + 1;
        }
        r
    }

    /// The dragged segment's two keyframes, both carrying the live ease, while
    /// a drag is on a segment of the current track.
    pub fn dragged_curve(&self, chart: &CameraCurves) -> (r: Option<(Keyframe, Keyframe)>)
        ensures
            r == (match self.curving_index {
                Some(e) => if e.segment_index + 1 < track_of(self.display_line, *chart).len() {
                    Some(
                        (
                            with_session_ease(
                                track_of(self.display_line, *chart)[e.segment_index as int],
                                e,
                            ),
                            with_session_ease(
                                track_of(self.display_line, *chart)[e.segment_index + 1],
                                e,
                            ),
                        ),
                    )
                } else {
                    None
                },
                None => None,
            }),
    {
        let graph = self.current_graph(chart);
        match self.curving_index {
            Some(e) => {
                let i = e.segment_index;
                if i < graph.len() && i + 1 < graph.len() {
                    let k0 = graph[i];
                    let k1 = graph[i + 1];
                    Some(
                        (
                            Keyframe { ease_a: Some(e.ease_a), ease_b: Some(e.ease_b), ..k0 },
                            Keyframe { ease_a: Some(e.ease_a), ease_b: Some(e.ease_b), ..k1 },
                        ),
                    )
                } else {
                    None
                }
            },
            None => None,
        }
    }
}

} // verus!
