use vstd::prelude::*;

use crate::fixed::UNIT;

verus! {

/// One anchor of a camera parameter curve.
///
/// `value` and `value_final` are fixed-point values (see `UNIT`); `ease_a` and
/// `ease_b` are fixed-point fractions in `[0, UNIT]` shaping the segment that
/// starts here. An absent ease parameter stands for one half.
#[derive(Clone, Copy, Debug, PartialEq)]
pub struct Keyframe {
    pub time: u32,
    pub value: i64,
    pub value_final: Option<i64>,
    pub ease_a: Option<i64>,
    pub ease_b: Option<i64>,
}

/// The two camera parameter tracks of a chart.
#[derive(Clone, Debug, PartialEq)]
pub struct CameraCurves {
    pub zoom: Vec<Keyframe>,
    pub rotation_x: Vec<Keyframe>,
}

/// The track invariant: no two keyframes share a tick and times increase.
pub open spec fn times_increasing(s: Seq<Keyframe>) -> bool {
    forall|i: int, j: int| 0 <= i < j < s.len() ==> s[i].time < s[j].time
}

/// The weaker order that tolerates keyframes sharing a tick.
pub open spec fn times_ordered(s: Seq<Keyframe>) -> bool {
    forall|i: int, j: int| 0 <= i < j < s.len() ==> s[i].time <= s[j].time
}

/// Whether some keyframe of `s` sits at tick `t`.
pub open spec fn has_time(s: Seq<Keyframe>, t: u32) -> bool {
    exists|i: int| 0 <= i < s.len() && s[i].time == t
}

/// The position just after the last keyframe of `s` whose time is at most `t`.
pub open spec fn upper_bound(s: Seq<Keyframe>, t: u32) -> nat
    decreases s.len(),
{
    if s.len() == 0 {
        0
    } else if s.last().time <= t {
        s.len()
    } else {
        upper_bound(s.drop_last(), t)
    }
}

/// `s` with `k` placed where a stable sort by time would put it when appended.
pub open spec fn with_keyframe(s: Seq<Keyframe>, k: Keyframe) -> Seq<Keyframe> {
    s.insert(upper_bound(s, k.time) as int, k)
}

/// `s` sorted by time, stably: taken in order, each keyframe goes after
/// every earlier one whose time is at most its own, so keyframes sharing a
/// tick keep their relative order.
pub open spec fn sorted_by_time(s: Seq<Keyframe>) -> Seq<Keyframe>
    decreases s.len(),
{
    if s.len() == 0 {
        s
    } else {
        with_keyframe(sorted_by_time(s.drop_last()), s.last())
    }
}

/// A keyframe created by adding a control point: no jump, default ease.
pub open spec fn control_point(time: u32, value: i64) -> Keyframe {
    Keyframe {
        time,
        value,
        value_final: None,
        ease_a: Some((UNIT / 2) as i64),
        ease_b: Some((UNIT / 2) as i64),
    }
}

/// `s` with the ease of the keyframe at `i` set to `(a, b)`; unchanged when
/// there is no keyframe at `i`.
pub open spec fn with_ease(s: Seq<Keyframe>, i: int, a: i64, b: i64) -> Seq<Keyframe> {
    if 0 <= i < s.len() {
        s.update(i, Keyframe { ease_a: Some(a), ease_b: Some(b), ..s[i] })
    } else {
        s
    }
}

pub proof fn lemma_upper_bound_le(s: Seq<Keyframe>, t: u32)
    ensures
        upper_bound(s, t) <= s.len(),
        forall|j: int| upper_bound(s, t) <= j < s.len() ==> s[j].time > t,
    decreases s.len(),
{
    if s.len() > 0 && s.last().time > t {
        let p = s.drop_last();
        lemma_upper_bound_le(p, t);
        assert forall|j: int| upper_bound(s, t) <= j < s.len() implies s[j].time > t by {
            if j < p.len() {
                assert(p[j] == s[j]);
            }
        }
    }
}

/// In an ordered track everything before the upper bound is at most `t`.
pub proof fn lemma_upper_bound_split(s: Seq<Keyframe>, t: u32)
    requires
        times_ordered(s),
    ensures
        upper_bound(s, t) <= s.len(),
        forall|j: int| 0 <= j < upper_bound(s, t) ==> s[j].time <= t,
        forall|j: int| upper_bound(s, t) <= j < s.len() ==> s[j].time > t,
    decreases s.len(),
{
    lemma_upper_bound_le(s, t);
    if s.len() > 0 && s.last().time > t {
        let p = s.drop_last();
        assert(times_ordered(p));
        lemma_upper_bound_split(p, t);
        assert forall|j: int| 0 <= j < upper_bound(s, t) implies s[j].time <= t by {
            assert(p[j] == s[j]);
        }
    } else if s.len() > 0 {
        assert forall|j: int| 0 <= j < upper_bound(s, t) implies s[j].time <= t by {
            assert(s[j].time <= s[s.len() - 1].time);
        }
    }
}

/// Sorting keeps the length, and its result is ordered by time.
pub proof fn lemma_sorted_by_time_ordered(s: Seq<Keyframe>)
    ensures
        sorted_by_time(s).len() == s.len(),
        times_ordered(sorted_by_time(s)),
    decreases s.len(),
{
    if s.len() > 0 {
        let p = sorted_by_time(s.drop_last());
        lemma_sorted_by_time_ordered(s.drop_last());
        lemma_insert_ordered(p, s.last());
    }
}

/// Inserting into an ordered track at the upper bound keeps it ordered.
pub proof fn lemma_insert_ordered(s: Seq<Keyframe>, k: Keyframe)
    requires
        times_ordered(s),
    ensures
        times_ordered(with_keyframe(s, k)),
        with_keyframe(s, k).len() == s.len() + 1,
{
    lemma_upper_bound_split(s, k.time);
    let p = upper_bound(s, k.time) as int;
    let r = with_keyframe(s, k);
    assert forall|i: int, j: int| 0 <= i < j < r.len() implies r[i].time <= r[j].time by {
        if j < p {
        } else if i < p {
        } else if i == p {
        } else {
            assert(s[i - 1].time <= s[j - 1].time);
        }
    }
}

/// Sorting an ordered track leaves it as it is.
pub proof fn lemma_sorted_by_time_of_ordered(s: Seq<Keyframe>)
    requires
        times_ordered(s),
    ensures
        sorted_by_time(s) == s,
    decreases s.len(),
{
    if s.len() > 0 {
        let p = s.drop_last();
        assert(times_ordered(p));
        lemma_sorted_by_time_of_ordered(p);
        if p.len() > 0 {
            assert(p.last().time <= s.last().time);
        }
        assert(upper_bound(p, s.last().time) == p.len());
        assert(p.insert(p.len() as int, s.last()) =~= s);
    }
}

/// Sorts the track by time, stably.
pub fn sort_by_time(track: &mut Vec<Keyframe>)
    ensures
        final(track)@ == sorted_by_time(old(track)@),
{
    let mut r: Vec<Keyframe> = Vec::new();
    let mut i: usize = 0;
    assert(track@.take(0) =~= Seq::<Keyframe>::empty());
    while i < track.len()
        invariant
            i <= track@.len(),
            r@ == sorted_by_time(track@.take(i as int)),
        decreases track@.len() - i,
    {
        assert(track@.take(i + 1).drop_last() =~= track@.take(i as int));
        assert(track@.take(i + 1).last() == track@[i as int]);
        insert_keyframe(&mut r, track[i]);
        i = i + 1;
    }
    assert(track@.take(i as int) =~= track@);
    *track = r;
}

/// Returns a fresh control-point keyframe.
pub fn new_control_point(time: u32, value: i64) -> (r: Keyframe)
    ensures
        r == control_point(time, value),
{
    Keyframe { time, value, value_final: None, ease_a: Some(UNIT / 2), ease_b: Some(UNIT / 2) }
}

/// Index at which `with_keyframe` places a keyframe of time `t`.
pub fn upper_bound_index(track: &Vec<Keyframe>, t: u32) -> (r: usize)
    ensures
        r == upper_bound(track@, t),
{
    let mut i: usize = track.len();
    assert(track@.take(i as int) =~= track@);
    while i > 0 && track[i - 1].time > t
        invariant
            i <= track@.len(),
            upper_bound(track@, t) == upper_bound(track@.take(i as int), t),
        decreases i,
    {
        assert(track@.take(i as int).drop_last() =~= track@.take(i - 1));
        i = i - 1;
    }
    if i > 0 {
        assert(track@.take(i as int).last() == track@[i - 1]);
    }
    i
}

/// Adds `k` to the track, after every keyframe whose time is at most its own.
pub fn insert_keyframe(track: &mut Vec<Keyframe>, k: Keyframe)
    ensures
        final(track)@ == with_keyframe(old(track)@, k),
{
    let p = upper_bound_index(track, k.time);
    proof {
        lemma_upper_bound_le(track@, k.time);
    }
    track.insert(p, k);
}

/// Sets the ease of the keyframe at `i`, if there is one.
pub fn set_ease(track: &mut Vec<Keyframe>, i: usize, a: i64, b: i64)
    ensures
        final(track)@ == with_ease(old(track)@, i as int, a, b),
{
    if i < track.len() {
        let mut k = track[i];
        k.ease_a = Some(a);
        k.ease_b = Some(b);
        track.set(i, k);
    }
}

} // verus!
