//! One playable column: its time-sorted notes, the monotonic resolution
//! cursor, press-edge detection, and the hit-window classifier that turns a
//! timing offset into a judgment.

use vstd::prelude::*;
use vstd::math::abs;

use crate::hit_score::HitResult;

verus! {

/// A note in one column, produced by the beatmap loader. Times are
/// milliseconds from song start; a `Hold` spans `time..end_time` and is
/// drawn as a bar, tracked for expiry, but never resolved by a press.
#[derive(Copy, Clone, Debug, PartialEq, Eq, Structural)]
pub enum TimedObject {
    Tap { column: u32, time: u32 },
    Hold { column: u32, time: u32, end_time: u32 },
}

/// Which key/note image set a column uses.
#[derive(Copy, Clone, Debug, PartialEq, Eq, Structural)]
pub enum LaneSkin {
    Lane1,
    Lane2,
    LaneS,
}

/// When an object starts, in milliseconds from song start.
pub open spec fn object_time(o: TimedObject) -> int {
    match o {
        TimedObject::Tap { time, .. } => time as int,
        TimedObject::Hold { time, .. } => time as int,
    }
}

/// The instant after which an object can no longer be reached by the
/// player: the start of a tap, the end of a hold.
pub open spec fn expiry_time(o: TimedObject) -> int {
    match o {
        TimedObject::Tap { time, .. } => time as int,
        TimedObject::Hold { end_time, .. } => end_time as int,
    }
}

/// Ascending by start time; established at construction, never re-sorted.
pub open spec fn sorted_by_time(s: Seq<TimedObject>) -> bool {
    forall|i: int, j: int|
        0 <= i < j < s.len() ==> object_time(s[i]) <= object_time(s[j])
}

/// A note a player can no longer reach counts as missed: an object has
/// expired once its expiry time lies more than this many milliseconds
/// behind the song position.
pub const MISS_WINDOW_MS: u32 = 200;

/// The judgment for an absolute timing offset of `distance` milliseconds at
/// overall difficulty `od_tenths` (difficulty in tenths: 50 stands for an
/// overall difficulty of 5). The hit windows shrink linearly as difficulty
/// grows:
///
/// - `distance < 50 + 30 * (5 - od) / 5` is `Hit300`,
/// - else `distance < 100 + 40 * (5 - od) / 5` is `Hit100`,
/// - else `distance < 150 + 50 * (5 - od) / 5` is `Hit50`,
/// - else `Miss`,
///
/// where `od = od_tenths / 10`. Multiplying each comparison by 5 makes it
/// exact over integers, which is the form written here. The schedule is
/// meant for difficulties on the 0 to 10 scale; values outside it are
/// accepted and simply produce wider or negative windows.
pub open spec fn classify_spec(od_tenths: int, distance: int) -> HitResult {
    if 5 * distance < 400 - 3 * od_tenths {
        HitResult::Hit300
    } else if 5 * distance < 700 - 4 * od_tenths {
        HitResult::Hit100
    } else if 5 * distance < 1000 - 5 * od_tenths {
        HitResult::Hit50
    } else {
        HitResult::Miss
    }
}

/// Judgments ordered by accuracy, `Miss` lowest. `NoHit` is no judgment at
/// all and sits at the bottom with `Miss`.
pub open spec fn quality(j: HitResult) -> int {
    match j {
        HitResult::NoHit => 0,
        HitResult::Miss => 0,
        HitResult::Hit50 => 1,
        HitResult::Hit100 => 2,
        HitResult::Hit300 => 3,
    }
}

/// The classifier is total over the four judged tiers - it never answers
/// `NoHit` - and its quality never improves as the offset grows: for one
/// difficulty, a larger offset never gets a better tier.
pub proof fn lemma_classify_tier_monotone(od_tenths: int, d1: int, d2: int)
    requires
        d1 <= d2,
    ensures
        classify_spec(od_tenths, d1) != HitResult::NoHit,
        classify_spec(od_tenths, d2) != HitResult::NoHit,
        quality(classify_spec(od_tenths, d2)) <= quality(classify_spec(od_tenths, d1)),
{
}

/// Maps an absolute timing offset in milliseconds to its judgment tier for
/// the given difficulty (in tenths).
pub fn distance_to_hit_result(od_tenths: i32, distance: u32) -> (result: HitResult)
    ensures
        result == classify_spec(od_tenths as int, distance as int),
        result != HitResult::NoHit,
{
    let d5: i64 = 5 * (distance as i64);
    let od: i64 = od_tenths as i64;
    if d5 < 400 - 3 * od {
        HitResult::Hit300
    } else if d5 < 700 - 4 * od {
        HitResult::Hit100
    } else if d5 < 1000 - 5 * od {
        HitResult::Hit50
    } else {
        HitResult::Miss
    }
}

/// One playable column. Owned by the session for its whole lifetime; no
/// two updates ever run concurrently on the same lane.
pub struct Lane {
    /// True while the bound input is held; used only to detect the
    /// down-edge, never the held state itself.
    pub is_pressed: bool,
    /// This column's notes, sorted ascending by start time.
    pub map: Vec<TimedObject>,
    /// The resolution cursor: index of the oldest object not yet resolved
    /// (hit or expired). Monotonically non-decreasing.
    pub lowest_index: usize,
    /// Overall difficulty in tenths, fixed per lane for the session.
    pub od_tenths: i32,
}

/// The nearest-note resolution scan, from index `j` with `best` the
/// smallest offset seen so far. Taps are scanned in order; offsets first
/// shrink toward the nearest note and then grow past it, so the scan stops
/// at the first offset that is not smaller than the running best and
/// classifies the best. Holds are passed over. The result is whether the
/// cursor advances (by one) and the judgment: a classified `Miss` leaves
/// the note pending, and a scan that runs out of taps without ever seeing
/// an increase is a `Miss` as well.
pub open spec fn resolve_spec(
    objects: Seq<TimedObject>,
    od_tenths: int,
    position: int,
    j: int,
    best: Option<int>,
) -> (bool, HitResult)
    decreases objects.len() - j,
{
    if j < 0 || j >= objects.len() {
        (false, HitResult::Miss)
    } else {
        match objects[j] {
            TimedObject::Tap { time, .. } => {
                let distance = abs(time - position) as int;
                match best {
                    None => resolve_spec(objects, od_tenths, position, j + 1, Some(distance)),
                    Some(b) => if distance < b {
                        resolve_spec(objects, od_tenths, position, j + 1, Some(distance))
                    } else {
                        let result = classify_spec(od_tenths, b);
                        (result != HitResult::Miss, result)
                    },
                }
            },
            TimedObject::Hold { .. } => resolve_spec(objects, od_tenths, position, j + 1, best),
        }
    }
}

/// Whether the object at the cursor has expired at this song position:
/// its expiry time lies more than the miss window behind the position.
pub open spec fn expired_at_cursor(lane: Lane, position: int) -> bool {
    &&& lane.lowest_index < lane.map@.len()
    &&& expiry_time(lane.map@[lane.lowest_index as int]) < position - MISS_WINDOW_MS
}

/// Press handling, after the expiry sweep found nothing: a down-edge
/// (input newly held) latches `is_pressed` and runs nearest-note
/// resolution; a release clears `is_pressed`; a key merely still held does
/// nothing - holding never re-triggers a judgment.
pub open spec fn press_spec(lane: Lane, position: int, down_now: bool) -> (Lane, HitResult) {
    if down_now && !lane.is_pressed {
        let ar = resolve_spec(
            lane.map@,
            lane.od_tenths as int,
            position,
            lane.lowest_index as int,
            None,
        );
        let pressed = Lane {
            is_pressed: true,
            map: lane.map,
            lowest_index: if ar.0 {
                (lane.lowest_index + 1) as usize
            } else {
                lane.lowest_index
            },
            od_tenths: lane.od_tenths,
        };
        (pressed, ar.1)
    } else if !down_now {
        (
            Lane {
                is_pressed: false,
                map: lane.map,
                lowest_index: lane.lowest_index,
                od_tenths: lane.od_tenths,
            },
            HitResult::NoHit,
        )
    } else {
        (lane, HitResult::NoHit)
    }
}

/// One update tick: if the object at the cursor has expired, the cursor
/// advances past it and the tick reports that one `Miss` immediately -
/// at most one expired note per tick, and no press handling on such a
/// tick. Otherwise the sweep stops (the notes are time-sorted, so nothing
/// after the cursor can be expired either) and the press is handled.
pub open spec fn update_spec(lane: Lane, position: int, down_now: bool) -> (Lane, HitResult) {
    if expired_at_cursor(lane, position) {
        (
            Lane {
                is_pressed: lane.is_pressed,
                map: lane.map,
                lowest_index: (lane.lowest_index + 1) as usize,
                od_tenths: lane.od_tenths,
            },
            HitResult::Miss,
        )
    } else {
        press_spec(lane, position, down_now)
    }
}

/// A lane with zero pending objects is untouched by the expiry sweep: the
/// tick is exactly press handling.
pub proof fn lemma_empty_lane_sweep(lane: Lane, position: int, down_now: bool)
    requires
        lane.lowest_index == lane.map@.len(),
    ensures
        !expired_at_cursor(lane, position),
        update_spec(lane, position, down_now) == press_spec(lane, position, down_now),
{
}

impl Lane {
    /// Cursor in bounds and notes sorted; established by `new`, preserved
    /// by every update.
    pub open spec fn wf(self) -> bool {
        &&& self.lowest_index <= self.map@.len()
        &&& sorted_by_time(self.map@)
    }

    /// A fresh lane over one column's notes: cursor at the start, input
    /// not held. The notes are expected time-sorted, as the beatmap hands
    /// them over; the lane is well-formed exactly when they are.
    pub fn new(lane_map: &Vec<TimedObject>, od_tenths: i32) -> (lane: Lane)
        ensures
            sorted_by_time(lane_map@) ==> lane.wf(),
            lane.map@ == lane_map@,
            lane.lowest_index == 0,
            !lane.is_pressed,
            lane.od_tenths == od_tenths,
    {
        let mut map: Vec<TimedObject> = Vec::new();
        let mut i: usize = 0;
        while i < lane_map.len()
            invariant
                i <= lane_map@.len(),
                map@ == lane_map@.take(i as int),
            decreases lane_map@.len() - i,
        {
            map.push(lane_map[i]);
            i = i + 1;
            proof {
                assert(lane_map@.take(i as int) == lane_map@.take(i - 1).push(lane_map@[i - 1]));
            }
        }
        proof {
            assert(lane_map@.take(lane_map@.len() as int) == lane_map@);
        }
        Lane { is_pressed: false, map, lowest_index: 0, od_tenths }
    }

    /// One tick at the given song position, with `down_now` the sampled
    /// "is this lane's binding currently held". Reports at most one
    /// judgment; the cursor and the press latch are the only state
    /// changes, and the cursor never moves backwards nor skips a note:
    /// it advances by at most one per tick, and only when that note was
    /// classified.
    #[verifier::loop_isolation(false)]
    pub fn update(&mut self, position: u32, down_now: bool) -> (result: HitResult)
        ensures
            ({
                let sr = update_spec(*old(self), position as int, down_now);
                *final(self) == sr.0 && result == sr.1
            }),
            old(self).lowest_index <= final(self).lowest_index <= old(self).lowest_index + 1,
            final(self).map@ == old(self).map@,
            final(self).od_tenths == old(self).od_tenths,
            old(self).wf() ==> final(self).wf(),
    {
        // Expiry sweep: the notes are time-sorted, so only the object at
        // the cursor can be the oldest expired one; report it and stop.
        if self.lowest_index < self.map.len() {
            let expired = match self.map[self.lowest_index] {
                TimedObject::Tap { time, .. } => (time as i64) < (position as i64)
                    - (MISS_WINDOW_MS as i64),
                TimedObject::Hold { end_time, .. } => (end_time as i64) < (position as i64)
                    - (MISS_WINDOW_MS as i64),
            };
            if expired {
                self.lowest_index = self.lowest_index + 1;
                return HitResult::Miss;
            }
        }

        // Press-edge detection and nearest-note resolution.
        if down_now {
            if !self.is_pressed {
                self.is_pressed = true;
                return self.resolve_press(position);
            }
        } else {
            self.is_pressed = false;
        }
        HitResult::NoHit
    }

    /// Nearest-note resolution for a fresh down-edge: scans taps from the
    /// cursor forward and stops at the first offset that is not smaller
    /// than the best seen, classifying the best. A `Miss` classification
    /// leaves the note pending (the cursor stays); anything better consumes
    /// it (the cursor advances by one). A scan that runs out of taps
    /// without seeing an increase is a `Miss` that leaves the cursor alone.
    #[verifier::loop_isolation(false)]
    pub fn resolve_press(&mut self, position: u32) -> (result: HitResult)
        ensures
            ({
                let ar = resolve_spec(
                    old(self).map@,
                    old(self).od_tenths as int,
                    position as int,
                    old(self).lowest_index as int,
                    None,
                );
                result == ar.1 && final(self).lowest_index == if ar.0 {
                    old(self).lowest_index + 1
                } else {
                    old(self).lowest_index as int
                }
            }),
            final(self).is_pressed == old(self).is_pressed,
            final(self).map == old(self).map,
            final(self).od_tenths == old(self).od_tenths,
            old(self).lowest_index <= final(self).lowest_index,
            old(self).wf() ==> final(self).wf(),
    {
        let mut last_distance: Option<u32> = None;
        let mut i: usize = self.lowest_index;
        while i < self.map.len()
            invariant
                *self == *old(self),
                self.lowest_index <= i,
                resolve_spec(
                    self.map@,
                    self.od_tenths as int,
                    position as int,
                    self.lowest_index as int,
                    None,
                ) == resolve_spec(
                    self.map@,
                    self.od_tenths as int,
                    position as int,
                    i as int,
                    match last_distance {
                        None => None,
                        Some(d) => Some(d as int),
                    },
                ),
            decreases self.map@.len() - i,
        {
            match self.map[i] {
                TimedObject::Tap { time, .. } => {
                    let diff: i64 = (time as i64) - (position as i64);
                    let distance: u32 = (if diff < 0 {
                        -diff
                    } else {
                        diff
                    }) as u32;
                    match last_distance {
                        Some(last) => {
                            if distance < last {
                                last_distance = Some(distance);
                            } else {
                                let result = distance_to_hit_result(self.od_tenths, last);
                                match result {
                                    HitResult::Miss => {
                                        return result;
                                    },
                                    _ => {
                                        self.lowest_index = self.lowest_index + 1;
                                        return result;
                                    },
                                }
                            }
                        },
                        None => {
                            last_distance = Some(distance);
                        },
                    }
                },
                TimedObject::Hold { .. } => {},
            }
            i = i + 1;
        }
        HitResult::Miss
    }

    /// The draw-time view: the not-yet-resolved notes, `map[lowest_index..]`
    /// in order, for the renderer to project on screen.
    pub fn pending(&self) -> (v: Vec<TimedObject>)
        ensures
            self.lowest_index <= self.map@.len() ==> v@ == self.map@.skip(
                self.lowest_index as int,
            ),
            self.lowest_index > self.map@.len() ==> v@ == Seq::<TimedObject>::empty(),
    {
        let mut v: Vec<TimedObject> = Vec::new();
        if self.lowest_index > self.map.len() {
            return v;
        }
        let mut i: usize = self.lowest_index;
        while i < self.map.len()
            invariant
                self.lowest_index <= i <= self.map@.len(),
                v@ == self.map@.subrange(self.lowest_index as int, i as int),
            decreases self.map@.len() - i,
        {
            v.push(self.map[i]);
            i = i + 1;
            proof {
                assert(self.map@.subrange(self.lowest_index as int, i as int) == self.map@.subrange(
                    self.lowest_index as int,
                    i - 1,
                ).push(self.map@[i - 1]));
            }
        }
        v
    }
}

} // verus!
