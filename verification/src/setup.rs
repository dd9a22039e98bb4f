//! Column-assignment glue: which column a parsed note belongs to, the
//! partition of a beatmap into per-column note lists, the lanes built from
//! them, and which skin each column uses.

use vstd::prelude::*;

use crate::lane::Lane;
use crate::lane::LaneSkin;
use crate::lane::TimedObject;
use crate::lane::object_time;
use crate::lane::sorted_by_time;

verus! {

/// The playfield is 512 units wide; a note's column is its x position's
/// share of `lane_count` equal divisions, clamped to the last column.
pub open spec fn x_to_lane_spec(x: int, lane_count: int) -> int {
    let raw = (x * lane_count) / 512;
    if raw < lane_count - 1 {
        raw
    } else {
        lane_count - 1
    }
}

/// Maps a note's playfield x position to its column index.
pub fn x_to_lane(x: u32, lane_count: u32) -> (lane: usize)
    requires
        1 <= lane_count,
    ensures
        lane == x_to_lane_spec(x as int, lane_count as int),
        lane < lane_count,
{
    proof {
        vstd::arithmetic::mul::lemma_mul_upper_bound(
            x as int,
            0xffff_ffff,
            lane_count as int,
            0xffff_ffff,
        );
    }
    let raw: u64 = ((x as u64) * (lane_count as u64)) / 512;
    let last: u64 = (lane_count - 1) as u64;
    let clamped: u64 = if raw < last {
        raw
    } else {
        last
    };
    clamped as usize
}

/// A note as the beatmap loader hands it over, before column assignment:
/// its playfield x position, its start time, and for a hold its end time.
#[derive(Copy, Clone, Debug, PartialEq, Eq, Structural)]
pub struct BeatmapNote {
    pub x: u32,
    pub time: u32,
    pub end_time: u32,
    pub is_hold: bool,
}

/// The lane object a note becomes once assigned to `column`.
pub open spec fn note_to_object_spec(n: BeatmapNote, column: int) -> TimedObject {
    if n.is_hold {
        TimedObject::Hold { column: column as u32, time: n.time, end_time: n.end_time }
    } else {
        TimedObject::Tap { column: column as u32, time: n.time }
    }
}

/// The notes that fall into one column, in input order, as lane objects.
pub open spec fn lane_objects_spec(
    notes: Seq<BeatmapNote>,
    lane: int,
    lane_count: int,
) -> Seq<TimedObject>
    decreases notes.len(),
{
    if notes.len() == 0 {
        Seq::empty()
    } else {
        let rest = lane_objects_spec(notes.drop_last(), lane, lane_count);
        if x_to_lane_spec(notes.last().x as int, lane_count) == lane {
            rest.push(note_to_object_spec(notes.last(), lane))
        } else {
            rest
        }
    }
}

/// Ascending by start time, as a beatmap's object list is.
pub open spec fn notes_sorted_by_time(notes: Seq<BeatmapNote>) -> bool {
    forall|i: int, j: int| 0 <= i < j < notes.len() ==> notes[i].time <= notes[j].time
}

/// Every object of a column keeps a start time drawn from the notes, so a
/// bound on the note times bounds the column's object times.
pub proof fn lemma_lane_objects_time_bound(
    notes: Seq<BeatmapNote>,
    lane: int,
    lane_count: int,
    bound: int,
)
    requires
        forall|i: int| 0 <= i < notes.len() ==> notes[i].time <= bound,
    ensures
        forall|k: int|
            0 <= k < lane_objects_spec(notes, lane, lane_count).len() ==> object_time(
                lane_objects_spec(notes, lane, lane_count)[k],
            ) <= bound,
    decreases notes.len(),
{
    if notes.len() > 0 {
        lemma_lane_objects_time_bound(notes.drop_last(), lane, lane_count, bound);
        let rest = lane_objects_spec(notes.drop_last(), lane, lane_count);
        let whole = lane_objects_spec(notes, lane, lane_count);
        if x_to_lane_spec(notes.last().x as int, lane_count) == lane {
            assert(whole == rest.push(note_to_object_spec(notes.last(), lane)));
            assert forall|k: int| 0 <= k < whole.len() implies object_time(whole[k]) <= bound by {
                if k < rest.len() {
                    assert(whole[k] == rest[k]);
                } else {
                    assert(whole[k] == note_to_object_spec(notes.last(), lane));
                    assert(notes[notes.len() - 1].time <= bound);
                }
            }
        } else {
            assert(whole == rest);
        }
    }
}

/// Partitioning keeps order, so a time-sorted beatmap yields time-sorted
/// columns.
pub proof fn lemma_lane_objects_sorted(notes: Seq<BeatmapNote>, lane: int, lane_count: int)
    requires
        notes_sorted_by_time(notes),
    ensures
        sorted_by_time(lane_objects_spec(notes, lane, lane_count)),
    decreases notes.len(),
{
    if notes.len() > 0 {
        let prefix = notes.drop_last();
        assert forall|i: int, j: int|
            0 <= i < j < prefix.len() implies prefix[i].time <= prefix[j].time by {
            assert(prefix[i] == notes[i]);
            assert(prefix[j] == notes[j]);
        }
        lemma_lane_objects_sorted(prefix, lane, lane_count);
        if x_to_lane_spec(notes.last().x as int, lane_count) == lane {
            assert forall|i: int| 0 <= i < prefix.len() implies prefix[i].time
                <= notes.last().time by {
                assert(prefix[i] == notes[i]);
            }
            lemma_lane_objects_time_bound(prefix, lane, lane_count, notes.last().time as int);
            let rest = lane_objects_spec(prefix, lane, lane_count);
            let whole = rest.push(note_to_object_spec(notes.last(), lane));
            assert forall|i: int, j: int|
                0 <= i < j < whole.len() implies object_time(whole[i]) <= object_time(
                whole[j],
            ) by {
                if j < rest.len() {
                    assert(whole[i] == rest[i]);
                    assert(whole[j] == rest[j]);
                } else {
                    assert(whole[i] == rest[i]);
                    assert(whole[j] == note_to_object_spec(notes.last(), lane));
                }
            }
        }
    }
}

/// Splits a beatmap's notes into one time-sorted object list per column,
/// each note going to the column its x position maps to.
#[verifier::loop_isolation(false)]
pub fn build_lane_maps(notes: &Vec<BeatmapNote>, lane_count: u32) -> (maps: Vec<Vec<TimedObject>>)
    requires
        1 <= lane_count,
    ensures
        maps@.len() == lane_count,
        forall|l: int|
            0 <= l < lane_count ==> maps@[l]@ == lane_objects_spec(
                notes@,
                l,
                lane_count as int,
            ),
{
    let mut maps: Vec<Vec<TimedObject>> = Vec::new();
    let mut l: usize = 0;
    while l < lane_count as usize
        invariant
            l <= lane_count,
            maps@.len() == l,
            forall|k: int|
                0 <= k < l ==> maps@[k]@ == lane_objects_spec(notes@, k, lane_count as int),
        decreases lane_count - l,
    {
        let mut column: Vec<TimedObject> = Vec::new();
        let mut i: usize = 0;
        while i < notes.len()
            invariant
                i <= notes@.len(),
                column@ == lane_objects_spec(notes@.take(i as int), l as int, lane_count as int),
            decreases notes@.len() - i,
        {
            let n = notes[i];
            if x_to_lane(n.x, lane_count) == l {
                if n.is_hold {
                    column.push(
                        TimedObject::Hold {
                            column: l as u32,
                            time: n.time,
                            end_time: n.end_time,
                        },
                    );
                } else {
                    column.push(TimedObject::Tap { column: l as u32, time: n.time });
                }
            }
            i = i + 1;
            proof {
                assert(notes@.take(i as int).drop_last() == notes@.take(i - 1));
                assert(notes@.take(i as int).last() == notes@[i - 1]);
            }
        }
        proof {
            assert(notes@.take(notes@.len() as int) == notes@);
        }
        maps.push(column);
        l = l + 1;
    }
    maps
}

/// Builds one fresh lane per column list, all at the given difficulty.
#[verifier::loop_isolation(false)]
pub fn new_lanes(lane_maps: &Vec<Vec<TimedObject>>, od_tenths: i32) -> (lanes: Vec<Lane>)
    ensures
        lanes@.len() == lane_maps@.len(),
        forall|l: int|
            0 <= l < lane_maps@.len() ==> {
                &&& (sorted_by_time(lane_maps@[l]@) ==> lanes@[l].wf())
                &&& lanes@[l].map@ == lane_maps@[l]@
                &&& lanes@[l].lowest_index == 0
                &&& !lanes@[l].is_pressed
                &&& lanes@[l].od_tenths == od_tenths
            },
{
    let mut lanes: Vec<Lane> = Vec::new();
    let mut l: usize = 0;
    while l < lane_maps.len()
        invariant
            l <= lane_maps@.len(),
            lanes@.len() == l,
            forall|k: int|
                0 <= k < l ==> {
                    &&& (sorted_by_time(lane_maps@[k]@) ==> lanes@[k].wf())
                    &&& lanes@[k].map@ == lane_maps@[k]@
                    &&& lanes@[k].lowest_index == 0
                    &&& !lanes@[k].is_pressed
                    &&& lanes@[k].od_tenths == od_tenths
                },
        decreases lane_maps@.len() - l,
    {
        lanes.push(Lane::new(&lane_maps[l], od_tenths));
        l = l + 1;
    }
    lanes
}

/// Which skin the column at `index` uses among `count` columns: the left
/// half alternates starting from the first skin, the right half alternates
/// so the pattern mirrors, and with an odd count the middle column gets
/// the special skin.
pub open spec fn lane_skin_spec(index: int, count: int) -> LaneSkin {
    if count % 2 == 1 && index == count / 2 {
        LaneSkin::LaneS
    } else if index < count / 2 {
        if index % 2 == 0 {
            LaneSkin::Lane1
        } else {
            LaneSkin::Lane2
        }
    } else {
        if index % 2 == 0 {
            LaneSkin::Lane2
        } else {
            LaneSkin::Lane1
        }
    }
}

/// Picks the skin for one column.
pub fn lane_skin(index: usize, count: usize) -> (skin: LaneSkin)
    requires
        index < count,
    ensures
        skin == lane_skin_spec(index as int, count as int),
{
    if count % 2 == 1 && index == count / 2 {
        LaneSkin::LaneS
    } else if index < count / 2 {
        if index % 2 == 0 {
            LaneSkin::Lane1
        } else {
            LaneSkin::Lane2
        }
    } else {
        if index % 2 == 0 {
            LaneSkin::Lane2
        } else {
            LaneSkin::Lane1
        }
    }
}

} // verus!
