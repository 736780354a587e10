use vstd::prelude::*;

use crate::error::DecoError;
use crate::mix::Mix;
use crate::units::{Depth, Time};
use crate::water::Water;

verus! {

/// A point of a dive plan.
#[derive(Clone, Copy, Debug, PartialEq, Eq, Structural)]
pub struct Point {
    /// Time since the start of the dive.
    pub time: Time,
    /// Depth at this point.
    pub depth: Depth,
    /// Gas breathed from this point to the next.
    pub mix: Mix,
}

impl Point {
    /// A point at `time` and `depth` breathing `mix`; refused if the time or the depth is
    /// negative.
    pub fn new(time: Time, depth: Depth, mix: Mix) -> (r: Result<Point, DecoError>)
        ensures
            match r {
                Ok(p) => time.secs >= 0 && depth.mm >= 0 && p == (Point { time, depth, mix }),
                Err(e) => (time.secs < 0 || depth.mm < 0) && e == DecoError::InvalidParameter,
            },
    {
        if time.secs < 0 {
            return Err(DecoError::InvalidParameter);
        }
        if depth.mm < 0 {
            return Err(DecoError::InvalidParameter);
        }
        Ok(Point { time, depth, mix })
    }
}

/// A leg of a dive plan as the diver enters it.
#[derive(Clone, Copy, Debug, PartialEq, Eq, Structural)]
pub struct Segment {
    /// How long the leg lasts.
    pub duration: Time,
    /// Depth at the end of the leg, reached at a constant rate.
    pub end_depth: Depth,
    /// Gas breathed on the leg.
    pub mix: Mix,
}

/// Sum of the durations of the first `k` segments, in seconds.
pub open spec fn elapsed(segments: Seq<Segment>, k: int) -> int
    decreases k,
{
    if k <= 0 {
        0
    } else {
        elapsed(segments, k - 1) + segments[k - 1].duration.secs
    }
}

/// The points of a plan: a start at the surface at time zero, then the end of each segment.
pub open spec fn profile_points(segments: Seq<Segment>, points: Seq<Point>) -> bool {
    &&& points.len() == segments.len() + 1
    &&& points[0] == (Point {
        time: Time { secs: 0 },
        depth: Depth { mm: 0 },
        mix: segments[0].mix,
    })
    &&& forall|k: int|
        0 <= k < segments.len() ==> #[trigger] points[k + 1] == (Point {
            time: Time { secs: elapsed(segments, k + 1) as i64 },
            depth: segments[k].end_depth,
            mix: segments[k].mix,
        })
}

/// A dive plan: the water and the points of the dive.
#[derive(Debug)]
pub struct Profile {
    /// The water of the dive.
    pub water: Water,
    /// The points of the dive, in time order.
    pub points: Vec<Point>,
}

impl Profile {
    /// The plan through `segments`, starting at the surface; refused when there is no segment.
    pub fn new(water: Water, segments: Vec<Segment>) -> (r: Result<Profile, DecoError>)
        requires
            forall|k: int|
                0 <= k <= segments@.len() ==> i64::MIN <= #[trigger] elapsed(segments@, k)
                    <= i64::MAX,
        ensures
            match r {
                Ok(p) => segments@.len() > 0 && p.water == water && profile_points(
                    segments@,
                    p.points@,
                ),
                Err(e) => segments@.len() == 0 && e == DecoError::InvalidParameter,
            },
    {
        if segments.len() == 0 {
            return Err(DecoError::InvalidParameter);
        }
        let mut points: Vec<Point> = Vec::new();
        points.push(Point { time: Time { secs: 0 }, depth: Depth { mm: 0 }, mix: segments[0].mix });
        let mut last: i64 = 0;
        let mut i: usize = 0;
        while i < segments.len()
            invariant
                0 <= i <= segments@.len(),
                segments@.len() > 0,
                forall|k: int|
                    0 <= k <= segments@.len() ==> i64::MIN <= #[trigger] elapsed(segments@, k)
                        <= i64::MAX,
                last == elapsed(segments@, i as int),
                points@.len() == i + 1,
                points@[0] == (Point {
                    time: Time { secs: 0 },
                    depth: Depth { mm: 0 },
                    mix: segments@[0].mix,
                }),
                forall|k: int|
                    0 <= k < i ==> #[trigger] points@[k + 1] == (Point {
                        time: Time { secs: elapsed(segments@, k + 1) as i64 },
                        depth: segments@[k].end_depth,
                        mix: segments@[k].mix,
                    }),
            decreases segments@.len() - i,
        {
            let segment = segments[i];
            assert(elapsed(segments@, i + 1) == last + segment.duration.secs);
            assert(i64::MIN <= elapsed(segments@, i + 1) <= i64::MAX);
            last = last + segment.duration.secs;
            let point = Point { time: Time { secs: last }, depth: segment.end_depth, mix: segment.mix };
            points.push(point);
            i = i + 1;
        }
        Ok(Profile { water, points })
    }
}

} // verus!
