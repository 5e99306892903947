use vstd::prelude::*;
use crate::geometry::{Point, inside, is_inside};

verus! {

/// Status value with which the tracker marks a point that it found in the second frame.
pub const FOUND: u8 = 1;

/// What the pyramidal tracker reports for a list of starting points: where each one
/// went in the second frame, and whether it was found there.
pub struct TrackerOutput {
    pub positions: Vec<Point>,
    pub status: Vec<u8>,
}

/// Index-aligned correspondences: position `i` of the first list was followed to
/// position `i` of the second.
pub type FlowPair = (Vec<Point>, Vec<Point>);

/// Correspondence `i` survives: the tracker found it, and both its start and its
/// end lie inside the frame.
pub open spec fn survives(
    src: Seq<Point>,
    dst: Seq<Point>,
    status: Seq<u8>,
    width: int,
    height: int,
    i: int,
) -> bool {
    &&& status[i] == FOUND
    &&& inside(src[i], width, height)
    &&& inside(dst[i], width, height)
}

/// The surviving correspondences among the first `n`, in their order.
pub open spec fn surviving_pairs(
    src: Seq<Point>,
    dst: Seq<Point>,
    status: Seq<u8>,
    width: int,
    height: int,
    n: nat,
) -> Seq<(Point, Point)>
    decreases n,
{
    if n == 0 {
        seq![]
    } else {
        let rest = surviving_pairs(src, dst, status, width, height, (n - 1) as nat);
        if survives(src, dst, status, width, height, n - 1) {
            rest.push((src[n - 1], dst[n - 1]))
        } else {
            rest
        }
    }
}

/// The filtered flow, split into the starting points and the end points.
pub open spec fn split_flow(pairs: Seq<(Point, Point)>) -> (Seq<Point>, Seq<Point>) {
    (pairs.map_values(|q: (Point, Point)| q.0), pairs.map_values(|q: (Point, Point)| q.1))
}

/// The tracker's report can be read for every status entry: one start and one end each.
pub open spec fn readable(src: Seq<Point>, dst: Seq<Point>, status: Seq<u8>) -> bool {
    status.len() <= src.len() && status.len() <= dst.len()
}

/// What filtering makes of a tracker report: `None` where an entry cannot be read.
pub open spec fn filtered_flow(
    src: Seq<Point>,
    dst: Seq<Point>,
    status: Seq<u8>,
    width: int,
    height: int,
) -> Option<(Seq<Point>, Seq<Point>)> {
    if readable(src, dst, status) {
        Some(split_flow(surviving_pairs(src, dst, status, width, height, status.len())))
    } else {
        None
    }
}

/// Every surviving correspondence lies inside the frame at both ends.
pub proof fn lemma_surviving_inside(
    src: Seq<Point>,
    dst: Seq<Point>,
    status: Seq<u8>,
    width: int,
    height: int,
    n: nat,
)
    ensures
        forall|k: int|
            0 <= k < surviving_pairs(src, dst, status, width, height, n).len() ==> {
                let q = #[trigger] surviving_pairs(src, dst, status, width, height, n)[k];
                inside(q.0, width, height) && inside(q.1, width, height)
            },
    decreases n,
{
    if n > 0 {
        lemma_surviving_inside(src, dst, status, width, height, (n - 1) as nat);
        let rest = surviving_pairs(src, dst, status, width, height, (n - 1) as nat);
        let all = surviving_pairs(src, dst, status, width, height, n);
        assert forall|k: int| 0 <= k < all.len() implies inside(all[k].0, width, height) && inside(
            all[k].1,
            width,
            height,
        ) by {
            if k < rest.len() {
                assert(all[k] == rest[k]);
            }
        }
    }
}

/// Keeps the correspondences that the tracker found and whose both ends lie in
/// `[0, width) x [0, height)`, in their order; `None` where the report is shorter
/// than its status list.
pub fn filter_flow(
    src: &Vec<Point>,
    report: &TrackerOutput,
    width: i32,
    height: i32,
) -> (r: Option<FlowPair>)
    ensures
        match r {
            Some(p) => filtered_flow(src@, report.positions@, report.status@, width as int, height as int)
                == Some((p.0@, p.1@)),
            None => filtered_flow(src@, report.positions@, report.status@, width as int, height as int)
                is None,
        },
{
    let status = &report.status;
    let dst = &report.positions;
    if status.len() > src.len() || status.len() > dst.len() {
        return None;
    }
    let ghost w = width as int;
    let ghost h = height as int;
    let mut pts1: Vec<Point> = Vec::new();
    let mut pts2: Vec<Point> = Vec::new();
    let mut i: usize = 0;
    while i < status.len()
        invariant
            i <= status@.len(),
            w == width as int,
            h == height as int,
            status@.len() <= src@.len(),
            status@.len() <= dst@.len(),
            (pts1@, pts2@) == split_flow(surviving_pairs(src@, dst@, status@, w, h, i as nat)),
        decreases status@.len() - i,
    {
        let a = src[i];
        let b = dst[i];
        let ghost prev = surviving_pairs(src@, dst@, status@, w, h, i as nat);
        let ghost next = surviving_pairs(src@, dst@, status@, w, h, (i + 1) as nat);
        if status[i] == FOUND && is_inside(a, width, height) && is_inside(b, width, height) {
            proof {
                assert(survives(src@, dst@, status@, w, h, i as int));
                assert(next == prev.push((a, b)));
            }
            pts1.push(a);
            pts2.push(b);
            assert(split_flow(next).0 =~= pts1@);
            assert(split_flow(next).1 =~= pts2@);
        } else {
            assert(next == prev);
        }
        i = i + 1;
    }
    Some((pts1, pts2))
}

} // verus!
