use vstd::prelude::*;
use crate::geometry::{Point, inside};
use crate::pose::{MIN_CORRESPONDENCES, MIN_INLIERS, PoseFit, recover_rotation, rotation_outcome};
use crate::raster::{GrayFrame, frame_samples, frame_len, empty_frame};
use crate::tracking::{FOUND, FlowPair, TrackerOutput, filter_flow, filtered_flow, lemma_surviving_inside, surviving_pairs};

verus! {

/// Correspondences between two items, or `None` where none could be computed.
pub type OpticalFlowPair = Option<FlowPair>;

/// The abstract state of an item: its features, the samples of its image, and the
/// frame size it was detected at.
pub struct ItemModel {
    pub features: Seq<Point>,
    pub samples: Seq<u8>,
    pub width: int,
    pub height: int,
}

/// One frame's detected features together with its image, ready to be tracked
/// against the item of another frame.
pub struct ItemOpenCV {
    features: Vec<Point>,
    img: GrayFrame,
    size: (i32, i32),
}

/// An item of any estimator backend; correspondences are computed only between
/// items of the same backend.
pub enum EstimatorItem {
    ItemOpenCV(ItemOpenCV),
}

impl View for ItemOpenCV {
    type V = ItemModel;

    closed spec fn view(&self) -> ItemModel {
        ItemModel {
            features: self.features@,
            samples: frame_samples(self.img),
            width: self.size.0 as int,
            height: self.size.1 as int,
        }
    }
}

impl View for EstimatorItem {
    type V = ItemModel;

    open spec fn view(&self) -> ItemModel {
        match self {
            EstimatorItem::ItemOpenCV(i) => i@,
        }
    }
}

/// The item was detected at a positive size and its image holds a full raster of
/// that size, so that it can be read as `width` by `height` samples.
pub open spec fn usable(m: ItemModel) -> bool {
    &&& m.width > 0
    &&& m.height > 0
    &&& m.samples.len() >= m.width * m.height
}

impl Default for ItemOpenCV {
    /// An item of no features over an empty frame, at size 0 by 0.
    fn default() -> (r: Self)
        ensures
            r@ == (ItemModel { features: Seq::empty(), samples: Seq::empty(), width: 0, height: 0 }),
    {
        let r = ItemOpenCV { features: Vec::new(), img: empty_frame(), size: (0, 0) };
        assert(frame_samples(r.img) =~= Seq::<u8>::empty());
        r
    }
}

impl Clone for ItemOpenCV {
    /// The same features and size, sharing the same image.
    fn clone(&self) -> (r: Self)
        ensures
            r@ == self@,
    {
        let features = self.features.clone();
        assert(features@ =~= self.features@);
        ItemOpenCV { features, img: self.img.clone(), size: self.size }
    }
}

/// Both items are usable, and the second at the first one's size.
pub open spec fn trackable(a: ItemModel, b: ItemModel) -> bool {
    &&& usable(a)
    &&& usable(b)
    &&& b.samples.len() >= a.width * a.height
}

/// The tracker's report as plain sequences.
pub open spec fn report_model(report: Option<&TrackerOutput>) -> Option<(Seq<Point>, Seq<u8>)> {
    match report {
        Some(t) => Some((t.positions@, t.status@)),
        None => None,
    }
}

/// The correspondences from `a` to `b`, given what the tracker reported for the
/// features of `a`: none where the items cannot be tracked or the tracker failed.
pub open spec fn matched_flow(a: ItemModel, b: ItemModel, report: Option<(Seq<Point>, Seq<u8>)>) -> Option<
    (Seq<Point>, Seq<Point>),
> {
    if !trackable(a, b) {
        None
    } else {
        match report {
            None => None,
            Some(t) => filtered_flow(a.features, t.0, t.1, a.width, a.height),
        }
    }
}

/// The rotation read-out for the pair `a`, `b`: the cells of the recovered rotation
/// matrix, or none at any failure.
pub open spec fn pose_outcome(
    a: ItemModel,
    b: ItemModel,
    report: Option<(Seq<Point>, Seq<u8>)>,
    fit: Option<PoseFit>,
) -> Option<Seq<(i32, i32)>> {
    match matched_flow(a, b, report) {
        None => None,
        Some(p) => match rotation_outcome(p.0.len() as int, fit) {
            Ok(c) => Some(c),
            Err(_) => None,
        },
    }
}

/// The item once its image is released: features and size stay.
pub open spec fn cleaned(m: ItemModel) -> ItemModel {
    ItemModel { samples: Seq::empty(), ..m }
}

/// The features of an item that detection produced: the detector's points in its
/// order, or none where detection failed.
pub open spec fn detected_features(detected: Option<Vec<Point>>) -> Seq<Point> {
    match detected {
        Some(v) => v@,
        None => Seq::empty(),
    }
}

impl ItemOpenCV {
    /// Builds the item of a `width` by `height` frame from the detector's outcome on
    /// `img`: its points, or `None` where detection failed.
    pub fn detect_features(
        _timestamp_us: i64,
        img: GrayFrame,
        width: u32,
        height: u32,
        detected: Option<Vec<Point>>,
    ) -> (r: Self)
        ensures
            r@ == (ItemModel {
                features: detected_features(detected),
                samples: frame_samples(img),
                width: width as i32 as int,
                height: height as i32 as int,
            }),
    {
        let features = match detected {
            Some(v) => v,
            None => Vec::new(),
        };
        ItemOpenCV { features, img, size: (width as i32, height as i32) }
    }

    /// The detected features, in the detector's order.
    pub fn get_features(&self) -> (r: &Vec<Point>)
        ensures
            r@ == self@.features,
    {
        &self.features
    }

    /// The frame size the item was detected at: width, then height.
    pub fn size(&self) -> (r: (i32, i32))
        ensures
            r.0 as int == self@.width && r.1 as int == self@.height,
    {
        self.size
    }

    /// The item's image, for the tracker to read.
    pub fn image(&self) -> (r: &GrayFrame)
        ensures
            frame_samples(*r) == self@.samples,
    {
        &self.img
    }

    /// Whether correspondences from this item to `next` can be computed at all.
    pub fn can_track_to(&self, next: &EstimatorItem) -> (r: bool)
        ensures
            r == trackable(self@, next@),
    {
        match next {
            EstimatorItem::ItemOpenCV(n) => {
                let (w, h) = self.size;
                let (nw, nh) = n.size;
                if w <= 0 || h <= 0 || nw <= 0 || nh <= 0 {
                    return false;
                }
                proof {
                    assert(0 < w as int * h as int <= 0x7fff_ffff * 0x7fff_ffff) by (nonlinear_arith)
                        requires 0 < w <= 0x7fff_ffff, 0 < h <= 0x7fff_ffff;
                    assert(0 < nw as int * nh as int <= 0x7fff_ffff * 0x7fff_ffff) by (nonlinear_arith)
                        requires 0 < nw <= 0x7fff_ffff, 0 < nh <= 0x7fff_ffff;
                }
                let area: u64 = w as u64 * h as u64;
                let next_area: u64 = nw as u64 * nh as u64;
                let own = frame_len(&self.img) as u64;
                let other = frame_len(&n.img) as u64;
                own >= area && other >= next_area && other >= area
            },
        }
    }

    fn get_matched_features(&self, next: &EstimatorItem, report: Option<&TrackerOutput>) -> (r: OpticalFlowPair)
        ensures
            match r {
                Some(p) => matched_flow(self@, next@, report_model(report)) == Some((p.0@, p.1@)),
                None => matched_flow(self@, next@, report_model(report)) is None,
            },
            r matches Some(p) ==> {
                &&& p.0@.len() == p.1@.len()
                &&& forall|i: int| 0 <= i < p.0@.len() ==> inside(#[trigger] p.0@[i], self@.width, self@.height)
                &&& forall|i: int| 0 <= i < p.1@.len() ==> inside(#[trigger] p.1@[i], self@.width, self@.height)
            },
    {
        proof {
            lemma_flow_aligned_and_inside(self@, next@, report_model(report));
        }
        if !self.can_track_to(next) {
            return None;
        }
        match report {
            None => None,
            Some(t) => filter_flow(&self.features, t, self.size.0, self.size.1),
        }
    }

    /// The correspondences from this item to `to`, given the tracker's report for
    /// this item's features (`None` where the tracker failed).
    pub fn optical_flow_to(&self, to: &EstimatorItem, report: Option<&TrackerOutput>) -> (r: OpticalFlowPair)
        ensures
            match r {
                Some(p) => matched_flow(self@, to@, report_model(report)) == Some((p.0@, p.1@)),
                None => matched_flow(self@, to@, report_model(report)) is None,
            },
            r matches Some(p) ==> {
                &&& p.0@.len() == p.1@.len()
                &&& forall|i: int| 0 <= i < p.0@.len() ==> inside(#[trigger] p.0@[i], self@.width, self@.height)
                &&& forall|i: int| 0 <= i < p.1@.len() ==> inside(#[trigger] p.1@[i], self@.width, self@.height)
            },
    {
        self.get_matched_features(to, report)
    }

    /// The cells from which to read the rotation between this item and `next`, given
    /// the tracker's report and the outcome of fitting a pose to the undistorted
    /// correspondences; `None` at any failure.
    pub fn estimate_pose(
        &self,
        next: &EstimatorItem,
        report: Option<&TrackerOutput>,
        fit: Option<PoseFit>,
    ) -> (r: Option<Vec<(i32, i32)>>)
        ensures
            match r {
                Some(c) => pose_outcome(self@, next@, report_model(report), fit) == Some(c@),
                None => pose_outcome(self@, next@, report_model(report), fit) is None,
            },
    {
        match self.get_matched_features(next, report) {
            None => None,
            Some(p) => match recover_rotation(p.0.len(), fit) {
                Ok(c) => Some(c),
                Err(_) => None,
            },
        }
    }

    /// Releases the image; features and size stay.
    pub fn cleanup(&mut self)
        ensures
            final(self)@ == cleaned(old(self)@),
    {
        self.img = empty_frame();
        assert(frame_samples(self.img) =~= Seq::<u8>::empty());
    }
}

/// Matched correspondences are index-aligned, and every start and end point lies in
/// `[0, width) x [0, height)` of the first item.
pub proof fn lemma_flow_aligned_and_inside(a: ItemModel, b: ItemModel, report: Option<(Seq<Point>, Seq<u8>)>)
    ensures
        matched_flow(a, b, report) matches Some(p) ==> {
            &&& p.0.len() == p.1.len()
            &&& forall|i: int| 0 <= i < p.0.len() ==> inside(#[trigger] p.0[i], a.width, a.height)
            &&& forall|i: int| 0 <= i < p.1.len() ==> inside(#[trigger] p.1[i], a.width, a.height)
        },
{
    if let (true, Some(t)) = (trackable(a, b), report) {
        let n = t.1.len();
        lemma_surviving_inside(a.features, t.0, t.1, a.width, a.height, n);
        let pairs = surviving_pairs(a.features, t.0, t.1, a.width, a.height, n);
        assert(forall|k: int| 0 <= k < pairs.len() ==> inside(#[trigger] pairs[k].0, a.width, a.height)
            && inside(pairs[k].1, a.width, a.height));
    }
}

/// Releasing the image twice leaves the item as releasing it once does.
pub proof fn lemma_cleanup_idempotent(m: ItemModel)
    ensures
        cleaned(cleaned(m)) == cleaned(m),
        cleaned(m).features == m.features,
        cleaned(m).width == m.width && cleaned(m).height == m.height,
{
}

/// An item whose image was released gives no correspondences and no rotation, on
/// either side of the pair.
pub proof fn lemma_cleaned_item_gives_nothing(
    a: ItemModel,
    b: ItemModel,
    report: Option<(Seq<Point>, Seq<u8>)>,
    fit: Option<PoseFit>,
)
    ensures
        matched_flow(cleaned(a), b, report) is None,
        matched_flow(a, cleaned(b), report) is None,
        pose_outcome(cleaned(a), b, report, fit) is None,
        pose_outcome(a, cleaned(b), report, fit) is None,
{
    lemma_usable_has_samples(a);
    lemma_usable_has_samples(b);
    lemma_usable_has_samples(cleaned(a));
    lemma_usable_has_samples(cleaned(b));
}

proof fn lemma_usable_has_samples(m: ItemModel)
    ensures
        usable(m) ==> m.samples.len() > 0,
{
    if usable(m) {
        assert(m.width * m.height > 0) by (nonlinear_arith)
            requires
                m.width > 0,
                m.height > 0,
        ;
    }
}

/// Fewer than `MIN_CORRESPONDENCES` surviving correspondences give no rotation,
/// whatever the fit reports.
pub proof fn lemma_sparse_flow_gives_no_pose(
    a: ItemModel,
    b: ItemModel,
    report: Option<(Seq<Point>, Seq<u8>)>,
    fit: Option<PoseFit>,
)
    requires
        matched_flow(a, b, report) matches Some(p) && p.0.len() < MIN_CORRESPONDENCES,
    ensures
        pose_outcome(a, b, report, fit) is None,
{
}

/// An accepted rotation rests on index-aligned correspondences, at least as many as
/// `MIN_INLIERS`.
pub proof fn lemma_accepted_pose_has_enough_pairs(
    a: ItemModel,
    b: ItemModel,
    report: Option<(Seq<Point>, Seq<u8>)>,
    fit: Option<PoseFit>,
)
    ensures
        pose_outcome(a, b, report, fit) is Some ==> (matched_flow(a, b, report) matches Some(p) && p.0.len()
            == p.1.len() && p.0.len() >= MIN_INLIERS),
{
    lemma_flow_aligned_and_inside(a, b, report);
}

/// Where the tracker lost every point, the flow is empty and no rotation comes out.
pub proof fn lemma_lost_tracks_give_empty_flow(
    a: ItemModel,
    b: ItemModel,
    positions: Seq<Point>,
    status: Seq<u8>,
    fit: Option<PoseFit>,
)
    requires
        trackable(a, b),
        status.len() <= a.features.len(),
        status.len() <= positions.len(),
        forall|i: int| 0 <= i < status.len() ==> #[trigger] status[i] != FOUND,
    ensures
        matched_flow(a, b, Some((positions, status))) == Some((Seq::<Point>::empty(), Seq::<Point>::empty())),
        pose_outcome(a, b, Some((positions, status)), fit) is None,
{
    lemma_lost_prefix_empty(a.features, positions, status, a.width, a.height, status.len());
    let pairs = surviving_pairs(a.features, positions, status, a.width, a.height, status.len());
    assert(pairs.map_values(|q: (Point, Point)| q.0) =~= Seq::<Point>::empty());
    assert(pairs.map_values(|q: (Point, Point)| q.1) =~= Seq::<Point>::empty());
}

proof fn lemma_lost_prefix_empty(
    src: Seq<Point>,
    dst: Seq<Point>,
    status: Seq<u8>,
    width: int,
    height: int,
    n: nat,
)
    requires
        n <= status.len(),
        forall|i: int| 0 <= i < status.len() ==> #[trigger] status[i] != FOUND,
    ensures
        surviving_pairs(src, dst, status, width, height, n).len() == 0,
    decreases n,
{
    if n > 0 {
        lemma_lost_prefix_empty(src, dst, status, width, height, (n - 1) as nat);
    }
}

} // verus!
