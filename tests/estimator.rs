use flowrot::geometry::{is_inside, Point, SUBPIXEL};
use flowrot::init;
use flowrot::item::{EstimatorItem, ItemOpenCV};
use flowrot::pose::{
    recover_rotation, rotation_cells, EstimateError, MatrixHeader, PoseFit, MIN_CORRESPONDENCES,
    MIN_INLIERS, TYPE_F64_C1,
};
use flowrot::raster::GrayFrame;
use flowrot::tracking::{filter_flow, TrackerOutput, FOUND};

const W: u32 = 64;
const H: u32 = 48;

fn px(x: i64, y: i64) -> Point {
    Point { x: x * SUBPIXEL, y: y * SUBPIXEL }
}

fn frame(fill: u8) -> GrayFrame {
    GrayFrame::new(W, H, vec![fill; (W * H) as usize]).unwrap()
}

fn grid(n: i64) -> Vec<Point> {
    (0..n).map(|i| px(2 + (i % 10) * 5, 2 + (i / 10) * 5)).collect()
}

fn item(points: Vec<Point>) -> ItemOpenCV {
    ItemOpenCV::detect_features(0, frame(128), W, H, Some(points))
}

fn all_found(points: &[Point]) -> TrackerOutput {
    TrackerOutput { positions: points.to_vec(), status: vec![FOUND; points.len()] }
}

fn good_fit(inliers: i32) -> PoseFit {
    PoseFit { inliers, rotation: MatrixHeader { rows: 3, cols: 3, typ: TYPE_F64_C1 } }
}

fn row_major() -> Vec<(i32, i32)> {
    vec![(0, 0), (0, 1), (0, 2), (1, 0), (1, 1), (1, 2), (2, 0), (2, 1), (2, 2)]
}

#[test]
fn init_succeeds() {
    assert_eq!(init(), Ok(()));
}

#[test]
fn inside_bounds_are_half_open() {
    assert!(is_inside(Point { x: 0, y: 0 }, 10, 5));
    assert!(is_inside(Point { x: 10 * SUBPIXEL - 1, y: 5 * SUBPIXEL - 1 }, 10, 5));
    assert!(!is_inside(Point { x: 10 * SUBPIXEL, y: 0 }, 10, 5));
    assert!(!is_inside(Point { x: 0, y: 5 * SUBPIXEL }, 10, 5));
    assert!(!is_inside(Point { x: -1, y: 0 }, 10, 5));
    assert!(!is_inside(Point { x: 0, y: -1 }, 10, 5));
}

#[test]
fn filter_keeps_found_points_inside_both_frames() {
    let src = vec![px(1, 1), px(2, 2), px(3, 3), px(-1, 4), px(5, 5), px(6, 6)];
    let report = TrackerOutput {
        positions: vec![px(1, 2), px(2, 3), px(10, 3), px(4, 4), px(5, 6), px(7, 7)],
        status: vec![FOUND, 0, FOUND, FOUND, FOUND, FOUND],
    };
    let (a, b) = filter_flow(&src, &report, 10, 8).unwrap();
    assert_eq!(a, vec![px(1, 1), px(5, 5), px(6, 6)]);
    assert_eq!(b, vec![px(1, 2), px(5, 6), px(7, 7)]);
}

#[test]
fn filter_reads_only_status_entries() {
    let src = vec![px(1, 1), px(2, 2), px(3, 3)];
    let report = TrackerOutput { positions: vec![px(1, 1), px(2, 2), px(3, 3)], status: vec![FOUND, FOUND] };
    let (a, b) = filter_flow(&src, &report, 10, 10).unwrap();
    assert_eq!(a, vec![px(1, 1), px(2, 2)]);
    assert_eq!(b, vec![px(1, 1), px(2, 2)]);
}

#[test]
fn filter_refuses_short_report() {
    let src = vec![px(1, 1)];
    let report = TrackerOutput { positions: vec![], status: vec![FOUND] };
    assert_eq!(filter_flow(&src, &report, 10, 10), None);
    let report = TrackerOutput { positions: vec![px(1, 1), px(2, 2)], status: vec![FOUND, FOUND] };
    assert_eq!(filter_flow(&src, &report, 10, 10), None);
}

#[test]
fn flow_pairs_are_aligned_and_inside() {
    let a = item(vec![px(0, 0), px(63, 47), px(30, 20), px(10, 10)]);
    let b = EstimatorItem::ItemOpenCV(item(vec![]));
    let report = TrackerOutput {
        positions: vec![px(1, 1), px(64, 47), Point { x: 30 * SUBPIXEL + 7, y: 20 * SUBPIXEL + 3 }, px(10, 48)],
        status: vec![FOUND, FOUND, FOUND, FOUND],
    };
    let (p1, p2) = a.optical_flow_to(&b, Some(&report)).unwrap();
    assert_eq!(p1.len(), p2.len());
    assert_eq!(p1, vec![px(0, 0), px(30, 20)]);
    for p in p1.iter().chain(p2.iter()) {
        assert!(p.x >= 0 && p.x < W as i64 * SUBPIXEL && p.y >= 0 && p.y < H as i64 * SUBPIXEL);
    }
}

#[test]
fn tracker_failure_gives_no_flow() {
    let a = item(grid(10));
    let b = EstimatorItem::ItemOpenCV(item(grid(10)));
    assert!(a.can_track_to(&b));
    assert_eq!(a.optical_flow_to(&b, None), None);
    assert_eq!(a.estimate_pose(&b, None, Some(good_fit(40))), None);
}

#[test]
fn features_read_twice_are_identical() {
    let pts = grid(12);
    let a = item(pts.clone());
    let first = a.get_features().clone();
    let second = a.get_features().clone();
    assert_eq!(first, pts);
    assert_eq!(first, second);
}

#[test]
fn cleanup_twice_matches_once() {
    let pts = grid(12);
    let mut once = item(pts.clone());
    let mut twice = item(pts.clone());
    once.cleanup();
    twice.cleanup();
    twice.cleanup();
    assert_eq!(once.get_features(), &pts);
    assert_eq!(twice.get_features(), &pts);
    assert!(once.image().is_empty());
    assert!(twice.image().is_empty());
    assert_eq!(once.image().dimensions(), (0, 0));
    assert_eq!(once.image().dimensions(), twice.image().dimensions());
    let other = EstimatorItem::ItemOpenCV(item(pts.clone()));
    assert_eq!(once.can_track_to(&other), twice.can_track_to(&other));
}

#[test]
fn rotation_cells_row_major_for_double_3x3() {
    let m = MatrixHeader { rows: 3, cols: 3, typ: TYPE_F64_C1 };
    assert_eq!(rotation_cells(&m), Ok(row_major()));
}

#[test]
fn rotation_cells_refuse_other_matrices() {
    for m in [
        MatrixHeader { rows: 3, cols: 3, typ: 5 },
        MatrixHeader { rows: 3, cols: 4, typ: TYPE_F64_C1 },
        MatrixHeader { rows: 2, cols: 3, typ: TYPE_F64_C1 },
        MatrixHeader { rows: 0, cols: 0, typ: TYPE_F64_C1 },
    ] {
        assert_eq!(rotation_cells(&m), Err(EstimateError::InvalidMatrixType));
    }
}

#[test]
fn recover_rotation_outcomes() {
    assert_eq!(recover_rotation(7, Some(good_fit(30))), Err(EstimateError::TooFewCorrespondences));
    assert_eq!(recover_rotation(30, None), Err(EstimateError::FitFailure));
    assert_eq!(recover_rotation(30, Some(good_fit(19))), Err(EstimateError::InsufficientInliers));
    let bad = PoseFit { inliers: 25, rotation: MatrixHeader { rows: 3, cols: 3, typ: 5 } };
    assert_eq!(recover_rotation(30, Some(bad)), Err(EstimateError::InvalidMatrixType));
    assert_eq!(recover_rotation(30, Some(good_fit(20))), Ok(row_major()));
    assert_eq!(recover_rotation(MIN_INLIERS as usize, Some(good_fit(MIN_INLIERS))), Ok(row_major()));
    assert_eq!(recover_rotation(MIN_CORRESPONDENCES, Some(good_fit(MIN_INLIERS))), Err(EstimateError::FitFailure));
    assert_eq!(recover_rotation(10, Some(good_fit(30))), Err(EstimateError::FitFailure));
}

#[test]
fn identical_frames_give_rotation_read_out() {
    let pts = grid(30);
    let a = item(pts.clone());
    let b = EstimatorItem::ItemOpenCV(item(pts.clone()));
    let report = all_found(&pts);
    let (p1, p2) = a.optical_flow_to(&b, Some(&report)).unwrap();
    assert_eq!(p1, pts);
    assert_eq!(p2, pts);
    assert_eq!(a.estimate_pose(&b, Some(&report), Some(good_fit(30))), Some(row_major()));
}

#[test]
fn no_overlap_gives_empty_flow_and_no_pose() {
    let pts = grid(30);
    let a = item(pts.clone());
    let b = EstimatorItem::ItemOpenCV(ItemOpenCV::detect_features(1, frame(0), W, H, Some(vec![])));
    let report = TrackerOutput { positions: pts.clone(), status: vec![0; pts.len()] };
    assert_eq!(a.optical_flow_to(&b, Some(&report)), Some((vec![], vec![])));
    assert_eq!(a.estimate_pose(&b, Some(&report), None), None);
    assert_eq!(a.estimate_pose(&b, Some(&report), Some(good_fit(30))), None);
}

#[test]
fn too_few_inliers_give_no_pose() {
    let pts = grid(30);
    let a = item(pts.clone());
    let b = EstimatorItem::ItemOpenCV(item(pts.clone()));
    let report = all_found(&pts);
    assert_eq!(a.estimate_pose(&b, Some(&report), Some(good_fit(19))), None);
    assert_eq!(a.estimate_pose(&b, Some(&report), Some(good_fit(20))), Some(row_major()));
}

#[test]
fn sparse_flow_gives_no_pose() {
    let pts = grid(7);
    let a = item(pts.clone());
    let b = EstimatorItem::ItemOpenCV(item(pts.clone()));
    let report = all_found(&pts);
    assert_eq!(a.optical_flow_to(&b, Some(&report)).unwrap().0.len(), 7);
    assert_eq!(a.estimate_pose(&b, Some(&report), Some(good_fit(100))), None);
}

#[test]
fn cleaned_item_gives_no_pose_on_either_side() {
    let pts = grid(30);
    let report = all_found(&pts);
    let mut a = item(pts.clone());
    let b = item(pts.clone());
    a.cleanup();
    let b_wrapped = EstimatorItem::ItemOpenCV(b);
    assert_eq!(a.optical_flow_to(&b_wrapped, Some(&report)), None);
    assert_eq!(a.estimate_pose(&b_wrapped, Some(&report), Some(good_fit(30))), None);

    let c = item(pts.clone());
    let mut d = item(pts.clone());
    d.cleanup();
    let d_wrapped = EstimatorItem::ItemOpenCV(d);
    assert!(!c.can_track_to(&d_wrapped));
    assert_eq!(c.estimate_pose(&d_wrapped, Some(&report), Some(good_fit(30))), None);
}

#[test]
fn failed_detection_gives_empty_features() {
    let a = ItemOpenCV::detect_features(5, frame(9), W, H, None);
    assert!(a.get_features().is_empty());
    assert_eq!(a.image().dimensions(), (W, H));
}

#[test]
fn zero_size_item_cannot_track() {
    let pts = grid(30);
    let a = ItemOpenCV::detect_features(0, frame(128), 0, H, Some(pts.clone()));
    let b = EstimatorItem::ItemOpenCV(item(pts.clone()));
    assert!(!a.can_track_to(&b));
    assert_eq!(a.optical_flow_to(&b, Some(&all_found(&pts))), None);
}

#[test]
fn frame_needs_enough_samples() {
    assert!(GrayFrame::new(4, 3, vec![0; 11]).is_none());
    let f = GrayFrame::new(4, 3, (0..13).collect()).unwrap();
    assert_eq!(f.dimensions(), (4, 3));
    assert_eq!(f.samples(), &(0..13).collect::<Vec<u8>>());
    assert!(!f.is_empty());
    let e = GrayFrame::new(0, 0, vec![]).unwrap();
    assert!(e.is_empty());
}

#[test]
fn zero_size_second_item_cannot_track() {
    let pts = grid(30);
    let a = item(pts.clone());
    for (w, h) in [(0, H), (W, 0), (0, 0)] {
        let b = EstimatorItem::ItemOpenCV(ItemOpenCV::detect_features(0, frame(128), w, h, Some(pts.clone())));
        assert!(!a.can_track_to(&b));
        assert_eq!(a.optical_flow_to(&b, Some(&all_found(&pts))), None);
        assert_eq!(a.estimate_pose(&b, Some(&all_found(&pts)), Some(good_fit(30))), None);
    }
}

#[test]
fn short_raster_cannot_track() {
    let pts = grid(30);
    let a = item(pts.clone());
    let small = GrayFrame::new(4, 4, vec![1; 16]).unwrap();
    let b = EstimatorItem::ItemOpenCV(ItemOpenCV::detect_features(0, small, W, H, Some(pts.clone())));
    assert!(!a.can_track_to(&b));
    let small = GrayFrame::new(4, 4, vec![1; 16]).unwrap();
    let c = ItemOpenCV::detect_features(0, small, W, H, Some(pts.clone()));
    let d = EstimatorItem::ItemOpenCV(item(pts.clone()));
    assert!(!c.can_track_to(&d));
    assert!(a.can_track_to(&d));
}

#[test]
fn fit_with_more_inliers_than_pairs_gives_no_pose() {
    let pts = grid(10);
    let a = item(pts.clone());
    let b = EstimatorItem::ItemOpenCV(item(pts.clone()));
    assert_eq!(a.estimate_pose(&b, Some(&all_found(&pts)), Some(good_fit(30))), None);
}

#[test]
fn default_item_is_empty_and_unusable() {
    let a = ItemOpenCV::default();
    assert!(a.get_features().is_empty());
    assert_eq!(a.size(), (0, 0));
    assert!(a.image().is_empty());
    let b = EstimatorItem::ItemOpenCV(item(grid(5)));
    assert!(!a.can_track_to(&b));
}

#[test]
fn cloned_item_keeps_features_and_image() {
    let pts = grid(25);
    let a = item(pts.clone());
    let c = a.clone();
    assert_eq!(c.get_features(), &pts);
    assert_eq!(c.size(), a.size());
    assert_eq!(c.image().samples(), a.image().samples());
    assert_eq!(c.image().dimensions(), (W, H));
    let b = EstimatorItem::ItemOpenCV(a);
    assert_eq!(c.optical_flow_to(&b, Some(&all_found(&pts))), Some((pts.clone(), pts.clone())));
}
