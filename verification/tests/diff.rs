use konjac::diff::{compute_diff_score, score_thumbnails, DiffScore, Frame};

fn solid(w: u32, h: u32, rgb: [u8; 3]) -> Frame {
    let mut bytes = Vec::new();
    for _ in 0..(w * h) {
        bytes.extend_from_slice(&rgb);
    }
    Frame { width: w, height: h, rgb: bytes }
}

fn ratio(s: DiffScore) -> f32 {
    s.total as f32 / s.max_total as f32
}

#[test]
fn identical_images_score_near_zero() {
    let img = solid(100, 100, [128, 128, 128]);
    let score = ratio(compute_diff_score(&img, &img));
    assert!(score < 0.001, "expected ~0, got {score}");
}

#[test]
fn black_vs_white_score_near_one() {
    let black = solid(100, 100, [0, 0, 0]);
    let white = solid(100, 100, [255, 255, 255]);
    let score = ratio(compute_diff_score(&black, &white));
    assert!(score > 0.99, "expected ~1, got {score}");
}

#[test]
fn thumbnails_fit_sixty_four_square() {
    let a = solid(100, 50, [10, 20, 30]);
    let s = compute_diff_score(&a, &a);
    assert_eq!(s.total, 0);
    // 100x50 shrinks to 64x32.
    assert_eq!(s.max_total, 64 * 32 * 3 * 255);
}

#[test]
fn small_images_are_compared_at_thumbnail_size() {
    let a = solid(1, 1, [0, 0, 0]);
    let b = solid(1, 1, [0, 0, 0]);
    let s = compute_diff_score(&a, &b);
    assert_eq!(s.total, 0);
    assert!(s.max_total > 0);
}

#[test]
fn score_thumbnails_exact_sum() {
    let prev = Frame { width: 2, height: 1, rgb: vec![0, 10, 20, 255, 255, 255] };
    let cur = Frame { width: 2, height: 1, rgb: vec![5, 5, 25, 0, 255, 250] };
    let s = score_thumbnails(&prev, &cur);
    assert_eq!(s.total, 5 + 5 + 5 + 255 + 0 + 5);
    assert_eq!(s.max_total, 2 * 3 * 255);
}

#[test]
fn score_thumbnails_pairs_only_shared_pixels() {
    let prev = Frame { width: 2, height: 1, rgb: vec![0, 0, 0, 0, 0, 0] };
    let cur = Frame { width: 1, height: 1, rgb: vec![1, 2, 3] };
    let s = score_thumbnails(&prev, &cur);
    assert_eq!(s.total, 6);
    assert_eq!(s.max_total, 2 * 3 * 255);
}

#[test]
fn score_thumbnails_black_white_is_maximal() {
    let black = solid(3, 2, [0, 0, 0]);
    let white = solid(3, 2, [255, 255, 255]);
    let s = score_thumbnails(&black, &white);
    assert_eq!(s.total, s.max_total);
}

#[test]
fn score_thumbnails_symmetric_for_same_size() {
    let a = Frame { width: 1, height: 2, rgb: vec![1, 2, 3, 200, 100, 0] };
    let b = Frame { width: 1, height: 2, rgb: vec![9, 0, 3, 100, 200, 7] };
    assert_eq!(score_thumbnails(&a, &b), score_thumbnails(&b, &a));
}

#[test]
fn thumbnail_sizes_at_edges() {
    // 1 x 1000 shrinks to 1 x 64.
    let tall = solid(1, 1000, [1, 2, 3]);
    assert_eq!(compute_diff_score(&tall, &tall).max_total, 64 * 3 * 255);
    // 3000 x 1 shrinks to 64 x 1.
    let wide = solid(3000, 1, [1, 2, 3]);
    assert_eq!(compute_diff_score(&wide, &wide).max_total, 64 * 3 * 255);
    // An empty image still gives a 1 x 1 thumbnail.
    let empty = Frame { width: 0, height: 0, rgb: vec![] };
    let s = compute_diff_score(&empty, &empty);
    assert_eq!(s.max_total, 3 * 255);
    assert_eq!(s.total, 0);
    // A 0 x 5 image gives a 1 x 64 thumbnail.
    let thin = Frame { width: 0, height: 5, rgb: vec![] };
    assert_eq!(compute_diff_score(&thin, &thin).max_total, 64 * 3 * 255);
}

#[test]
fn score_symmetric_for_same_size_images() {
    let mut a = solid(100, 80, [10, 20, 30]);
    let b = solid(100, 80, [200, 0, 90]);
    a.rgb[0] = 255;
    assert_eq!(compute_diff_score(&a, &b), compute_diff_score(&b, &a));
}
