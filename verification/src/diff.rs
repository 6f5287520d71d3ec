use vstd::prelude::*;

verus! {

/// Side of the square that both frames are shrunk into before they are compared.
pub const THUMBNAIL_SIDE: u32 = 64;

/// An RGB image: `width * height` pixels, row by row, three bytes (red, green,
/// blue) per pixel.
pub struct Frame {
    pub width: u32,
    pub height: u32,
    pub rgb: Vec<u8>,
}

impl Frame {
    /// The buffer holds exactly three bytes for every pixel.
    pub open spec fn well_formed(&self) -> bool {
        self.rgb@.len() == self.width * self.height * 3
    }
}

/// How far apart two frames are, as the fraction `total / max_total`: the summed
/// absolute channel differences over the largest sum the compared frame size allows.
#[derive(Debug, Clone, Copy, PartialEq, Eq)]
pub struct DiffScore {
    pub total: u64,
    pub max_total: u64,
}

/// What `DynamicImage::thumbnail` followed by `to_rgb8` makes of an RGB image,
/// as (width, height, bytes).
pub uninterp spec fn thumbnail_of(
    width: u32,
    height: u32,
    rgb: Seq<u8>,
    max_width: u32,
    max_height: u32,
) -> (u32, u32, Seq<u8>);

/// Shrinks `frame` with `image::DynamicImage::thumbnail` (aspect ratio kept) and
/// converts it to RGB8. The result is named by `thumbnail_of`. `image`'s source
/// shows that each side is at least 1 (`resize_dimensions` takes the maximum with 1)
/// and fits within the bounds, that the buffer holds three bytes per pixel, and
/// that the thumbnail's size depends on the image's size alone
/// (`resize_dimensions` reads only the width and height).
#[verifier::external_body]
fn thumbnail(frame: &Frame, max_width: u32, max_height: u32) -> (res: Frame)
    requires
        frame.well_formed(),
        1 <= max_width <= THUMBNAIL_SIDE,
        1 <= max_height <= THUMBNAIL_SIDE,
    ensures
        (res.width, res.height, res.rgb@) == thumbnail_of(
            frame.width,
            frame.height,
            frame.rgb@,
            max_width,
            max_height,
        ),
        1 <= res.width <= max_width,
        1 <= res.height <= max_height,
        res.well_formed(),
        forall|rgb: Seq<u8>|
            rgb.len() == frame.width * frame.height * 3 ==> {
                let other = #[trigger] thumbnail_of(frame.width, frame.height, rgb, max_width, max_height);
                other.0 == res.width && other.1 == res.height
            },
{
    let img = image::RgbImage::from_raw(frame.width, frame.height, frame.rgb.clone()).unwrap();
    let small = image::DynamicImage::ImageRgb8(img).thumbnail(max_width, max_height).to_rgb8();
    Frame { width: small.width(), height: small.height(), rgb: small.into_raw() }
}

/// Absolute difference of two channel values.
pub open spec fn channel_diff(a: u8, b: u8) -> int {
    if a >= b {
        a - b
    } else {
        b - a
    }
}

/// Summed absolute channel differences of the first `n` pixels of two RGB buffers.
pub open spec fn pixel_diff_sum(a: Seq<u8>, b: Seq<u8>, n: nat) -> int
    decreases n,
{
    if n == 0 {
        0
    } else {
        let k: int = 3 * (n - 1);
        pixel_diff_sum(a, b, (n - 1) as nat) + channel_diff(a[k], b[k]) + channel_diff(
            a[k + 1],
            b[k + 1],
        ) + channel_diff(a[k + 2], b[k + 2])
    }
}

/// Number of pixels that both buffers hold: pixels are paired in order and the
/// longer buffer's extra pixels are ignored.
pub open spec fn paired_pixels(a: Seq<u8>, b: Seq<u8>) -> nat {
    let na: nat = a.len() / 3;
    let nb: nat = b.len() / 3;
    if na <= nb {
        na
    } else {
        nb
    }
}

/// The score of `current` against `prev`, both already at the compared size.
pub open spec fn score_of(prev: (u32, u32, Seq<u8>), current: (u32, u32, Seq<u8>)) -> DiffScore {
    DiffScore {
        total: pixel_diff_sum(prev.2, current.2, paired_pixels(prev.2, current.2)) as u64,
        max_total: (prev.0 * prev.1 * 3 * 255) as u64,
    }
}

/// Absolute difference of two channel values.
fn abs_diff(x: u8, y: u8) -> (d: u64)
    ensures
        d == channel_diff(x, y),
        d <= 255,
{
    if x >= y {
        (x - y) as u64
    } else {
        (y - x) as u64
    }
}

proof fn lemma_pixel_diff_sum_bounds(a: Seq<u8>, b: Seq<u8>, n: nat)
    requires
        3 * n <= a.len(),
        3 * n <= b.len(),
    ensures
        0 <= pixel_diff_sum(a, b, n) <= 765 * n,
    decreases n,
{
    if n > 0 {
        lemma_pixel_diff_sum_bounds(a, b, (n - 1) as nat);
    }
}

/// Compares two frames of the compared size pixel by pixel: the summed absolute
/// channel differences over the pixels both hold, and the largest possible sum
/// for `prev`'s size.
pub fn score_thumbnails(prev: &Frame, current: &Frame) -> (score: DiffScore)
    requires
        prev.well_formed(),
        current.well_formed(),
        prev.width * prev.height * 765 <= u64::MAX,
    ensures
        score == score_of((prev.width, prev.height, prev.rgb@), (current.width, current.height, current.rgb@)),
        score.total <= score.max_total,
{
    let n_prev: usize = prev.rgb.len() / 3;
    let n_cur: usize = current.rgb.len() / 3;
    let n: usize = if n_prev <= n_cur {
        n_prev
    } else {
        n_cur
    };
    let ghost a = prev.rgb@;
    let ghost b = current.rgb@;
    let mut total: u64 = 0;
    let mut i: usize = 0;
    while i < n
        invariant
            n == paired_pixels(a, b),
            a == prev.rgb@,
            b == current.rgb@,
            3 * n <= a.len(),
            3 * n <= b.len(),
            a.len() == prev.rgb.len(),
            b.len() == current.rgb.len(),
            n * 765 <= u64::MAX,
            i <= n,
            total == pixel_diff_sum(a, b, i as nat),
        decreases n - i,
    {
        proof {
            lemma_pixel_diff_sum_bounds(a, b, i as nat);
        }
        let k: usize = 3 * i;
        let step: u64 = abs_diff(prev.rgb[k], current.rgb[k]) + abs_diff(prev.rgb[k + 1], current.rgb[k + 1])
            + abs_diff(prev.rgb[k + 2], current.rgb[k + 2]);
        total = total + step;
        i = i + 1;
    }
    proof {
        lemma_pixel_diff_sum_bounds(a, b, n as nat);
        assert(n <= prev.width * prev.height) by (nonlinear_arith)
            requires
                3 * n <= a.len(),
                a.len() == prev.width * prev.height * 3,
        ;
        assert(765 * n <= prev.width * prev.height * 765) by (nonlinear_arith)
            requires
                n <= prev.width * prev.height,
        ;
    }
    let max_total: u64 = (prev.width as u64) * (prev.height as u64) * 3 * 255;
    DiffScore { total, max_total }
}

/// Normalised difference of two frames, as a fraction: both frames are shrunk to
/// fit `THUMBNAIL_SIDE` x `THUMBNAIL_SIDE`, then compared pixel by pixel.
pub fn compute_diff_score(prev: &Frame, current: &Frame) -> (score: DiffScore)
    requires
        prev.well_formed(),
        current.well_formed(),
    ensures
        score == score_of(
            thumbnail_of(prev.width, prev.height, prev.rgb@, THUMBNAIL_SIDE, THUMBNAIL_SIDE),
            thumbnail_of(current.width, current.height, current.rgb@, THUMBNAIL_SIDE, THUMBNAIL_SIDE),
        ),
        score.total <= score.max_total,
        score.max_total > 0,
        1 <= thumbnail_of(prev.width, prev.height, prev.rgb@, THUMBNAIL_SIDE, THUMBNAIL_SIDE).0
            <= THUMBNAIL_SIDE,
        1 <= thumbnail_of(prev.width, prev.height, prev.rgb@, THUMBNAIL_SIDE, THUMBNAIL_SIDE).1
            <= THUMBNAIL_SIDE,
        1 <= thumbnail_of(current.width, current.height, current.rgb@, THUMBNAIL_SIDE, THUMBNAIL_SIDE).0
            <= THUMBNAIL_SIDE,
        1 <= thumbnail_of(current.width, current.height, current.rgb@, THUMBNAIL_SIDE, THUMBNAIL_SIDE).1
            <= THUMBNAIL_SIDE,
        thumbnail_of(prev.width, prev.height, prev.rgb@, THUMBNAIL_SIDE, THUMBNAIL_SIDE).2.len()
            == thumbnail_of(prev.width, prev.height, prev.rgb@, THUMBNAIL_SIDE, THUMBNAIL_SIDE).0
            * thumbnail_of(prev.width, prev.height, prev.rgb@, THUMBNAIL_SIDE, THUMBNAIL_SIDE).1 * 3,
        thumbnail_of(current.width, current.height, current.rgb@, THUMBNAIL_SIDE, THUMBNAIL_SIDE).2.len()
            == thumbnail_of(current.width, current.height, current.rgb@, THUMBNAIL_SIDE, THUMBNAIL_SIDE).0
            * thumbnail_of(current.width, current.height, current.rgb@, THUMBNAIL_SIDE, THUMBNAIL_SIDE).1
            * 3,
        prev.width == current.width && prev.height == current.height ==> score == score_of(
            thumbnail_of(current.width, current.height, current.rgb@, THUMBNAIL_SIDE, THUMBNAIL_SIDE),
            thumbnail_of(prev.width, prev.height, prev.rgb@, THUMBNAIL_SIDE, THUMBNAIL_SIDE),
        ),
{
    let prev_thumb = thumbnail(prev, THUMBNAIL_SIDE, THUMBNAIL_SIDE);
    let curr_thumb = thumbnail(current, THUMBNAIL_SIDE, THUMBNAIL_SIDE);
    proof {
        assert(prev_thumb.width * prev_thumb.height <= 64 * 64) by (nonlinear_arith)
            requires
                prev_thumb.width <= 64,
                prev_thumb.height <= 64,
        ;
        assert(prev_thumb.width * prev_thumb.height >= 1) by (nonlinear_arith)
            requires
                prev_thumb.width >= 1,
                prev_thumb.height >= 1,
        ;
        if prev.width == current.width && prev.height == current.height {
            let other = thumbnail_of(current.width, current.height, current.rgb@, THUMBNAIL_SIDE, THUMBNAIL_SIDE);
            assert(other.0 == prev_thumb.width && other.1 == prev_thumb.height);
            lemma_score_symmetric(frame_triple(&prev_thumb), frame_triple(&curr_thumb));
        }
    }
    score_thumbnails(&prev_thumb, &curr_thumb)
}

/// A frame as plain values: (width, height, bytes).
pub open spec fn frame_triple(f: &Frame) -> (u32, u32, Seq<u8>) {
    (f.width, f.height, f.rgb@)
}

/// A frame compared with itself differs by nothing.
pub proof fn lemma_identical_frames_score_zero(frame: (u32, u32, Seq<u8>))
    ensures
        score_of(frame, frame).total == 0,
{
    lemma_pixel_diff_sum_self(frame.2, paired_pixels(frame.2, frame.2));
}

proof fn lemma_pixel_diff_sum_self(a: Seq<u8>, n: nat)
    ensures
        pixel_diff_sum(a, a, n) == 0,
    decreases n,
{
    if n > 0 {
        lemma_pixel_diff_sum_self(a, (n - 1) as nat);
    }
}

/// The difference does not depend on which frame comes first, when both have the same size.
pub proof fn lemma_score_symmetric(prev: (u32, u32, Seq<u8>), current: (u32, u32, Seq<u8>))
    requires
        prev.0 == current.0,
        prev.1 == current.1,
    ensures
        score_of(prev, current) == score_of(current, prev),
{
    lemma_pixel_diff_sum_symmetric(prev.2, current.2, paired_pixels(prev.2, current.2));
}

proof fn lemma_pixel_diff_sum_symmetric(a: Seq<u8>, b: Seq<u8>, n: nat)
    ensures
        pixel_diff_sum(a, b, n) == pixel_diff_sum(b, a, n),
    decreases n,
{
    if n > 0 {
        lemma_pixel_diff_sum_symmetric(a, b, (n - 1) as nat);
    }
}

/// An all-black frame against an all-white frame of the same size reaches the
/// largest possible difference: the score is exactly 1.
pub proof fn lemma_black_white_score_one(black: (u32, u32, Seq<u8>), white: (u32, u32, Seq<u8>))
    requires
        black.0 == white.0,
        black.1 == white.1,
        black.2.len() == black.0 * black.1 * 3,
        white.2.len() == black.2.len(),
        black.0 * black.1 * 765 <= u64::MAX,
        forall|i: int| 0 <= i < black.2.len() ==> #[trigger] black.2[i] == 0,
        forall|i: int| 0 <= i < white.2.len() ==> #[trigger] white.2[i] == 255,
    ensures
        score_of(black, white).total == score_of(black, white).max_total,
{
    let n: nat = paired_pixels(black.2, white.2);
    assert(n == black.0 * black.1) by (nonlinear_arith)
        requires
            n == black.2.len() / 3,
            black.2.len() == black.0 * black.1 * 3,
    ;
    lemma_pixel_diff_sum_extreme(black.2, white.2, n);
}

proof fn lemma_pixel_diff_sum_extreme(a: Seq<u8>, b: Seq<u8>, n: nat)
    requires
        3 * n <= a.len(),
        3 * n <= b.len(),
        forall|i: int| 0 <= i < a.len() ==> #[trigger] a[i] == 0,
        forall|i: int| 0 <= i < b.len() ==> #[trigger] b[i] == 255,
    ensures
        pixel_diff_sum(a, b, n) == 765 * n,
    decreases n,
{
    if n > 0 {
        let k: int = 3 * (n - 1);
        assert(a[k] == 0 && a[k + 1] == 0 && a[k + 2] == 0);
        assert(b[k] == 255 && b[k + 1] == 255 && b[k + 2] == 255);
        lemma_pixel_diff_sum_extreme(a, b, (n - 1) as nat);
    }
}

} // verus!
