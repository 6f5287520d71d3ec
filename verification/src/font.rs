use vstd::prelude::*;

verus! {

/// Smallest font size of the translation text, in pixels.
pub const MIN_FONT_SIZE: u8 = 10;

/// Largest font size of the translation text, in pixels.
pub const MAX_FONT_SIZE: u8 = 20;

/// Font size of the translation text when none is configured, in pixels.
pub const DEFAULT_FONT_SIZE: u8 = 13;

/// The nearest size to `size` in `MIN_FONT_SIZE..=MAX_FONT_SIZE`.
pub open spec fn clamped_font_size(size: u8) -> u8 {
    if size < MIN_FONT_SIZE {
        MIN_FONT_SIZE
    } else if size > MAX_FONT_SIZE {
        MAX_FONT_SIZE
    } else {
        size
    }
}

/// The font size used for the requested one: the nearest size in
/// `MIN_FONT_SIZE..=MAX_FONT_SIZE`.
pub fn clamp_font_size(size: u8) -> (res: u8)
    ensures
        res == clamped_font_size(size),
{
    if size < MIN_FONT_SIZE {
        MIN_FONT_SIZE
    } else if size > MAX_FONT_SIZE {
        MAX_FONT_SIZE
    } else {
        size
    }
}

/// Every clamped size lies in the allowed range, an allowed size is kept as it
/// is, clamping twice is clamping once, and the default size is allowed.
pub proof fn lemma_font_size_range(size: u8)
    ensures
        MIN_FONT_SIZE <= clamped_font_size(size) <= MAX_FONT_SIZE,
        MIN_FONT_SIZE <= size <= MAX_FONT_SIZE ==> clamped_font_size(size) == size,
        clamped_font_size(clamped_font_size(size)) == clamped_font_size(size),
        clamped_font_size(DEFAULT_FONT_SIZE) == DEFAULT_FONT_SIZE,
{
}

} // verus!
