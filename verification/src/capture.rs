use vstd::prelude::*;
use crate::diff::{
    compute_diff_score, frame_triple, score_of, thumbnail_of, DiffScore, Frame, THUMBNAIL_SIDE,
};
use crate::session::{stale_marked, stale_notifies, SessionState};
use crate::text::{decimal, push_decimal, push_signed_decimal, signed_decimal};

verus! {

/// Height in points of the overlay's toolbar, which is left out of the capture.
pub const TOOLBAR_HEIGHT: u32 = 32;

/// A screen region in logical points: top-left corner and size.
#[derive(Debug, Clone, Copy, PartialEq, Eq)]
pub struct CaptureRect {
    pub x: i32,
    pub y: i32,
    pub width: u32,
    pub height: u32,
}

/// Why a capture failed.
#[derive(Debug)]
pub enum CaptureError {
    NullImage,
    ConversionError,
    Platform(String),
}

/// The text shown for a capture error.
pub open spec fn capture_error_text(e: CaptureError) -> Seq<char> {
    match e {
        CaptureError::NullImage => "capture returned null image"@,
        CaptureError::ConversionError => "image conversion failed"@,
        CaptureError::Platform(detail) => "platform error: "@ + detail@,
    }
}

/// The error for a platform failure with the given text.
pub open spec fn is_platform_error(e: CaptureError, text: Seq<char>) -> bool {
    e matches CaptureError::Platform(detail) && detail@ == text
}

impl CaptureError {
    /// The text shown for this error.
    pub fn message(&self) -> (res: String)
        ensures
            res@ == capture_error_text(*self),
    {
        match self {
            CaptureError::NullImage => {
                proof {
                    reveal_strlit("capture returned null image");
                }
                String::from_str("capture returned null image")
            },
            CaptureError::ConversionError => {
                proof {
                    reveal_strlit("image conversion failed");
                }
                String::from_str("image conversion failed")
            },
            CaptureError::Platform(detail) => {
                let mut res = String::from_str("platform error: ");
                res.append(detail.as_str());
                res
            },
        }
    }
}

/// The region below the toolbar of a window whose top-left corner is (`x`, `y`)
/// and whose size is `width` x `height`, all in logical points.
pub fn region_below_toolbar(x: i32, y: i32, width: u32, height: u32) -> (rect: CaptureRect)
    requires
        y + TOOLBAR_HEIGHT <= i32::MAX,
    ensures
        rect.x == x,
        rect.y == y + TOOLBAR_HEIGHT,
        rect.width == width,
        rect.height == if height >= TOOLBAR_HEIGHT {
            height - TOOLBAR_HEIGHT
        } else {
            0
        },
{
    CaptureRect {
        x,
        y: y + TOOLBAR_HEIGHT as i32,
        width,
        height: if height >= TOOLBAR_HEIGHT {
            height - TOOLBAR_HEIGHT
        } else {
            0
        },
    }
}

/// Checks a capture request before the screen is read: an empty region is
/// refused first, then a missing Screen Recording permission.
pub fn check_capture_request(rect: CaptureRect, has_permission: bool) -> (res: Result<(), CaptureError>)
    ensures
        (rect.width == 0 || rect.height == 0) ==> (res matches Err(e) && is_platform_error(
            e,
            "zero-dimension rect"@,
        )),
        (rect.width != 0 && rect.height != 0 && !has_permission) ==> (res matches Err(e)
            && is_platform_error(
            e,
            "Screen Recording permission not granted — open System Settings > Privacy & Security > Screen Recording"@,
        )),
        (rect.width != 0 && rect.height != 0 && has_permission) ==> res is Ok,
{
    if rect.width == 0 || rect.height == 0 {
        return Err(CaptureError::Platform(String::from_str("zero-dimension rect")));
    }
    if !has_permission {
        return Err(
            CaptureError::Platform(
                String::from_str(
                    "Screen Recording permission not granted — open System Settings > Privacy & Security > Screen Recording",
                ),
            ),
        );
    }
    Ok(())
}

/// The `-R` argument of macOS `screencapture` for a region: `x,y,width,height` in decimal.
pub open spec fn region_argument(rect: CaptureRect) -> Seq<char> {
    signed_decimal(rect.x as int) + ","@ + signed_decimal(rect.y as int) + ","@ + decimal(
        rect.width as nat,
    ) + ","@ + decimal(rect.height as nat)
}

/// Writes the region of `rect` as `screencapture -R` expects it.
pub fn screencapture_region(rect: CaptureRect) -> (res: String)
    ensures
        res@ == region_argument(rect),
{
    proof {
        reveal_strlit(",");
    }
    let mut res = String::new();
    push_signed_decimal(&mut res, rect.x as i64);
    res.append(",");
    push_signed_decimal(&mut res, rect.y as i64);
    res.append(",");
    push_decimal(&mut res, rect.width as u64);
    res.append(",");
    push_decimal(&mut res, rect.height as u64);
    proof {
        assert(res@ == region_argument(rect));
    }
    res
}

/// The error for a `screencapture` run that failed, carrying its (trimmed) error output.
pub fn screencapture_failure(stderr: &str) -> (e: CaptureError)
    ensures
        is_platform_error(
            e,
            "screencapture failed — check Screen Recording permission in System Settings ("@
                + stderr@ + ")"@,
        ),
{
    proof {
        reveal_strlit(")");
    }
    let mut text = String::from_str(
        "screencapture failed — check Screen Recording permission in System Settings (",
    );
    text.append(stderr);
    text.append(")");
    CaptureError::Platform(text)
}

/// The window's outer position and size in physical pixels, as the monitor
/// sees them on each tick; a change of any of them makes the capture stale.
#[derive(Debug, Clone, Copy, PartialEq, Eq)]
pub struct WindowBounds {
    pub x: i32,
    pub y: i32,
    pub width: u32,
    pub height: u32,
}

/// What the capture loop remembers between ticks: the window bounds it last saw
/// and the frame it last captured.
pub struct CaptureMonitor {
    prev_bounds: Option<WindowBounds>,
    prev_frame: Option<Frame>,
}

impl CaptureMonitor {
    #[verifier::type_invariant]
    spec fn frame_well_formed(&self) -> bool {
        self.prev_frame matches Some(f) ==> f.well_formed()
    }

    /// The window bounds seen on the last tick that read them.
    pub closed spec fn spec_prev_bounds(&self) -> Option<WindowBounds> {
        self.prev_bounds
    }

    /// The last captured frame, if the last capture succeeded and the monitor ran since.
    pub closed spec fn spec_prev_frame(&self) -> Option<(u32, u32, Seq<u8>)> {
        match self.prev_frame {
            Some(f) => Some(frame_triple(&f)),
            None => None,
        }
    }

    /// A monitor that has seen nothing yet.
    pub fn new() -> (m: Self)
        ensures
            m.spec_prev_bounds() is None,
            m.spec_prev_frame() is None,
    {
        CaptureMonitor { prev_bounds: None, prev_frame: None }
    }

    /// Capturing is paused: forget the bounds and the frame, so that the first
    /// tick after resuming counts as a change.
    pub fn reset(&mut self)
        ensures
            final(self).spec_prev_bounds() is None,
            final(self).spec_prev_frame() is None,
    {
        self.prev_frame = None;
        self.prev_bounds = None;
    }

    /// Records the window bounds of this tick and tells whether they differ
    /// from those of the last tick (always so on the first tick).
    pub fn track_bounds(&mut self, bounds: WindowBounds) -> (changed: bool)
        ensures
            changed == (old(self).spec_prev_bounds() != Some(bounds)),
            final(self).spec_prev_bounds() == Some(bounds),
            final(self).spec_prev_frame() == old(self).spec_prev_frame(),
    {
        proof {
            use_type_invariant(&*self);
        }
        let changed = match self.prev_bounds {
            Some(prev) => !(prev.x == bounds.x && prev.y == bounds.y && prev.width == bounds.width
                && prev.height == bounds.height),
            None => true,
        };
        self.prev_bounds = Some(bounds);
        changed
    }

    /// The capture of this tick failed: the next successful capture has nothing
    /// to be compared with.
    pub fn forget_frame(&mut self)
        ensures
            final(self).spec_prev_frame() is None,
            final(self).spec_prev_bounds() == old(self).spec_prev_bounds(),
    {
        self.prev_frame = None;
    }

    /// Keeps `current` as the frame of this tick and scores it against the
    /// previous one; `None` when there was no previous frame.
    pub fn compare_and_keep(&mut self, current: Frame) -> (score: Option<DiffScore>)
        requires
            current.well_formed(),
        ensures
            final(self).spec_prev_frame() == Some(frame_triple(&current)),
            final(self).spec_prev_bounds() == old(self).spec_prev_bounds(),
            match old(self).spec_prev_frame() {
                None => score is None,
                Some(prev) => score == Some(
                    score_of(
                        thumbnail_of(prev.0, prev.1, prev.2, THUMBNAIL_SIDE, THUMBNAIL_SIDE),
                        thumbnail_of(
                            current.width,
                            current.height,
                            current.rgb@,
                            THUMBNAIL_SIDE,
                            THUMBNAIL_SIDE,
                        ),
                    ),
                ),
            },
    {
        proof {
            use_type_invariant(&*self);
        }
        let score = match &self.prev_frame {
            Some(prev) => Some(compute_diff_score(prev, &current)),
            None => None,
        };
        self.prev_frame = Some(current);
        score
    }
}

/// The content below the window counts as changed when the window moved or was
/// resized, or when there was no earlier frame, or when the new frame differs
/// enough from the earlier one (`differs`, the threshold test on the score).
pub fn capture_changed(bounds_changed: bool, score: Option<DiffScore>, differs: bool) -> (changed: bool)
    ensures
        changed == (bounds_changed || score is None || differs),
{
    bounds_changed || score.is_none() || differs
}

/// What one tick of the capture loop observed.
pub enum TickObservation {
    /// Capturing is paused.
    Paused,
    /// The window, or its position or size, could not be read.
    WindowUnavailable,
    /// The window had these bounds, but capturing below it failed.
    CaptureFailed(WindowBounds),
    /// The window had these bounds and this frame was captured below it.
    Captured(WindowBounds, Frame),
}

/// The score of a new frame against the kept one; `None` without a kept frame.
pub open spec fn tick_score(prev_frame: Option<(u32, u32, Seq<u8>)>, frame: (u32, u32, Seq<u8>)) -> Option<
    DiffScore,
> {
    match prev_frame {
        None => None,
        Some(prev) => Some(
            score_of(
                thumbnail_of(prev.0, prev.1, prev.2, THUMBNAIL_SIDE, THUMBNAIL_SIDE),
                thumbnail_of(frame.0, frame.1, frame.2, THUMBNAIL_SIDE, THUMBNAIL_SIDE),
            ),
        ),
    }
}

/// Whether a captured frame counts as a change: the window moved or was resized
/// since the last tick, or there is no kept frame to compare with, or the frame
/// differs beyond the threshold (`differs`).
pub open spec fn content_changed(
    prev_bounds: Option<WindowBounds>,
    prev_frame: Option<(u32, u32, Seq<u8>)>,
    bounds: WindowBounds,
    differs: bool,
) -> bool {
    prev_bounds != Some(bounds) || prev_frame is None || differs
}

/// The session after a tick that did or did not see a change, and whether the
/// user is told.
pub open spec fn tick_effect(
    changed: bool,
    old_session: SessionState,
    new_session: SessionState,
    notify: bool,
) -> bool {
    &&& new_session == if changed {
        stale_marked(old_session)
    } else {
        old_session
    }
    &&& notify == (changed && stale_notifies(old_session))
}

impl CaptureMonitor {
    /// One tick of the capture loop. A paused tick drops the kept bounds and
    /// frame; a tick without the window changes nothing; a failed capture keeps
    /// the bounds and drops the frame. A captured frame is kept, and when the
    /// content changed (see `content_changed`; `exceeds` is the threshold test
    /// on the score) the session is marked stale. Returns whether the user must
    /// be told that the content is stale (the first change since the last
    /// translation started).
    pub fn tick<F: Fn(DiffScore) -> bool>(
        &mut self,
        session: &mut SessionState,
        observation: TickObservation,
        exceeds: F,
    ) -> (notify: bool)
        requires
            observation matches TickObservation::Captured(_, f) ==> f.well_formed(),
            forall|s: DiffScore| exceeds.requires((s,)),
        ensures
            match observation {
                TickObservation::Paused => {
                    &&& final(self).spec_prev_bounds() is None
                    &&& final(self).spec_prev_frame() is None
                    &&& *final(session) == *old(session)
                    &&& !notify
                },
                TickObservation::WindowUnavailable => {
                    &&& final(self).spec_prev_bounds() == old(self).spec_prev_bounds()
                    &&& final(self).spec_prev_frame() == old(self).spec_prev_frame()
                    &&& *final(session) == *old(session)
                    &&& !notify
                },
                TickObservation::CaptureFailed(bounds) => {
                    &&& final(self).spec_prev_bounds() == Some(bounds)
                    &&& final(self).spec_prev_frame() is None
                    &&& *final(session) == *old(session)
                    &&& !notify
                },
                TickObservation::Captured(bounds, frame) => {
                    &&& final(self).spec_prev_bounds() == Some(bounds)
                    &&& final(self).spec_prev_frame() == Some(frame_triple(&frame))
                    &&& exists|differs: bool|
                        {
                            &&& (tick_score(old(self).spec_prev_frame(), frame_triple(&frame)) matches Some(
                                score,
                            ) ==> exceeds.ensures((score,), differs))
                            &&& tick_effect(
                                #[trigger] content_changed(
                                    old(self).spec_prev_bounds(),
                                    old(self).spec_prev_frame(),
                                    bounds,
                                    differs,
                                ),
                                *old(session),
                                *final(session),
                                notify,
                            )
                        }
                },
            },
            (observation matches TickObservation::Captured(bounds, _) && old(self).spec_prev_bounds()
                != Some(bounds)) ==> (final(session).is_stale && final(session).is_capturing == old(
                session,
            ).is_capturing && notify == !old(session).is_stale),
            (observation matches TickObservation::Captured(_, _) && old(self).spec_prev_frame() is None)
                ==> (final(session).is_stale && final(session).is_capturing == old(
                session,
            ).is_capturing && notify == !old(session).is_stale),
            !(observation is Captured) ==> (*final(session) == *old(session) && !notify),
    {
        match observation {
            TickObservation::Paused => {
                self.reset();
                false
            },
            TickObservation::WindowUnavailable => false,
            TickObservation::CaptureFailed(bounds) => {
                self.track_bounds(bounds);
                self.forget_frame();
                false
            },
            TickObservation::Captured(bounds, frame) => {
                let ghost prev_bounds = self.spec_prev_bounds();
                let ghost prev_frame = self.spec_prev_frame();
                let bounds_changed = self.track_bounds(bounds);
                let score = self.compare_and_keep(frame);
                let differs: bool = match score {
                    Some(s) => exceeds(s),
                    None => false,
                };
                let changed = capture_changed(bounds_changed, score, differs);
                assert(changed == content_changed(prev_bounds, prev_frame, bounds, differs));
                if changed {
                    session.mark_stale()
                } else {
                    false
                }
            },
        }
    }
}

/// With no kept frame (after a pause, a failed capture, or on the first tick)
/// a captured frame always counts as a change.
pub proof fn lemma_no_baseline_counts_as_change(
    prev_bounds: Option<WindowBounds>,
    bounds: WindowBounds,
    differs: bool,
)
    ensures
        content_changed(prev_bounds, None, bounds, differs),
{
}

/// A change of the window's bounds alone is a change of the content: whatever
/// the kept frame and the threshold test say, a captured frame under moved or
/// resized bounds counts as changed.
pub proof fn lemma_moved_window_is_change(
    prev_bounds: WindowBounds,
    prev_frame: Option<(u32, u32, Seq<u8>)>,
    bounds: WindowBounds,
    differs: bool,
)
    requires
        prev_bounds != bounds,
    ensures
        content_changed(Some(prev_bounds), prev_frame, bounds, differs),
{
}

/// Under unchanged bounds with a kept frame, the content counts as changed
/// exactly when the threshold test says the frame differs.
pub proof fn lemma_still_window_follows_threshold(
    bounds: WindowBounds,
    prev_frame: (u32, u32, Seq<u8>),
    differs: bool,
)
    ensures
        content_changed(Some(bounds), Some(prev_frame), bounds, differs) == differs,
{
}

/// A tick that sees a change leaves the content stale, and tells the user only
/// when it was not stale before.
pub proof fn lemma_change_leaves_stale(old_session: SessionState, new_session: SessionState, notify: bool)
    requires
        tick_effect(true, old_session, new_session, notify),
    ensures
        new_session.is_stale,
        new_session.is_capturing == old_session.is_capturing,
        notify == !old_session.is_stale,
{
}

/// A tick that sees no change leaves the session as it was and tells nobody.
pub proof fn lemma_no_change_is_silent(old_session: SessionState, new_session: SessionState, notify: bool)
    requires
        tick_effect(false, old_session, new_session, notify),
    ensures
        new_session == old_session,
        !notify,
{
}

} // verus!
