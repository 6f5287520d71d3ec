# konjac

The verified core of Konjac, a screen-translation overlay: it watches the
screen region below its window, notices when the content changes, and sends
the image to an OpenAI-compatible vision model for OCR and translation.

Layout:

- `src/` — the library, verified with Verus:
  - `history.rs` — the translation history (newest first, at most 20 entries,
    fresh ids), with its laws (push keeps ids fresh and descending, removing
    the pushed id undoes a push, removal is idempotent).
  - `diff.rs` — frames as RGB buffers, thumbnailing through `image`, and the
    exact difference score `total / max_total` of two frames.
  - `capture.rs` — the capture region below the toolbar, the checks before a
    capture, the `screencapture` region argument, and the capture monitor whose
    `tick` decides, from what one tick observed, what it remembers and whether
    the content is now stale.
  - `session.rs` — the capturing/stale switches shared by the commands and the
    capture loop, and the decision of "translate now".
  - `translate.rs`, `json.rs` — the chat-completion request (JPEG at quality 85 through
    `image`, base64 through `base64`) and the extraction of the reply text.
  - `text.rs` — decimal rendering of integers.
  - `font.rs` — the allowed font sizes of the translation text.
- `tests/` — tests of the library.
- `app/` — the Tauri shell: window, tray, commands, settings and history
  files, screen capture, the HTTP round trip and the floating-point threshold
  test.
