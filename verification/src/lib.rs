//! Verified core of the Konjac screen-translation overlay: the translation
//! history, the frame-difference arithmetic, the capture monitor's decisions
//! and the request/reply logic of the translation engine.
pub mod capture;
pub mod diff;
pub mod font;
pub mod history;
pub mod json;
pub mod session;
pub mod text;
pub mod translate;
