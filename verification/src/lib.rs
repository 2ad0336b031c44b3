//! A frame-timing and recording engine for timed screen capture.
//!
//! The library paces a capture loop against a target frame rate, collects
//! captured images into an ordered frame sequence, and manages the
//! cancellation and hand-off protocol between the party that records and the
//! party that asks the recording to stop.  Acquiring pixels, sleeping,
//! spawning threads and encoding files are outside capabilities; the library
//! holds every decision that connects them.

pub mod app;
pub mod clock;
pub mod file;
pub mod image;
pub mod parse;
pub mod record;
pub mod settings;
