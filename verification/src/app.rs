//! The orchestrator: decides between still capture and recording, runs
//! the capture loop through the outside capabilities, and validates what
//! is handed to an output sink.
//!
//! Two capture states exist and no more: synchronous capture on the
//! caller's thread, and background capture while a companion command
//! runs.  The second needs a worker thread, which an outside shell owns;
//! the shell drives the same [`crate::record::Record`] session this
//! module hands out.

use vstd::pervasive::unreached;
use vstd::prelude::*;

use crate::clock::{spec_clock, NANOS_PER_MILLISECOND, NANOS_PER_SECOND};
use crate::file::{spec_color_mode, ColorMode, FileFormat};
use crate::image::{frames_model, Frame, Geometry, Image};
use crate::record::{spec_is_run_frames, ImageSource, Pacer, RecordError, Recorder, StopSignal};
use crate::settings::AppSettings;

verus! {

/// Window system access: how an outside window system opens itself for
/// the orchestrator and hands out a window to record.
pub trait WindowAccess<Window: ImageSource>: Sized {
    fn init(settings: &AppSettings) -> Option<Self>;

    fn get_window(&mut self) -> Option<Window>;
}

/// The failures the orchestrator reports beyond those of the recording
/// session itself.  Each is distinguishable: a broken capture, a failed
/// companion command and an empty result are never folded into one.
#[derive(Clone, Copy, PartialEq, Eq, Structural, Debug)]
pub enum AppError {
    /// A frame sequence was empty where a non-empty recording was owed:
    /// saving nothing is a precondition failure, not a quiet success.
    NoFrames,
    /// A still image was missing where one was owed for saving.
    NoImage,
    /// The companion command failed; the captured frames are discarded.
    CommandFailed,
    /// The capture itself broke while the companion command succeeded.
    Capture(RecordError),
}

/// The two states of the orchestrator's capture dispatch — there are no
/// others.
#[derive(Clone, Copy, PartialEq, Eq, Structural, Debug)]
pub enum CaptureMode {
    /// Capture on the caller's own thread, blocking until done.
    Synchronous,
    /// Capture on a worker while the companion command runs.
    Background,
}

/// Which of the two capture states the configuration selects: background
/// capture exactly when a companion command is configured.
pub fn capture_mode(settings: &AppSettings) -> (r: CaptureMode)
    ensures
        r == CaptureMode::Background <==> settings.record.command is Some,
{
    match &settings.record.command {
        Some(_) => CaptureMode::Background,
        None => CaptureMode::Synchronous,
    }
}

/// Conclude a background recording once the companion command has run: a
/// failed command discards the frames and is reported as its own
/// failure; a succeeded command hands the recording through, a broken
/// capture kept distinct under its own error.
pub fn conclude_recording(command_ok: bool, frames: Result<Vec<Frame>, RecordError>) -> (r: Result<
    Vec<Frame>,
    AppError,
>)
    ensures
        !command_ok ==> r == Err::<Vec<Frame>, AppError>(AppError::CommandFailed),
        command_ok ==> (frames matches Ok(v) ==> (r matches Ok(rv) && rv@ == v@)),
        command_ok ==> (frames matches Err(e) ==> r == Err::<Vec<Frame>, AppError>(
            AppError::Capture(e),
        )),
{
    if !command_ok {
        Err(AppError::CommandFailed)
    } else {
        match frames {
            Ok(v) => Ok(v),
            Err(e) => Err(AppError::Capture(e)),
        }
    }
}

/// Conclude a still capture once the companion command has run: the same
/// rule as for a recording — a failed command discards the image and is
/// reported as its own failure.
pub fn conclude_capture(command_ok: bool, image: Option<Image>) -> (r: Result<
    Option<Image>,
    AppError,
>)
    ensures
        !command_ok ==> r == Err::<Option<Image>, AppError>(AppError::CommandFailed),
        command_ok ==> r == Ok::<Option<Image>, AppError>(image),
{
    if !command_ok {
        Err(AppError::CommandFailed)
    } else {
        Ok(image)
    }
}

/// A validated animation save: the frames, with the frame rate and the
/// canvas geometry an encoder needs, taken from the first frame.
#[derive(Debug)]
pub struct GifPlan {
    pub frames: Vec<Frame>,
    pub fps: u32,
    pub geometry: Geometry,
}

/// A validated still save: the image, with the pixel layout its encoder
/// expects.
#[derive(Debug)]
pub struct StillPlan {
    pub image: Image,
    pub color: ColorMode,
}

/// The time budget of a synchronous recording, in nanoseconds: the
/// configured duration, or the timeout for a recording without one,
/// saturating at what a `u64` holds.
pub open spec fn spec_budget_nanos(s: AppSettings) -> u64 {
    match s.record.time.duration {
        Some(ms) => if ms * NANOS_PER_MILLISECOND <= u64::MAX as int {
            (ms * NANOS_PER_MILLISECOND) as u64
        } else {
            u64::MAX
        },
        None => if s.record.time.timeout * NANOS_PER_SECOND <= u64::MAX as int {
            (s.record.time.timeout * NANOS_PER_SECOND) as u64
        } else {
            u64::MAX
        },
    }
}

/// Compute the time budget of a synchronous recording.
pub fn budget_nanos(settings: &AppSettings) -> (r: u64)
    ensures
        r == spec_budget_nanos(*settings),
{
    match settings.record.time.duration {
        Some(ms) => match ms.checked_mul(NANOS_PER_MILLISECOND) {
            Some(n) => n,
            None => u64::MAX,
        },
        None => match settings.record.time.timeout.checked_mul(NANOS_PER_SECOND) {
            Some(n) => n,
            None => u64::MAX,
        },
    }
}

/// The application: a window to capture from, and the settings that
/// decide what happens to what it yields.
pub struct App<Window> {
    window: Option<Window>,
    settings: AppSettings,
}

impl<Window: ImageSource> App<Window> {
    /// The window this application captures from.
    pub closed spec fn spec_window(&self) -> Option<Window> {
        self.window
    }

    /// The settings this application runs under.
    pub closed spec fn spec_settings(&self) -> AppSettings {
        self.settings
    }

    /// Create a new application around a window and its settings.
    pub fn new(window: Option<Window>, settings: AppSettings) -> (r: App<Window>)
        ensures
            r.spec_window() == window,
            r.spec_settings() == settings,
    {
        App { window, settings }
    }

    /// Capture a single still image: show the countdown, then ask the
    /// source once.  What comes back is the source's to decide.
    pub fn capture(&mut self) -> (r: Option<Image>)
        requires
            old(self).spec_window() is Some,
        ensures
            final(self).spec_settings() == old(self).spec_settings(),
            final(self).spec_window() is Some,
    {
        match &mut self.window {
            Some(w) => {
                w.show_countdown();
                w.get_image()
            },
            None => unreached(),
        }
    }

    /// The image to save.  This is the capture path; editing an existing
    /// artifact decodes a file and is the outside shell's work.
    pub fn get_image(&mut self) -> (r: Option<Image>)
        requires
            old(self).spec_window() is Some,
            old(self).spec_settings().edit is None,
        ensures
            final(self).spec_settings() == old(self).spec_settings(),
            final(self).spec_window() is Some,
    {
        self.capture()
    }

    /// Record frames synchronously, paced at the configured rate, until
    /// the stop signal fires or the configured time budget runs out.  A
    /// configuration whose budget is zero owes a successful, empty
    /// recording, whatever the outside capabilities answer.
    pub fn record<P: Pacer, S: StopSignal>(&mut self, pacer: &mut P, stop: &mut S) -> (r: Result<
        Vec<Frame>,
        RecordError,
    >)
        requires
            old(self).spec_window() is Some,
        ensures
            final(self).spec_settings() == old(self).spec_settings(),
            final(self).spec_window() is Some,
            r matches Err(e) ==> e == RecordError::SourceUnavailable,
            r matches Ok(v) ==> spec_is_run_frames(
                spec_clock(old(self).spec_settings().fps),
                frames_model(v@),
            ),
            spec_budget_nanos(old(self).spec_settings()) == 0 ==> (r matches Ok(v)
                && frames_model(v@).len() == 0),
    {
        let budget = budget_nanos(&self.settings);
        let recorder = Recorder::new(self.settings.fps);
        match &mut self.window {
            Some(w) => recorder.record_sync(w, pacer, stop, budget),
            None => unreached(),
        }
    }

    /// The application output: a frame sequence for an animation, a
    /// single image for a still — the configured format decides, nothing
    /// else does.
    pub fn get_output<P: Pacer, S: StopSignal>(&mut self, pacer: &mut P, stop: &mut S) -> (r:
        Result<(Option<Image>, Option<(Vec<Frame>, u32)>), RecordError>)
        requires
            old(self).spec_window() is Some,
            old(self).spec_settings().edit is None,
        ensures
            final(self).spec_settings() == old(self).spec_settings(),
            r matches Ok(out) ==> ((out.1 is Some) <==> old(self).spec_settings().save.file.format
                == FileFormat::Gif),
            r matches Ok(out) ==> (out.0 is Some ==> old(self).spec_settings().save.file.format
                != FileFormat::Gif),
            r matches Ok(out) ==> (out.1 matches Some(f) ==> f.1 == old(
                self,
            ).spec_settings().fps),
            r matches Ok(out) ==> (out.1 matches Some(f) ==> spec_is_run_frames(
                spec_clock(old(self).spec_settings().fps),
                frames_model(f.0@),
            )),
            r matches Err(e) ==> e == RecordError::SourceUnavailable,
            old(self).spec_settings().save.file.format != FileFormat::Gif ==> r is Ok,
            old(self).spec_settings().save.file.format == FileFormat::Gif && spec_budget_nanos(
                old(self).spec_settings(),
            ) == 0 ==> r is Ok,
    {
        if self.settings.save.file.format == FileFormat::Gif {
            let fps = self.settings.fps;
            match self.record(pacer, stop) {
                Ok(frames) => Ok((None, Some((frames, fps)))),
                Err(e) => Err(e),
            }
        } else {
            Ok((self.get_image(), None))
        }
    }

    /// Validate a frame sequence before it goes to an animation sink: it
    /// must exist and be non-empty, and the canvas geometry is the first
    /// frame's.  All frames of one recording are expected to share that
    /// geometry; a frame that does not is the caller's bug and passes
    /// through unchanged, for the sink to refuse.
    pub fn save_gif(&self, frames: Option<(Vec<Frame>, u32)>) -> (r: Result<GifPlan, AppError>)
        ensures
            r is Ok <==> (frames matches Some(f) && f.0@.len() > 0),
            frames matches Some(f) ==> f.0@.len() > 0 ==> (r matches Ok(p) && p.frames@ == f.0@
                && p.fps == f.1 && p.geometry == f.0@[0]@.image.geometry),
            r is Err ==> r == Err::<GifPlan, AppError>(AppError::NoFrames),
    {
        match frames {
            Some((v, fps)) => {
                if v.len() == 0 {
                    Err(AppError::NoFrames)
                } else {
                    let geometry = v[0].image.geometry;
                    Ok(GifPlan { frames: v, fps, geometry })
                }
            },
            None => Err(AppError::NoFrames),
        }
    }

    /// Validate a still image before it goes to an encoder: it must be
    /// present, and the pixel layout is the configured format's.
    pub fn save_image(&self, image: Option<Image>) -> (r: Result<StillPlan, AppError>)
        ensures
            r is Ok <==> image is Some,
            image matches Some(i) ==> (r matches Ok(p) && p.image@ == i@ && p.color
                == spec_color_mode(self.spec_settings().save.file.format)),
            r is Err ==> r == Err::<StillPlan, AppError>(AppError::NoImage),
    {
        match image {
            Some(i) => Ok(StillPlan { image: i, color: self.settings.save.file.format.color_mode() }),
            None => Err(AppError::NoImage),
        }
    }

    /// Hand the window back to its window system once the run is over.
    pub fn release(&mut self)
        ensures
            final(self).spec_settings() == old(self).spec_settings(),
    {
        match &mut self.window {
            Some(w) => w.release(),
            None => {},
        }
    }
}

} // verus!
