//! Tests of the pacing clock, the recording session and the orchestrator.

use framecap::app::{
    capture_mode, conclude_capture, conclude_recording, App, AppError, CaptureMode,
};
use framecap::clock::{FpsClock, TimeUnit};
use framecap::file::{ColorMode, File, FileFormat};
use framecap::image::{Frame, Geometry, Image, Padding};
use framecap::record::{
    ImageSource, Pacer, RecordError, RecordPhase, Recorder, StopSignal,
};
use framecap::settings::{
    AppSettings, RecordFlag, RecordSettings, RecordTime, RecordWindow, SaveSettings,
};

/// A deterministic source: returns images numbered by call, or nothing
/// from a chosen tick on.
struct SeqSource {
    n: u8,
    fail_at: Option<u8>,
}

impl SeqSource {
    fn new() -> Self {
        SeqSource { n: 0, fail_at: None }
    }

    fn failing_at(k: u8) -> Self {
        SeqSource { n: 0, fail_at: Some(k) }
    }
}

impl ImageSource for SeqSource {
    fn get_image(&mut self) -> Option<Image> {
        if self.fail_at == Some(self.n) {
            return None;
        }
        let image = Image::new(vec![self.n], Geometry::new(0, 0, 1, 1));
        self.n += 1;
        Some(image)
    }

    fn show_countdown(&mut self) {}

    fn release(&mut self) {}
}

/// A virtual pacer: every tick takes exactly the target interval.
struct ExactPacer;

impl Pacer for ExactPacer {
    fn wait(&mut self, interval: u64) -> u64 {
        interval
    }
}

/// A stop signal that fires after a fixed number of polls.
struct CountdownStop {
    remaining: u32,
}

impl StopSignal for CountdownStop {
    fn check(&mut self) -> bool {
        if self.remaining == 0 {
            true
        } else {
            self.remaining -= 1;
            false
        }
    }
}

fn black_pixel() -> Image {
    Image::new(vec![0, 0, 0, 255], Geometry::new(0, 0, 1, 1))
}

fn default_settings(format: FileFormat, fps: u32) -> AppSettings {
    AppSettings::new(
        SaveSettings::new(File::new(String::from("t.gif"), format, None)),
        RecordSettings::from_args(None, None),
        fps,
        None,
    )
}

#[test]
fn clock_intervals() {
    let clock = FpsClock::new(100);
    assert_eq!(clock.get_fps(TimeUnit::Nanosecond), 10_000_000);
    assert_eq!(clock.get_fps(TimeUnit::Millisecond), 10);
    let uncapped = FpsClock::new(0);
    assert_eq!(uncapped.get_fps(TimeUnit::Nanosecond), 0);
    assert_eq!(uncapped.get_fps(TimeUnit::Millisecond), 0);
    let unit = FpsClock::new(1);
    assert_eq!(unit.get_fps(TimeUnit::Nanosecond), 1_000_000_000);
}

#[test]
fn clock_tick_and_delay() {
    let mut clock = FpsClock::new(100);
    // A slow tick is charged its real elapsed time.
    assert_eq!(clock.tick(25_000_000), 25_000_000);
    assert_eq!(clock.delay(), 2);
    // A fast tick is charged the full interval.
    assert_eq!(clock.tick(1_000_000), 10_000_000);
    assert_eq!(clock.delay(), 1);
    assert_eq!(clock.sleep_time(4_000_000), 6_000_000);
    assert_eq!(clock.sleep_time(14_000_000), 0);
    // The delay saturates instead of wrapping.
    let mut slow = FpsClock::new(1);
    slow.tick(u64::MAX);
    assert_eq!(slow.delay(), u16::MAX);
}

#[test]
fn test_record_mod() {
    // One hundred frames per second, a 1x1 source, two ticks of virtual
    // time before the recording is finished and collected.
    let recorder = Recorder::new(100);
    let mut record = recorder.record();
    for _ in 0..2 {
        let phase = record.step(
            10_000_000,
            Some(Image::new(vec![0, 0, 0, 255, 255, 255], Geometry::new(0, 0, 1, 1))),
        );
        assert_eq!(phase, RecordPhase::Running);
    }
    record.finish().unwrap();
    assert_eq!(record.step(0, None), RecordPhase::Stopped);
    let frames = record.get().unwrap().unwrap();
    assert!(frames.len() > 0);
}

#[test]
fn background_finish_returns_frames() {
    // FPS 100, a source that always returns a 1x1 black image, 20 ms of
    // virtual time, then finish and join: a non-empty sequence whose
    // every frame has the 10 ms delay (one centisecond) and the same
    // geometry.
    let recorder = Recorder::new(100);
    let mut record = recorder.record();
    for _ in 0..2 {
        assert_eq!(record.step(10_000_000, Some(black_pixel())), RecordPhase::Running);
    }
    assert!(record.is_running());
    record.finish().unwrap();
    let phase = record.step(10_000_000, Some(black_pixel()));
    assert_eq!(phase, RecordPhase::Stopped);
    let frames = record.get().unwrap().unwrap();
    assert!(frames.len() >= 1);
    for frame in &frames {
        assert_eq!(frame.delay, 1);
        assert_eq!(frame.image.geometry, Geometry::new(0, 0, 1, 1));
    }
}

#[test]
fn capture_order_is_preserved() {
    let recorder = Recorder::new(100);
    let mut record = recorder.record();
    let mut source = SeqSource::new();
    for _ in 0..5 {
        let image = source.get_image();
        assert_eq!(record.step(10_000_000, image), RecordPhase::Running);
    }
    record.finish().unwrap();
    record.step(0, None);
    let frames = record.get().unwrap().unwrap();
    assert_eq!(frames.len(), 5);
    for (i, frame) in frames.iter().enumerate() {
        assert_eq!(frame.image.data, vec![i as u8]);
    }
}

#[test]
fn source_failure_is_reported() {
    // A source that goes unavailable on tick 2 must surface a failure,
    // not a sequence quietly cut short.
    let recorder = Recorder::new(100);
    let mut record = recorder.record();
    let mut source = SeqSource::failing_at(2);
    assert_eq!(record.step(10_000_000, source.get_image()), RecordPhase::Running);
    assert_eq!(record.step(10_000_000, source.get_image()), RecordPhase::Running);
    assert_eq!(record.step(10_000_000, source.get_image()), RecordPhase::Failed);
    match record.get() {
        Some(Err(RecordError::SourceUnavailable)) => {}
        other => panic!("expected a source failure, got {:?}", other),
    }
}

#[test]
fn finish_twice_is_an_error() {
    let recorder = Recorder::new(30);
    let mut record = recorder.record();
    assert!(record.finish().is_ok());
    assert_eq!(record.finish(), Err(RecordError::AlreadyFinished));
}

#[test]
fn finish_after_failure_finds_channel_closed() {
    let recorder = Recorder::new(30);
    let mut record = recorder.record();
    assert_eq!(record.step(0, None), RecordPhase::Failed);
    assert_eq!(record.finish(), Err(RecordError::ChannelClosed));
}

#[test]
fn get_while_running_returns_nothing() {
    let recorder = Recorder::new(30);
    let record = recorder.record();
    assert!(record.get().is_none());
}

#[test]
fn finish_terminates_for_common_rates() {
    // Whatever the rate, one step after finish suffices to terminate.
    for fps in [1u32, 30, 100] {
        let recorder = Recorder::new(fps);
        let mut record = recorder.record();
        assert_eq!(record.step(0, Some(black_pixel())), RecordPhase::Running);
        record.finish().unwrap();
        assert_eq!(record.step(0, None), RecordPhase::Stopped);
        let frames = record.join().unwrap();
        assert_eq!(frames.len(), 1);
    }
}

#[test]
fn sync_stop_already_true_yields_empty() {
    // The stop signal is polled before each capture, so a signal that is
    // already set means no frame at all.
    let recorder = Recorder::new(100);
    let mut source = SeqSource::new();
    let mut pacer = ExactPacer;
    let mut stop = CountdownStop { remaining: 0 };
    let frames = recorder
        .record_sync(&mut source, &mut pacer, &mut stop, u64::MAX)
        .unwrap();
    assert_eq!(frames.len(), 0);
}

#[test]
fn sync_one_tick_gives_one_frame() {
    // The other boundary: a stop signal that fires on the second poll
    // leaves exactly the one frame captured in between.
    let recorder = Recorder::new(100);
    let mut source = SeqSource::new();
    let mut pacer = ExactPacer;
    let mut stop = CountdownStop { remaining: 1 };
    let frames = recorder
        .record_sync(&mut source, &mut pacer, &mut stop, u64::MAX)
        .unwrap();
    assert_eq!(frames.len(), 1);
}

#[test]
fn sync_three_ticks_give_three_frames() {
    // FPS 1000, stop after exactly three polls: exactly three frames, in
    // capture order.
    let recorder = Recorder::new(1000);
    let mut source = SeqSource::new();
    let mut pacer = ExactPacer;
    let mut stop = CountdownStop { remaining: 3 };
    let frames = recorder
        .record_sync(&mut source, &mut pacer, &mut stop, u64::MAX)
        .unwrap();
    assert_eq!(frames.len(), 3);
    for (i, frame) in frames.iter().enumerate() {
        assert_eq!(frame.image.data, vec![i as u8]);
    }
}

#[test]
fn sync_budget_stops_the_loop() {
    // A never-firing signal still ends the recording once the budget is
    // spent: two 10 ms ticks fit in 20 ms.
    let recorder = Recorder::new(100);
    let mut source = SeqSource::new();
    let mut pacer = ExactPacer;
    let mut stop = CountdownStop { remaining: u32::MAX };
    let frames = recorder
        .record_sync(&mut source, &mut pacer, &mut stop, 20_000_000)
        .unwrap();
    assert_eq!(frames.len(), 2);
}

#[test]
fn sync_source_failure_is_an_error() {
    let recorder = Recorder::new(100);
    let mut source = SeqSource::failing_at(2);
    let mut pacer = ExactPacer;
    let mut stop = CountdownStop { remaining: u32::MAX };
    let outcome = recorder.record_sync(&mut source, &mut pacer, &mut stop, u64::MAX);
    assert_eq!(outcome.unwrap_err(), RecordError::SourceUnavailable);
}

#[test]
fn app_output_follows_the_format() {
    // An animation format records frames; a still format captures one
    // image; nothing else decides.
    let mut app = App::new(Some(SeqSource::new()), default_settings(FileFormat::Gif, 100));
    let mut pacer = ExactPacer;
    let mut stop = CountdownStop { remaining: 2 };
    let (image, frames) = app.get_output(&mut pacer, &mut stop).unwrap();
    assert!(image.is_none());
    let (frames, fps) = frames.unwrap();
    assert_eq!(fps, 100);
    assert_eq!(frames.len(), 2);

    let mut app = App::new(Some(SeqSource::new()), default_settings(FileFormat::Png, 100));
    let mut stop = CountdownStop { remaining: 2 };
    let (image, frames) = app.get_output(&mut pacer, &mut stop).unwrap();
    assert!(frames.is_none());
    assert_eq!(image.unwrap().data, vec![0]);
}

#[test]
fn app_record_respects_duration_budget() {
    let mut settings = default_settings(FileFormat::Gif, 100);
    settings.record.time = RecordTime::new(Some(30), 3, 300, 10);
    let mut app = App::new(Some(SeqSource::new()), settings);
    let mut pacer = ExactPacer;
    let mut stop = CountdownStop { remaining: u32::MAX };
    let frames = app.record(&mut pacer, &mut stop).unwrap();
    // Three 10 ms ticks fit in the 30 ms duration.
    assert_eq!(frames.len(), 3);
}

#[test]
fn capture_mode_follows_the_command() {
    let mut settings = default_settings(FileFormat::Gif, 10);
    assert_eq!(capture_mode(&settings), CaptureMode::Synchronous);
    settings.record.command = Some(String::from("true"));
    assert_eq!(capture_mode(&settings), CaptureMode::Background);
}

#[test]
fn command_failure_discards_the_recording() {
    let frames = vec![Frame::new(black_pixel(), 1)];
    match conclude_recording(false, Ok(frames)) {
        Err(AppError::CommandFailed) => {}
        other => panic!("expected a command failure, got {:?}", other),
    }
    match conclude_recording(true, Err(RecordError::SourceUnavailable)) {
        Err(AppError::Capture(RecordError::SourceUnavailable)) => {}
        other => panic!("expected a capture failure, got {:?}", other),
    }
    let kept = conclude_recording(true, Ok(vec![Frame::new(black_pixel(), 1)])).unwrap();
    assert_eq!(kept.len(), 1);
}

#[test]
fn command_failure_discards_the_still() {
    match conclude_capture(false, Some(black_pixel())) {
        Err(AppError::CommandFailed) => {}
        other => panic!("expected a command failure, got {:?}", other),
    }
    let kept = conclude_capture(true, Some(black_pixel())).unwrap().unwrap();
    assert_eq!(kept.data, vec![0, 0, 0, 255]);
}

#[test]
fn save_image_validates_presence_and_layout() {
    let app: App<SeqSource> = App::new(None, default_settings(FileFormat::Jpg, 10));
    match app.save_image(None) {
        Err(AppError::NoImage) => {}
        other => panic!("expected a missing image, got {:?}", other),
    }
    let plan = app.save_image(Some(black_pixel())).unwrap();
    assert_eq!(plan.color, ColorMode::Rgb8);
    assert_eq!(plan.image.data, vec![0, 0, 0, 255]);
    let png: App<SeqSource> = App::new(None, default_settings(FileFormat::Png, 10));
    assert_eq!(png.save_image(Some(black_pixel())).unwrap().color, ColorMode::Rgba8);
}

#[test]
fn zero_budget_recording_is_empty_and_clean() {
    // A zero time budget owes a clean, empty recording whatever the stop
    // signal and source would have said.
    let recorder = Recorder::new(100);
    let mut source = SeqSource::new();
    let mut pacer = ExactPacer;
    let mut stop = CountdownStop { remaining: u32::MAX };
    let frames = recorder
        .record_sync(&mut source, &mut pacer, &mut stop, 0)
        .unwrap();
    assert_eq!(frames.len(), 0);
}

#[test]
fn save_gif_refuses_an_empty_recording() {
    let app: App<SeqSource> = App::new(None, default_settings(FileFormat::Gif, 10));
    assert_eq!(app.save_gif(None).unwrap_err(), AppError::NoFrames);
    assert_eq!(app.save_gif(Some((Vec::new(), 10))).unwrap_err(), AppError::NoFrames);
}

#[test]
fn save_gif_takes_geometry_from_the_first_frame() {
    let app: App<SeqSource> = App::new(None, default_settings(FileFormat::Gif, 10));
    let frames = vec![
        Frame::new(Image::new(vec![1, 2, 3], Geometry::new(0, 0, 2, 3)), 1),
        Frame::new(Image::new(vec![4, 5, 6], Geometry::new(0, 0, 2, 3)), 1),
    ];
    let plan = app.save_gif(Some((frames, 20))).unwrap();
    assert_eq!(plan.fps, 20);
    assert_eq!(plan.geometry, Geometry::new(0, 0, 2, 3));
    assert_eq!(plan.frames.len(), 2);
    assert_eq!(plan.frames[0].image.data, vec![1, 2, 3]);
}

#[test]
fn default_record_settings_hold() {
    let settings = RecordSettings::from_args(None, None);
    assert_eq!(settings.color, 0x003A_A431);
    assert_eq!(settings.border, Some(1));
    assert_eq!(settings.padding, Padding::new(0, 0, 0, 0));
    assert_eq!(settings.time, RecordTime::new(None, 3, 300, 10));
    assert_eq!(
        settings.window,
        RecordWindow::Focus(Some(Geometry::new(0, 0, 0, 0)), false)
    );
    assert!(settings.command.is_none());
    let flag: &RecordFlag = &settings.flag;
    assert_eq!(flag.action_keys.as_deref(), Some(""));
    assert_eq!(flag.cancel_keys.as_deref(), Some(""));
    assert!(flag.select);
    assert!(!flag.alpha);
}
