//! The capture loop and the recording hand-off protocol.
//!
//! A [`Recorder`] owns a pacing clock.  Starting it yields a [`Record`]: the
//! state of one recording session.  The session advances one loop iteration
//! at a time through [`Record::step`], which takes what only the outside
//! world knows — how much time really passed and what the image source
//! returned — and decides everything else: whether to stop, whether the
//! recording failed, and which frame to append with which delay.
//!
//! A driver runs the loop.  In synchronous mode [`Recorder::record_sync`]
//! is the driver, pacing and capturing through the [`ImageSource`],
//! [`Pacer`] and [`StopSignal`] capabilities on the caller's own thread.
//! In background mode an outside driver moves the session onto a worker,
//! keeps stepping it, forwards a one-shot stop request to
//! [`Record::finish`], and hands the terminated session back for retrieval
//! with [`Record::get`] or [`Record::join`].

use vstd::pervasive::unreached;
use vstd::prelude::*;

use crate::clock::{spec_clock, spec_delay, spec_total_tick, ClockView, FpsClock, TimeUnit};
use crate::image::{frames_model, lemma_frames_model_push, Frame, FrameView, Image, ImageView};

verus! {

/// The capability that yields one still image on demand, implemented by a
/// window system outside the library.  `get_image` returns `None` when the
/// source is unavailable, which is fatal for a running recording.
pub trait ImageSource {
    fn get_image(&mut self) -> Option<Image>;

    fn show_countdown(&mut self);

    fn release(&mut self);
}

/// The capability that suspends the calling thread to pace the loop: given
/// the target frame interval in nanoseconds, it sleeps out the remainder of
/// the current tick and reports how many nanoseconds really passed since
/// the previous call.  Implemented over a real clock outside the library,
/// or over a virtual one in tests.
pub trait Pacer {
    fn wait(&mut self, interval: u64) -> u64;
}

/// The stop predicate of synchronous mode: an abstract "stop requested"
/// input state, polled once per loop iteration and never blocked on.
pub trait StopSignal {
    fn check(&mut self) -> bool;
}

/// Where a recording session stands.
#[derive(Clone, Copy, PartialEq, Eq, Structural, Debug)]
pub enum RecordPhase {
    /// The capture loop would run another iteration.
    Running,
    /// The session observed its stop request and terminated cleanly.
    Stopped,
    /// The image source reported unavailable; the recording is broken.
    Failed,
}

/// The failures a recording session can report.
#[derive(Clone, Copy, PartialEq, Eq, Structural, Debug)]
pub enum RecordError {
    /// The image source returned no image mid-recording.
    SourceUnavailable,
    /// The one-shot stop notification was sent a second time.
    AlreadyFinished,
    /// The stop notification found no running session to deliver to.
    ChannelClosed,
}

/// Mathematical state of a recording session.
#[verifier::ext_equal]
pub struct RecordModel {
    /// The pacing clock state.
    pub clock: ClockView,
    /// Every frame captured so far, in capture order.
    pub frames: Seq<FrameView>,
    /// A stop request has been sent and not yet observed by the loop.
    pub cancel_requested: bool,
    /// The one-shot stop notification has been used.
    pub finish_sent: bool,
    /// Where the session stands.
    pub phase: RecordPhase,
}

/// The image an `Option<Image>` holds, as mathematical content.
pub open spec fn image_option_model(image: Option<Image>) -> Option<ImageView> {
    match image {
        Some(i) => Some(i@),
        None => None,
    }
}

/// One iteration of the capture loop, as a function of the session state
/// and of what the outside world supplied: the measured elapsed time and
/// the image source's answer.
///
/// A pending stop request wins over everything: the session stops cleanly
/// and keeps the frames collected so far.  Otherwise an image is appended
/// with the delay the clock derives from this tick, and a missing image
/// ends the recording as failed — a tick never silently skips a frame.
pub open spec fn step_model(m: RecordModel, elapsed: u64, image: Option<ImageView>) -> RecordModel {
    if m.cancel_requested {
        RecordModel { phase: RecordPhase::Stopped, ..m }
    } else {
        match image {
            Some(img) => RecordModel {
                clock: ClockView {
                    last_tick: spec_total_tick(m.clock.interval, elapsed),
                    ..m.clock
                },
                frames: m.frames.push(
                    FrameView {
                        image: img,
                        delay: spec_delay(spec_total_tick(m.clock.interval, elapsed)),
                    },
                ),
                ..m
            },
            None => RecordModel { phase: RecordPhase::Failed, ..m },
        }
    }
}

/// Whether a frame sequence is exactly what some run of the capture loop
/// collects, starting from a fresh session around the given clock: one
/// frame per tick, in order, each with the delay its tick's elapsed time
/// derives (see [`lemma_capture_order`]).
pub open spec fn spec_is_run_frames(clock: ClockView, frames: Seq<FrameView>) -> bool {
    exists|ticks: Seq<(u64, ImageView)>|
        frames == run_model(spec_fresh(clock), ticks).frames
}

/// A session that has just started: no frame captured, no stop requested,
/// the loop ready to run.
pub open spec fn spec_fresh(clock: ClockView) -> RecordModel {
    RecordModel {
        clock,
        frames: Seq::<FrameView>::empty(),
        cancel_requested: false,
        finish_sent: false,
        phase: RecordPhase::Running,
    }
}

/// The state of one recording session: the worker's side of the protocol
/// together with the one-shot stop channel shared with the caller.
#[derive(Debug)]
pub struct Record {
    clock: FpsClock,
    frames: Vec<Frame>,
    cancel_requested: bool,
    finish_sent: bool,
    phase: RecordPhase,
}

impl View for Record {
    type V = RecordModel;

    closed spec fn view(&self) -> RecordModel {
        RecordModel {
            clock: self.clock@,
            frames: frames_model(self.frames@),
            cancel_requested: self.cancel_requested,
            finish_sent: self.finish_sent,
            phase: self.phase,
        }
    }
}

impl Record {
    /// Create a fresh running session around a pacing clock, with no frame
    /// captured and no stop requested yet.
    pub fn new(clock: FpsClock) -> (r: Record)
        ensures
            r@ == spec_fresh(clock@),
    {
        let r = Record {
            clock,
            frames: Vec::new(),
            cancel_requested: false,
            finish_sent: false,
            phase: RecordPhase::Running,
        };
        proof {
            assert(r@ =~= spec_fresh(clock@));
        }
        r
    }

    /// Whether the capture loop would run another iteration.
    pub fn is_running(&self) -> (r: bool)
        ensures
            r == (self@.phase == RecordPhase::Running),
    {
        match self.phase {
            RecordPhase::Running => true,
            _ => false,
        }
    }

    /// Advance the session by one loop iteration: observe a pending stop
    /// request, or pair the captured image with the delay derived from this
    /// tick's elapsed time, or fail because the source was unavailable.
    /// Returns the phase the session is in afterwards.
    pub fn step(&mut self, elapsed: u64, image: Option<Image>) -> (phase: RecordPhase)
        requires
            old(self)@.phase == RecordPhase::Running,
        ensures
            final(self)@ == step_model(old(self)@, elapsed, image_option_model(image)),
            phase == final(self)@.phase,
    {
        if self.cancel_requested {
            self.phase = RecordPhase::Stopped;
            proof {
                assert(self@ =~= step_model(
                    old(self)@,
                    elapsed,
                    image_option_model(image),
                ));
            }
            return RecordPhase::Stopped;
        }
        match image {
            Some(img) => {
                let ghost prev = self@;
                let total = self.clock.tick(elapsed);
                let delay = self.clock.delay();
                let frame = Frame::new(img, delay);
                let ghost frame_view = frame@;
                self.frames.push(frame);
                proof {
                    lemma_frames_model_push(old(self).frames@, frame);
                    assert(self@ =~= step_model(
                        old(self)@,
                        elapsed,
                        image_option_model(image),
                    ));
                }
                RecordPhase::Running
            },
            None => {
                self.phase = RecordPhase::Failed;
                proof {
                    assert(self@ =~= step_model(
                        old(self)@,
                        elapsed,
                        image_option_model(image),
                    ));
                }
                RecordPhase::Failed
            },
        }
    }

    /// Send the one-shot stop notification.  The first send on a running
    /// session succeeds and will be observed by the next step; a second
    /// send is a caller error and is reported, not acted on; a send after
    /// the session already terminated finds the channel closed.
    pub fn finish(&mut self) -> (r: Result<(), RecordError>)
        ensures
            old(self)@.finish_sent ==> r == Err::<(), RecordError>(RecordError::AlreadyFinished)
                && final(self)@ == old(self)@,
            !old(self)@.finish_sent && old(self)@.phase != RecordPhase::Running ==> r == Err::<
                (),
                RecordError,
            >(RecordError::ChannelClosed) && final(self)@ == old(self)@,
            !old(self)@.finish_sent && old(self)@.phase == RecordPhase::Running ==> r == Ok::<
                (),
                RecordError,
            >(()) && final(self)@ == (RecordModel {
                cancel_requested: true,
                finish_sent: true,
                ..old(self)@
            }),
    {
        if self.finish_sent {
            Err(RecordError::AlreadyFinished)
        } else {
            match self.phase {
                RecordPhase::Running => {
                    self.cancel_requested = true;
                    self.finish_sent = true;
                    Ok(())
                },
                _ => Err(RecordError::ChannelClosed),
            }
        }
    }

    /// Non-blocking retrieval: nothing while the loop is still running;
    /// once terminated, the completed frame sequence, or the capture
    /// failure — a broken recording is reported, never silently truncated.
    pub fn get(self) -> (r: Option<Result<Vec<Frame>, RecordError>>)
        ensures
            self@.phase == RecordPhase::Running <==> r is None,
            self@.phase == RecordPhase::Stopped ==> (r matches Some(Ok(frames))
                && frames_model(frames@) == self@.frames),
            self@.phase == RecordPhase::Failed ==> r == Some(
                Err::<Vec<Frame>, RecordError>(RecordError::SourceUnavailable),
            ),
    {
        match self.phase {
            RecordPhase::Running => None,
            RecordPhase::Stopped => Some(Ok(self.frames)),
            RecordPhase::Failed => Some(Err(RecordError::SourceUnavailable)),
        }
    }

    /// Blocking retrieval of the deterministic session: the caller has
    /// driven (or observed) the session to termination, and takes the
    /// completed frame sequence or the capture failure.
    pub fn join(self) -> (r: Result<Vec<Frame>, RecordError>)
        requires
            self@.phase != RecordPhase::Running,
        ensures
            self@.phase == RecordPhase::Stopped ==> (r matches Ok(frames) && frames_model(frames@)
                == self@.frames),
            self@.phase == RecordPhase::Failed ==> r == Err::<Vec<Frame>, RecordError>(
                RecordError::SourceUnavailable,
            ),
    {
        match self.phase {
            RecordPhase::Running => Err(RecordError::ChannelClosed),
            RecordPhase::Stopped => Ok(self.frames),
            RecordPhase::Failed => Err(RecordError::SourceUnavailable),
        }
    }
}

/// A recorder: the pacing clock for one recording, ready to start.
#[derive(Debug)]
pub struct Recorder {
    clock: FpsClock,
}

impl View for Recorder {
    type V = ClockView;

    closed spec fn view(&self) -> ClockView {
        self.clock@
    }
}

impl Recorder {
    /// Create a recorder pacing at the requested frame rate (zero means
    /// uncapped).
    pub fn new(fps: u32) -> (r: Recorder)
        ensures
            r@ == spec_clock(fps),
    {
        Recorder { clock: FpsClock::new(fps) }
    }

    /// Start recording: hand out the session that a background driver will
    /// step on a worker, while the caller keeps the means to stop it.
    pub fn record(self) -> (r: Record)
        ensures
            r@ == spec_fresh(self@),
    {
        Record::new(self.clock)
    }

    /// Record synchronously on the caller's thread until the stop signal
    /// fires or the time budget runs out, pacing each iteration through the
    /// pacer and capturing through the image source.
    ///
    /// Edge policy, fixed: the stop signal is polled before each capture,
    /// so a signal that is already set yields an empty frame sequence and
    /// the call returns without capturing.  The budget is in nanoseconds
    /// and each tick consumes at least one, so the loop always terminates;
    /// a zero budget owes a successful, empty recording whatever the stop
    /// signal and the source answer.  The only failure is a source that
    /// reports unavailable mid-recording, and a returned sequence is
    /// exactly the frames of some run of the capture loop over the ticks
    /// that really happened.
    #[verifier::loop_isolation(false)]
    pub fn record_sync<W: ImageSource, P: Pacer, S: StopSignal>(
        self,
        window: &mut W,
        pacer: &mut P,
        stop: &mut S,
        budget: u64,
    ) -> (r: Result<Vec<Frame>, RecordError>)
        ensures
            r matches Err(e) ==> e == RecordError::SourceUnavailable,
            r matches Ok(frames) ==> spec_is_run_frames(self@, frames_model(frames@)),
            budget == 0 ==> (r matches Ok(frames) && frames_model(frames@).len() == 0),
    {
        let interval = self.clock.get_fps(TimeUnit::Nanosecond);
        let ghost clock0 = self@;
        let ghost start = spec_fresh(clock0);
        let mut record = self.record();
        let ghost mut ticks: Seq<(u64, ImageView)> = Seq::empty();
        let mut remaining: u64 = budget;
        loop
            invariant
                record@.phase == RecordPhase::Running,
                !record@.cancel_requested,
                !record@.finish_sent,
                record@ == run_model(start, ticks),
                remaining <= budget,
                budget == 0 ==> record@.frames.len() == 0,
            decreases remaining,
        {
            if stop.check() || remaining == 0 {
                match record.finish() {
                    Ok(_) => {},
                    Err(_) => unreached(),
                }
                let _ = record.step(0, None);
                match record.get() {
                    Some(Ok(frames)) => {
                        proof {
                            assert(frames_model(frames@) == run_model(
                                spec_fresh(clock0),
                                ticks,
                            ).frames);
                            assert(spec_is_run_frames(clock0, frames_model(frames@)));
                        }
                        return Ok(frames);
                    },
                    _ => {
                        return unreached();
                    },
                }
            }
            let elapsed = pacer.wait(interval);
            let image = window.get_image();
            let ghost image_model = image_option_model(image);
            match record.step(elapsed, image) {
                RecordPhase::Running => {
                    proof {
                        let iv = choose|iv: ImageView| image_model == Some(iv);
                        lemma_run_snoc(start, ticks, (elapsed, iv));
                        ticks = ticks.push((elapsed, iv));
                    }
                },
                _ => {
                    return Err(RecordError::SourceUnavailable);
                },
            }
            let charge: u64 = if elapsed == 0 {
                1
            } else {
                elapsed
            };
            remaining = if charge >= remaining {
                0
            } else {
                remaining - charge
            };
        }
    }
}

/// A whole run of the capture loop: the session after stepping through a
/// sequence of ticks, each supplying its measured elapsed time and the
/// image the source returned.
pub open spec fn run_model(m: RecordModel, ticks: Seq<(u64, ImageView)>) -> RecordModel
    decreases ticks.len(),
{
    if ticks.len() == 0 {
        m
    } else {
        run_model(step_model(m, ticks[0].0, Some(ticks[0].1)), ticks.drop_first())
    }
}

/// A run extended by one tick is the run followed by one step.
pub proof fn lemma_run_snoc(m: RecordModel, ticks: Seq<(u64, ImageView)>, t: (u64, ImageView))
    ensures
        run_model(m, ticks.push(t)) == step_model(run_model(m, ticks), t.0, Some(t.1)),
    decreases ticks.len(),
{
    if ticks.len() == 0 {
        assert(ticks.push(t)[0] == t);
        assert(ticks.push(t).drop_first() =~= Seq::<(u64, ImageView)>::empty());
        assert(run_model(m, ticks.push(t)) == run_model(
            step_model(m, t.0, Some(t.1)),
            Seq::<(u64, ImageView)>::empty(),
        ));
        assert(run_model(step_model(m, t.0, Some(t.1)), Seq::<(u64, ImageView)>::empty())
            == step_model(m, t.0, Some(t.1)));
    } else {
        assert(ticks.push(t)[0] == ticks[0]);
        assert(ticks.push(t).drop_first() =~= ticks.drop_first().push(t));
        lemma_run_snoc(step_model(m, ticks[0].0, Some(ticks[0].1)), ticks.drop_first(), t);
    }
}

/// Capture order is preserved: a run over any sequence of successful ticks
/// appends exactly one frame per tick, keeps every earlier frame untouched,
/// and the i-th new frame holds the i-th image handed in, with the delay
/// the clock derives from that tick's elapsed time.
pub proof fn lemma_capture_order(m: RecordModel, ticks: Seq<(u64, ImageView)>)
    requires
        m.phase == RecordPhase::Running,
        !m.cancel_requested,
    ensures
        run_model(m, ticks).phase == RecordPhase::Running,
        !run_model(m, ticks).cancel_requested,
        run_model(m, ticks).finish_sent == m.finish_sent,
        run_model(m, ticks).clock.interval == m.clock.interval,
        run_model(m, ticks).frames.len() == m.frames.len() + ticks.len(),
        forall|i: int|
            0 <= i < m.frames.len() ==> run_model(m, ticks).frames[i] == m.frames[i],
        forall|i: int|
            0 <= i < ticks.len() ==> run_model(m, ticks).frames[m.frames.len() + i]
                == (FrameView {
                image: ticks[i].1,
                delay: spec_delay(spec_total_tick(m.clock.interval, ticks[i].0)),
            }),
    decreases ticks.len(),
{
    if ticks.len() > 0 {
        let m1 = step_model(m, ticks[0].0, Some(ticks[0].1));
        let rest = ticks.drop_first();
        lemma_capture_order(m1, rest);
        assert forall|i: int| 0 <= i < m.frames.len() implies run_model(m, ticks).frames[i]
            == m.frames[i] by {
            assert(m1.frames[i] == m.frames[i]);
            assert(run_model(m1, rest).frames[i] == m1.frames[i]);
        }
        assert forall|i: int| 0 <= i < ticks.len() implies run_model(m, ticks).frames[m.frames.len()
            + i] == (FrameView {
            image: ticks[i].1,
            delay: spec_delay(spec_total_tick(m.clock.interval, ticks[i].0)),
        }) by {
            if i == 0 {
                assert(run_model(m, ticks).frames[m.frames.len() as int] == m1.frames[m.frames.len() as int]);
            } else {
                assert(rest[i - 1] == ticks[i]);
                assert(run_model(m1, rest).frames[m1.frames.len() + (i - 1)] == (FrameView {
                    image: rest[i - 1].1,
                    delay: spec_delay(spec_total_tick(m1.clock.interval, rest[i - 1].0)),
                }));
            }
        }
    }
}

/// Once the stop request is pending, the very next step terminates the
/// session cleanly — retrieval after `finish` never blocks on more than
/// one loop iteration — and the frames collected so far are kept,
/// whatever the tick would have supplied.
pub proof fn lemma_finish_stops(m: RecordModel, elapsed: u64, image: Option<ImageView>)
    requires
        m.cancel_requested,
    ensures
        step_model(m, elapsed, image).phase == RecordPhase::Stopped,
        step_model(m, elapsed, image).frames == m.frames,
{
}

/// The edge policy of synchronous mode, stated over the model: a stop
/// request that is already pending when a fresh session would take its
/// first tick terminates it cleanly with the empty frame sequence,
/// whatever that tick would have supplied — so a stop predicate that is
/// already true yields a recording of length zero, without suspending.
pub proof fn lemma_stop_before_first_capture(
    clock: ClockView,
    elapsed: u64,
    image: Option<ImageView>,
)
    ensures
        ({
            let m = RecordModel {
                cancel_requested: true,
                finish_sent: true,
                ..spec_fresh(clock)
            };
            step_model(m, elapsed, image).phase == RecordPhase::Stopped && step_model(
                m,
                elapsed,
                image,
            ).frames.len() == 0
        }),
{
}

/// A source that reports unavailable fails the recording on that very
/// tick: no frame is appended and the session terminates as failed, which
/// retrieval reports as an error rather than a truncated sequence.
pub proof fn lemma_source_failure(m: RecordModel, elapsed: u64)
    requires
        !m.cancel_requested,
    ensures
        step_model(m, elapsed, None).phase == RecordPhase::Failed,
        step_model(m, elapsed, None).frames == m.frames,
{
}

} // verus!
