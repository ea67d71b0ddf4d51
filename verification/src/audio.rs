//! Voice-activity detection: turns a stream of sample blocks into utterances.
//!
//! The segmenter is a two-state machine (silent / recording) driven by the
//! loudness of each block and by a monotonic clock in milliseconds that the
//! caller reads and hands in.

use vstd::prelude::*;
use crate::level::{level, level_of, level_of_is_level};

verus! {

/// What the segmenter reports for a block of samples.
#[derive(Debug, Clone, PartialEq, Eq)]
pub enum AudioEvent {
    /// Loudness of the block that was just processed.
    Level(u16),
    /// Loudness rose above the voice threshold while silent.
    VoiceDetected,
    /// An utterance has begun.
    RecordingStarted,
    /// An utterance has ended; carries all its samples.
    RecordingStopped(Vec<i16>),
    /// Loudness fell below the silence threshold while recording.
    SilenceDetected,
    /// The capture device reported a fault.
    Error(String),
}

/// Mathematical value of an `AudioEvent`.
pub enum EventView {
    Level(u16),
    VoiceDetected,
    RecordingStarted,
    RecordingStopped(Seq<i16>),
    SilenceDetected,
    Error(Seq<char>),
}

impl View for AudioEvent {
    type V = EventView;

    open spec fn view(&self) -> EventView {
        match *self {
            AudioEvent::Level(l) => EventView::Level(l),
            AudioEvent::VoiceDetected => EventView::VoiceDetected,
            AudioEvent::RecordingStarted => EventView::RecordingStarted,
            AudioEvent::RecordingStopped(samples) => EventView::RecordingStopped(samples@),
            AudioEvent::SilenceDetected => EventView::SilenceDetected,
            AudioEvent::Error(message) => EventView::Error(message@),
        }
    }
}

/// The values of a list of events, in order.
pub open spec fn event_views(events: Seq<AudioEvent>) -> Seq<EventView> {
    events.map_values(|e: AudioEvent| e@)
}

/// The tunable parameters of the segmenter, fixed when it is built.
pub struct VadParams {
    /// Loudness above which a silent segmenter starts recording.
    pub voice_threshold: u16,
    /// Loudness below which a recording segmenter counts the block as silence.
    pub silence_threshold: u16,
    /// How long silence must last before the utterance ends, in milliseconds.
    pub silence_duration_ms: u64,
    /// Shortest utterance that is reported, in milliseconds.
    pub min_speech_duration_ms: u64,
    /// Samples per second.
    pub sample_rate: u32,
}

/// The changing part of the segmenter.
pub struct VadState {
    /// Whether an utterance is being recorded.
    pub recording: bool,
    /// The samples of the utterance so far.
    pub buffer: Seq<i16>,
    /// When the running silence began, if the last block was silent.
    pub silence_start: Option<u64>,
    /// When the utterance began.
    pub recording_start: Option<u64>,
}

impl VadState {
    /// The silent state: nothing buffered, no timer running.
    pub open spec fn silent() -> VadState {
        VadState { recording: false, buffer: Seq::empty(), silence_start: None, recording_start: None }
    }

    /// A silent segmenter holds nothing; a recording one knows when it began.
    pub open spec fn wf(self) -> bool {
        if self.recording {
            self.recording_start.is_some()
        } else {
            self == VadState::silent()
        }
    }
}

/// Time from `since` to `now` on the monotonic clock; zero if `now` is earlier.
pub open spec fn elapsed_ms(now: u64, since: u64) -> int {
    if now >= since {
        now - since
    } else {
        0
    }
}

/// What a recording segmenter does when silence has lasted long enough at
/// time `now`: report the utterance if it is long enough, else drop it.
pub open spec fn finish(p: VadParams, buffer: Seq<i16>, started: u64, now: u64) -> Seq<EventView> {
    if elapsed_ms(now, started) >= p.min_speech_duration_ms {
        seq![EventView::RecordingStopped(buffer)]
    } else {
        Seq::empty()
    }
}

/// One step of the segmenter: the state after a block of samples arrives at
/// time `now`, and the events it reports for that block, in order.
pub open spec fn step(p: VadParams, s: VadState, samples: Seq<i16>, now: u64) -> (
    VadState,
    Seq<EventView>,
) {
    let rms = level_of(samples) as u16;
    let first = seq![EventView::Level(rms)];
    if !s.recording {
        if rms > p.voice_threshold {
            (
                VadState {
                    recording: true,
                    buffer: samples,
                    silence_start: None,
                    recording_start: Some(now),
                },
                first + seq![EventView::VoiceDetected, EventView::RecordingStarted],
            )
        } else {
            (s, first)
        }
    } else {
        let buffer = s.buffer + samples;
        if rms < p.silence_threshold {
            match (s.silence_start, s.recording_start) {
                (None, _) => (
                    VadState { buffer, silence_start: Some(now), ..s },
                    first + seq![EventView::SilenceDetected],
                ),
                (Some(since), Some(started)) => {
                    if elapsed_ms(now, since) >= p.silence_duration_ms {
                        (VadState::silent(), first + finish(p, buffer, started, now))
                    } else {
                        (VadState { buffer, ..s }, first)
                    }
                },
                (Some(_), None) => (VadState { buffer, ..s }, first),
            }
        } else {
            (VadState { buffer, silence_start: None, ..s }, first)
        }
    }
}

/// A silent segmenter never holds samples: the step keeps the state well
/// formed, and a well-formed silent state has an empty buffer.
pub proof fn silent_buffer_is_empty(p: VadParams, s: VadState, samples: Seq<i16>, now: u64)
    requires
        s.wf(),
    ensures
        step(p, s, samples, now).0.wf(),
        !s.recording ==> s.buffer.len() == 0,
        !step(p, s, samples, now).0.recording ==> step(p, s, samples, now).0.buffer.len() == 0,
{
}

/// Every block is answered by its loudness first, followed by at most one
/// change of state: voice and start together, or silence, or the utterance.
pub proof fn one_level_then_one_change(p: VadParams, s: VadState, samples: Seq<i16>, now: u64)
    requires
        s.wf(),
    ensures
        ({
            let events = step(p, s, samples, now).1;
            &&& events.len() >= 1
            &&& events[0] == EventView::Level(level_of(samples) as u16)
            &&& (events.len() == 1 || (events.len() == 2 && (events[1] is SilenceDetected
                || events[1] is RecordingStopped)) || (events.len() == 3 && events[1]
                == EventView::VoiceDetected && events[2] == EventView::RecordingStarted))
        }),
{
}

/// Voice that resumes while silence is being timed cancels the pending stop:
/// the utterance goes on, the silence timer is cleared and nothing but the
/// loudness is reported.
pub proof fn voice_cancels_pending_stop(p: VadParams, s: VadState, samples: Seq<i16>, now: u64)
    requires
        s.wf(),
        s.recording,
        level_of(samples) >= p.silence_threshold,
    ensures
        step(p, s, samples, now).0 == (VadState {
            buffer: s.buffer + samples,
            silence_start: None,
            ..s
        }),
        step(p, s, samples, now).1 == seq![EventView::Level(level_of(samples) as u16)],
{
    level_of_is_level(samples);
}

/// When the silence has lasted its full duration, an utterance at least as
/// long as the minimum is reported whole, with the block that ended it, and
/// a shorter one is dropped without any event; either way the segmenter is
/// silent again.
pub proof fn expired_silence_ends_utterance(
    p: VadParams,
    s: VadState,
    samples: Seq<i16>,
    now: u64,
    since: u64,
    started: u64,
)
    requires
        s.recording,
        s.silence_start == Some(since),
        s.recording_start == Some(started),
        level_of(samples) < p.silence_threshold,
        elapsed_ms(now, since) >= p.silence_duration_ms,
    ensures
        step(p, s, samples, now).0 == VadState::silent(),
        elapsed_ms(now, started) >= p.min_speech_duration_ms ==> step(p, s, samples, now).1
            == seq![
            EventView::Level(level_of(samples) as u16),
            EventView::RecordingStopped(s.buffer + samples),
        ],
        elapsed_ms(now, started) < p.min_speech_duration_ms ==> step(p, s, samples, now).1
            == seq![EventView::Level(level_of(samples) as u16)],
{
    level_of_is_level(samples);
    let first = seq![EventView::Level(level_of(samples) as u16)];
    assert(first + seq![EventView::RecordingStopped(s.buffer + samples)] =~= seq![
        EventView::Level(level_of(samples) as u16),
        EventView::RecordingStopped(s.buffer + samples),
    ]);
    assert(first + Seq::<EventView>::empty() =~= first);
}

/// Appends a block of samples to a buffer.
fn append_block(buffer: &mut Vec<i16>, samples: &[i16])
    ensures
        final(buffer)@ == old(buffer)@ + samples@,
{
    let n: usize = samples.len();
    let mut i: usize = 0;
    while i < n
        invariant
            i <= n,
            n == samples@.len(),
            buffer@ == old(buffer)@ + samples@.take(i as int),
        decreases n - i,
    {
        buffer.push(samples[i]);
        i = i + 1;
        assert(buffer@ =~= old(buffer)@ + samples@.take(i as int));
    }
    assert(samples@.take(n as int) =~= samples@);
}

/// The segmenter: its parameters, the utterance in progress and its timers.
pub struct CaptureState {
    recording: bool,
    buffer: Vec<i16>,
    silence_start: Option<u64>,
    recording_start: Option<u64>,
    voice_threshold: u16,
    silence_threshold: u16,
    silence_duration_ms: u64,
    min_speech_duration_ms: u64,
    sample_rate: u32,
}

impl View for CaptureState {
    type V = VadState;

    closed spec fn view(&self) -> VadState {
        VadState {
            recording: self.recording,
            buffer: self.buffer@,
            silence_start: self.silence_start,
            recording_start: self.recording_start,
        }
    }
}

impl CaptureState {
    /// The parameters the segmenter was built with.
    pub closed spec fn params(&self) -> VadParams {
        VadParams {
            voice_threshold: self.voice_threshold,
            silence_threshold: self.silence_threshold,
            silence_duration_ms: self.silence_duration_ms,
            min_speech_duration_ms: self.min_speech_duration_ms,
            sample_rate: self.sample_rate,
        }
    }

    /// The state is one that the segmenter can reach.
    pub open spec fn wf(&self) -> bool {
        self@.wf()
    }

    /// A silent segmenter with the given parameters.
    pub fn new(
        voice_threshold: u16,
        silence_threshold: u16,
        silence_duration_ms: u64,
        min_speech_duration_ms: u64,
        sample_rate: u32,
    ) -> (r: Self)
        ensures
            r.wf(),
            r@ == VadState::silent(),
            r.params() == (VadParams {
                voice_threshold,
                silence_threshold,
                silence_duration_ms,
                min_speech_duration_ms,
                sample_rate,
            }),
    {
        Self {
            recording: false,
            buffer: Vec::new(),
            silence_start: None,
            recording_start: None,
            voice_threshold,
            silence_threshold,
            silence_duration_ms,
            min_speech_duration_ms,
            sample_rate,
        }
    }

    /// Whether an utterance is being recorded.
    pub fn is_recording(&self) -> (r: bool)
        ensures
            r == self@.recording,
    {
        self.recording
    }

    /// Samples per second of the audio this segmenter is fed.
    pub fn sample_rate(&self) -> (r: u32)
        ensures
            r == self.params().sample_rate,
    {
        self.sample_rate
    }

    /// Feeds one block of samples, received at time `now`, to the segmenter
    /// and returns the events for that block, in order.
    pub fn process_samples(&mut self, samples: &[i16], now: u64) -> (events: Vec<AudioEvent>)
        ensures
            old(self).wf() ==> final(self).wf(),
            final(self).params() == old(self).params(),
            final(self)@ == step(old(self).params(), old(self)@, samples@, now).0,
            event_views(events@) == step(old(self).params(), old(self)@, samples@, now).1,
    {
        let rms: u16 = level(samples);
        let mut events: Vec<AudioEvent> = Vec::new();
        events.push(AudioEvent::Level(rms));
        if !self.recording {
            if rms > self.voice_threshold {
                self.recording = true;
                self.recording_start = Some(now);
                self.silence_start = None;
                self.buffer.clear();
                append_block(&mut self.buffer, samples);
                events.push(AudioEvent::VoiceDetected);
                events.push(AudioEvent::RecordingStarted);
                assert(self.buffer@ =~= samples@);
            }
        } else {
            append_block(&mut self.buffer, samples);
            if rms < self.silence_threshold {
                match self.silence_start {
                    None => {
                        self.silence_start = Some(now);
                        events.push(AudioEvent::SilenceDetected);
                    },
                    Some(since) => {
                        if now.saturating_sub(since) >= self.silence_duration_ms {
                            if let Some(started) = self.recording_start {
                                if now.saturating_sub(started) >= self.min_speech_duration_ms {
                                    if let Some(stopped) = self.stop_recording() {
                                        events.push(stopped);
                                    }
                                } else {
                                    self.cancel_recording();
                                }
                            }
                        }
                    },
                }
            } else {
                self.silence_start = None;
            }
        }
        assert(event_views(events@) =~= step(old(self).params(), old(self)@, samples@, now).1);
        events
    }

    /// Ends the utterance in progress and hands it out; does nothing while
    /// silent.
    pub fn stop_recording(&mut self) -> (event: Option<AudioEvent>)
        ensures
            final(self).params() == old(self).params(),
            final(self)@ == VadState::silent(),
            match event {
                Some(e) => old(self)@.recording && e@ == EventView::RecordingStopped(
                    old(self)@.buffer,
                ),
                None => !old(self)@.recording,
            },
    {
        if !self.recording {
            self.cancel_recording();
            return None;
        }
        let mut utterance: Vec<i16> = Vec::new();
        std::mem::swap(&mut self.buffer, &mut utterance);
        self.recording = false;
        self.silence_start = None;
        self.recording_start = None;
        Some(AudioEvent::RecordingStopped(utterance))
    }

    /// Drops the utterance in progress, if any, and returns to silence
    /// without reporting anything.
    pub fn cancel_recording(&mut self)
        ensures
            final(self).params() == old(self).params(),
            final(self)@ == VadState::silent(),
            final(self).wf(),
    {
        self.recording = false;
        self.buffer.clear();
        self.silence_start = None;
        self.recording_start = None;
    }
}

} // verus!
