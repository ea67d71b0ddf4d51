//! Application state: what the status display shows, the bounded history of
//! transcriptions, and how keys, segmenter events and the results of
//! transcription and typing move the application from one state to the next.

use vstd::prelude::*;
use std::collections::VecDeque;
use crate::audio::{AudioEvent, EventView};
use crate::clock::TimeOfDay;

verus! {

/// Loudness that fills the level display: the largest positive sample.
pub const FULL_SCALE: u16 = 32767;

/// Application state machine.
#[derive(Debug, Clone, Copy, PartialEq, Eq, Structural)]
pub enum AppState {
    /// Monitoring for voice.
    Idle,
    /// Capturing audio.
    Recording,
    /// Waiting for the transcription engine.
    Transcribing,
    /// Sending output to the focused window.
    Typing,
    /// Voice detection disabled.
    Muted,
}

/// Colour in which a state is shown.
#[derive(Debug, Clone, Copy, PartialEq, Eq, Structural)]
pub enum StatusColor {
    Green,
    Red,
    Yellow,
    DarkGray,
}

impl AppState {
    /// The label of each state.
    pub open spec fn label(self) -> Seq<char> {
        match self {
            AppState::Idle => "Listening..."@,
            AppState::Recording => "Recording... ●"@,
            AppState::Transcribing => "Transcribing..."@,
            AppState::Typing => "Sent ✓"@,
            AppState::Muted => "MUTED"@,
        }
    }

    /// The colour of each state.
    pub open spec fn color_of(self) -> StatusColor {
        match self {
            AppState::Idle => StatusColor::Green,
            AppState::Recording => StatusColor::Red,
            AppState::Transcribing => StatusColor::Yellow,
            AppState::Typing => StatusColor::Green,
            AppState::Muted => StatusColor::DarkGray,
        }
    }

    /// The label shown for the state.
    pub fn display_text(&self) -> (r: &'static str)
        ensures
            r@ == self.label(),
    {
        match self {
            AppState::Idle => "Listening...",
            AppState::Recording => "Recording... ●",
            AppState::Transcribing => "Transcribing...",
            AppState::Typing => "Sent ✓",
            AppState::Muted => "MUTED",
        }
    }

    /// The colour shown for the state.
    pub fn color(&self) -> (r: StatusColor)
        ensures
            r == self.color_of(),
    {
        match self {
            AppState::Idle => StatusColor::Green,
            AppState::Recording => StatusColor::Red,
            AppState::Transcribing => StatusColor::Yellow,
            AppState::Typing => StatusColor::Green,
            AppState::Muted => StatusColor::DarkGray,
        }
    }
}

/// Transcription history entry: when it was made and what was said.
#[derive(Debug, Clone, PartialEq, Eq)]
pub struct HistoryEntry {
    pub timestamp: TimeOfDay,
    pub text: String,
}

impl HistoryEntry {
    /// The line written to the history log: `[HH:MM:SS] text`.
    pub open spec fn log_text(self) -> Seq<char> {
        seq!['['] + self.timestamp.hms_text() + seq![']', ' '] + self.text@
    }

    /// The line shown in the history list: `[HH:MM] text`.
    pub open spec fn display_text(self) -> Seq<char> {
        seq!['['] + self.timestamp.hm_text() + seq![']', ' '] + self.text@
    }

    /// An entry for `text`, stamped with the current local time.
    pub fn new(text: String) -> (r: Self)
        ensures
            r.text == text,
            r.timestamp.wf(),
    {
        Self { timestamp: TimeOfDay::now(), text }
    }

    /// The entry's time as `HH:MM`.
    pub fn format_time(&self) -> (r: String)
        requires
            self.timestamp.wf(),
        ensures
            r@ == self.timestamp.hm_text(),
    {
        self.timestamp.format_hm()
    }

    /// The entry as one line of the history list.
    pub fn display_line(&self) -> (r: String)
        requires
            self.timestamp.wf(),
        ensures
            r@ == self.display_text(),
    {
        proof {
            reveal_strlit("[");
            reveal_strlit("] ");
        }
        let mut r: String = String::from_str("[");
        r.append(self.timestamp.format_hm().as_str());
        r.append("] ");
        r.append(self.text.as_str());
        assert(r@ =~= self.display_text());
        r
    }

    /// The entry as one line of the history log.
    pub fn log_line(&self) -> (r: String)
        requires
            self.timestamp.wf(),
        ensures
            r@ == self.log_text(),
    {
        proof {
            reveal_strlit("[");
            reveal_strlit("] ");
        }
        let mut r: String = String::from_str("[");
        r.append(self.timestamp.format_hms().as_str());
        r.append("] ");
        r.append(self.text.as_str());
        assert(r@ =~= self.log_text());
        r
    }
}

/// What a key asks for.
#[derive(Debug, Clone, Copy, PartialEq, Eq, Structural)]
pub enum KeyCommand {
    Quit,
    ToggleMute,
    Cancel,
    Other,
}

/// What the control loop must do after a key was handled.
#[derive(Debug, Clone, Copy, PartialEq, Eq, Structural)]
pub enum KeyAction {
    /// Go on with the loop.
    Continue,
    /// Tell the capture engine to drop the utterance in progress, then go on.
    CancelCapture,
    /// Leave the loop.
    Quit,
}

/// The command bound to a character key.
pub open spec fn command_of(c: char) -> KeyCommand {
    if c == 'q' || c == 'Q' {
        KeyCommand::Quit
    } else if c == 'm' || c == 'M' {
        KeyCommand::ToggleMute
    } else if c == 'c' || c == 'C' {
        KeyCommand::Cancel
    } else {
        KeyCommand::Other
    }
}

/// Maps a character key to its command.
pub fn key_command(c: char) -> (r: KeyCommand)
    ensures
        r == command_of(c),
{
    if c == 'q' || c == 'Q' {
        KeyCommand::Quit
    } else if c == 'm' || c == 'M' {
        KeyCommand::ToggleMute
    } else if c == 'c' || c == 'C' {
        KeyCommand::Cancel
    } else {
        KeyCommand::Other
    }
}

/// Application state container.
pub struct AppStateContainer {
    pub state: AppState,
    pub history: VecDeque<HistoryEntry>,
    pub current_text: String,
    pub audio_level: u16,
    pub error_message: Option<String>,
    pub should_quit: bool,
    pub history_limit: usize,
}

/// Mathematical value of the container.
pub struct AppView {
    pub state: AppState,
    /// Newest entry first.
    pub history: Seq<HistoryEntry>,
    pub current_text: Seq<char>,
    pub audio_level: u16,
    pub error_message: Option<Seq<char>>,
    pub should_quit: bool,
    pub history_limit: usize,
}

/// The prefix that a failed transcription puts before the engine's message.
pub open spec fn transcription_failed_prefix() -> Seq<char> {
    "Transcription failed: "@
}

/// The prefix that a failed typing puts before the cause.
pub open spec fn typing_failed_prefix() -> Seq<char> {
    "Failed to type text: "@
}

impl AppView {
    /// Only `Idle` carries an error, the history fits its limit and the
    /// level fits the display.
    pub open spec fn wf(self) -> bool {
        &&& self.state != AppState::Idle ==> self.error_message.is_none()
        &&& self.history.len() <= self.history_limit
        &&& self.audio_level <= FULL_SCALE
    }

    /// Entering `state`: leaving `Idle` clears the error.
    pub open spec fn with_state(self, state: AppState) -> AppView {
        AppView {
            state,
            error_message: if state != AppState::Idle {
                None
            } else {
                self.error_message
            },
            ..self
        }
    }

    /// Mute if not muted, else back to `Idle`.
    pub open spec fn toggled(self) -> AppView {
        if self.state == AppState::Muted {
            self.with_state(AppState::Idle)
        } else {
            self.with_state(AppState::Muted)
        }
    }

    /// An error shows in `Idle`.
    pub open spec fn with_error(self, message: Seq<char>) -> AppView {
        AppView { state: AppState::Idle, error_message: Some(message), ..self }
    }

    /// The history after `entry` was put in front and the oldest entries
    /// beyond the limit were dropped.
    pub open spec fn with_entry(self, entry: HistoryEntry) -> AppView {
        let all = seq![entry] + self.history;
        AppView {
            history: if all.len() > self.history_limit {
                all.take(self.history_limit as int)
            } else {
                all
            },
            ..self
        }
    }

    /// The container after a key command; `capturing` says whether the
    /// segmenter is recording.
    pub open spec fn after_key(self, command: KeyCommand, capturing: bool) -> AppView {
        match command {
            KeyCommand::Quit => AppView { should_quit: true, ..self },
            KeyCommand::ToggleMute => self.toggled(),
            KeyCommand::Cancel => if capturing {
                AppView { current_text: Seq::empty(), ..self.with_state(AppState::Idle) }
            } else {
                self
            },
            KeyCommand::Other => self,
        }
    }

    /// The container after one event of the capture engine. While muted only
    /// a device fault has any effect.
    pub open spec fn after_event(self, event: EventView) -> AppView {
        match event {
            EventView::Error(message) => self.with_error(message),
            _ => if self.state == AppState::Muted {
                self
            } else {
                match event {
                    EventView::Level(l) => AppView {
                        audio_level: if l > FULL_SCALE {
                            FULL_SCALE
                        } else {
                            l
                        },
                        ..self
                    },
                    EventView::VoiceDetected => AppView { error_message: None, ..self },
                    EventView::RecordingStarted => AppView {
                        current_text: Seq::empty(),
                        ..self.with_state(AppState::Recording)
                    },
                    EventView::RecordingStopped(_) => self.with_state(AppState::Transcribing),
                    _ => self,
                }
            },
        }
    }

    /// The utterance that an event leaves to be transcribed, if any.
    pub open spec fn pending_after(self, event: EventView) -> Option<Seq<i16>> {
        match event {
            EventView::RecordingStopped(samples) if self.state != AppState::Muted => Some(samples),
            _ => None,
        }
    }

    /// The container after a run of events, handled in order.
    pub open spec fn after_events(self, events: Seq<EventView>) -> AppView
        decreases events.len(),
    {
        if events.len() == 0 {
            self
        } else {
            self.after_events(events.drop_last()).after_event(events.last())
        }
    }

    /// The utterance that a run of events leaves to be transcribed: the one
    /// handed over last, if any was.
    pub open spec fn pending_after_events(self, events: Seq<EventView>) -> Option<Seq<i16>>
        decreases events.len(),
    {
        if events.len() == 0 {
            None
        } else {
            match self.after_events(events.drop_last()).pending_after(events.last()) {
                Some(samples) => Some(samples),
                None => self.pending_after_events(events.drop_last()),
            }
        }
    }

    /// The status line: the state's label, and the error if there is one.
    pub open spec fn status_text(self) -> Seq<char> {
        match self.error_message {
            Some(error) => "Status: "@ + self.state.label() + " | Error: "@ + error,
            None => "Status: "@ + self.state.label(),
        }
    }

    /// What is shown for the text being processed: an underscore if none.
    pub open spec fn current_shown(self) -> Seq<char> {
        if self.current_text.len() == 0 {
            "_"@
        } else {
            self.current_text
        }
    }

    /// The container after the transcription engine answered.
    pub open spec fn after_transcription(self, outcome: Result<Seq<char>, Seq<char>>) -> AppView {
        match outcome {
            Ok(text) => AppView { current_text: text, ..self.with_state(AppState::Typing) },
            Err(cause) => self.with_error(transcription_failed_prefix() + cause),
        }
    }

    /// The container after the text of `entry` was typed, or failed to be.
    pub open spec fn after_typing(self, entry: HistoryEntry, outcome: Result<(), Seq<char>>) -> AppView {
        let shown = match outcome {
            Ok(_) => self.with_entry(entry).with_state(AppState::Idle),
            Err(cause) => self.with_error(typing_failed_prefix() + cause),
        };
        AppView { current_text: Seq::empty(), ..shown }
    }
}

/// The history never grows beyond its limit, and what is dropped is what
/// was inserted first: after an insertion the new entry is in front, the
/// entries behind it are the former ones in their order, and only entries at
/// the old end are gone, whatever their text.
pub proof fn history_is_bounded_and_evicts_oldest(app: AppView, entry: HistoryEntry)
    ensures
        app.with_entry(entry).history.len() <= app.history_limit,
        app.with_entry(entry).history.len() <= app.history.len() + 1,
        app.with_entry(entry).history.is_prefix_of(seq![entry] + app.history),
        app.history.len() < app.history_limit ==> app.with_entry(entry).history == seq![entry]
            + app.history,
        forall|i: int|
            1 <= i < app.with_entry(entry).history.len() ==> #[trigger] app.with_entry(
                entry,
            ).history[i] == app.history[i - 1],
{
}

/// While muted, nothing the segmenter reports changes what is displayed:
/// neither the level nor the state; no utterance is taken for transcription.
pub proof fn muted_ignores_segmenter(app: AppView, event: EventView)
    requires
        app.state == AppState::Muted,
        !(event is Error),
    ensures
        app.after_event(event) == app,
        app.pending_after(event).is_none(),
{
}

/// Only `Idle` ever carries an error message, the history fits its limit
/// and the level fits the display: every transition keeps it so.
pub proof fn only_idle_carries_error(
    app: AppView,
    state: AppState,
    command: KeyCommand,
    capturing: bool,
    event: EventView,
    message: Seq<char>,
    entry: HistoryEntry,
    transcribed: Result<Seq<char>, Seq<char>>,
    typed: Result<(), Seq<char>>,
)
    requires
        app.wf(),
    ensures
        app.with_state(state).wf(),
        app.with_error(message).wf(),
        app.with_entry(entry).wf(),
        app.after_key(command, capturing).wf(),
        app.after_event(event).wf(),
        app.after_transcription(transcribed).wf(),
        app.after_typing(entry, typed).wf(),
{
}

/// A run of events keeps it so too.
pub proof fn events_keep_wf(app: AppView, events: Seq<EventView>)
    requires
        app.wf(),
    ensures
        app.after_events(events).wf(),
    decreases events.len(),
{
    if events.len() > 0 {
        events_keep_wf(app, events.drop_last());
    }
}

impl View for AppStateContainer {
    type V = AppView;

    open spec fn view(&self) -> AppView {
        AppView {
            state: self.state,
            history: self.history@,
            current_text: self.current_text@,
            audio_level: self.audio_level,
            error_message: match self.error_message {
                Some(m) => Some(m@),
                None => None,
            },
            should_quit: self.should_quit,
            history_limit: self.history_limit,
        }
    }
}

impl AppStateContainer {
    /// An idle application with an empty history of the given capacity.
    pub fn new(history_limit: usize) -> (r: Self)
        ensures
            r@ == (AppView {
                state: AppState::Idle,
                history: Seq::empty(),
                current_text: Seq::empty(),
                audio_level: 0,
                error_message: None,
                should_quit: false,
                history_limit,
            }),
            r@.wf(),
    {
        Self {
            state: AppState::Idle,
            history: VecDeque::new(),
            current_text: String::new(),
            audio_level: 0,
            error_message: None,
            should_quit: false,
            history_limit,
        }
    }

    /// Puts `entry` in front of the history and drops the oldest entries
    /// beyond the limit.
    pub fn push_entry(&mut self, entry: HistoryEntry)
        ensures
            final(self)@ == old(self)@.with_entry(entry),
    {
        self.history.push_front(entry);
        while self.history.len() > self.history_limit
            invariant
                self.history_limit == old(self).history_limit,
                self.history@.len() <= old(self)@.history.len() + 1,
                self.history@.len() >= self.history_limit || self.history@.len() == old(
                    self,
                )@.history.len() + 1,
                self.history@ == (seq![entry] + old(self)@.history).take(self.history@.len() as int),
                self.state == old(self).state,
                self.current_text == old(self).current_text,
                self.audio_level == old(self).audio_level,
                self.error_message == old(self).error_message,
                self.should_quit == old(self).should_quit,
            decreases self.history@.len(),
        {
            let _ = self.history.pop_back();
            assert(self.history@ =~= (seq![entry] + old(self)@.history).take(
                self.history@.len() as int,
            ));
        }
        assert(self@.history =~= old(self)@.with_entry(entry).history);
    }

    /// Adds a transcription to the history, stamped with the current time.
    pub fn add_to_history(&mut self, text: String)
        ensures
            exists|entry: HistoryEntry|
                entry.text == text && entry.timestamp.wf() && final(self)@ == old(
                    self,
                )@.with_entry(entry),
    {
        let entry = HistoryEntry::new(text);
        self.push_entry(entry);
    }

    /// Sets the current state; leaving `Idle` clears the error.
    pub fn set_state(&mut self, state: AppState)
        ensures
            final(self)@ == old(self)@.with_state(state),
    {
        self.state = state;
        if state != AppState::Idle {
            self.error_message = None;
        }
    }

    /// Toggles between muted and idle.
    pub fn toggle_mute(&mut self)
        ensures
            final(self)@ == old(self)@.toggled(),
    {
        match self.state {
            AppState::Muted => self.set_state(AppState::Idle),
            _ => self.set_state(AppState::Muted),
        }
    }

    /// Shows an error; the application is idle while it shows.
    pub fn set_error(&mut self, message: String)
        ensures
            final(self)@ == old(self)@.with_error(message@),
    {
        self.error_message = Some(message);
        self.state = AppState::Idle;
    }

    /// Clears the error.
    pub fn clear_error(&mut self)
        ensures
            final(self)@ == (AppView { error_message: None, ..old(self)@ }),
    {
        self.error_message = None;
    }

    /// Updates the displayed level, capped at full scale.
    pub fn update_audio_level(&mut self, level: u16)
        ensures
            final(self)@ == (AppView {
                audio_level: if level > FULL_SCALE {
                    FULL_SCALE
                } else {
                    level
                },
                ..old(self)@
            }),
    {
        self.audio_level = if level > FULL_SCALE {
            FULL_SCALE
        } else {
            level
        };
    }

    /// The displayed level as a percentage of full scale, rounded down.
    pub fn audio_percent(&self) -> (r: u16)
        ensures
            r as int == self.audio_level as int * 100 / (FULL_SCALE as int),
            self.audio_level <= FULL_SCALE ==> r <= 100,
    {
        let scaled: u32 = self.audio_level as u32 * 100;
        let percent: u32 = scaled / 32767;
        assert(percent <= 200);
        percent as u16
    }

    /// Sets the text being processed.
    pub fn set_current_text(&mut self, text: String)
        ensures
            final(self)@ == (AppView { current_text: text@, ..old(self)@ }),
    {
        self.current_text = text;
    }

    /// Clears the text being processed.
    pub fn clear_current_text(&mut self)
        ensures
            final(self)@ == (AppView { current_text: Seq::empty(), ..old(self)@ }),
    {
        self.current_text = String::new();
    }

    /// Reacts to a key. `capturing` is whether the segmenter is recording.
    /// The result tells the control loop what is left for it to do.
    pub fn handle_key(&mut self, command: KeyCommand, capturing: bool) -> (action: KeyAction)
        ensures
            final(self)@ == old(self)@.after_key(command, capturing),
            action == match command {
                KeyCommand::Quit => KeyAction::Quit,
                KeyCommand::Cancel if capturing => KeyAction::CancelCapture,
                _ => KeyAction::Continue,
            },
    {
        match command {
            KeyCommand::Quit => {
                self.should_quit = true;
                KeyAction::Quit
            },
            KeyCommand::ToggleMute => {
                self.toggle_mute();
                KeyAction::Continue
            },
            KeyCommand::Cancel => {
                if capturing {
                    self.set_state(AppState::Idle);
                    self.clear_current_text();
                    KeyAction::CancelCapture
                } else {
                    KeyAction::Continue
                }
            },
            KeyCommand::Other => KeyAction::Continue,
        }
    }

    /// Reacts to one event of the capture engine. Returns the finished
    /// utterance when the event hands one over for transcription.
    pub fn handle_audio_event(&mut self, event: AudioEvent) -> (pending: Option<Vec<i16>>)
        ensures
            final(self)@ == old(self)@.after_event(event@),
            match pending {
                Some(samples) => old(self)@.pending_after(event@) == Some(samples@),
                None => old(self)@.pending_after(event@).is_none(),
            },
    {
        match event {
            AudioEvent::Error(message) => {
                self.set_error(message);
                None
            },
            AudioEvent::Level(level) => {
                if self.state != AppState::Muted {
                    self.update_audio_level(level);
                }
                None
            },
            AudioEvent::VoiceDetected => {
                if self.state != AppState::Muted {
                    self.clear_error();
                }
                None
            },
            AudioEvent::RecordingStarted => {
                if self.state != AppState::Muted {
                    self.set_state(AppState::Recording);
                    self.clear_current_text();
                }
                None
            },
            AudioEvent::RecordingStopped(samples) => {
                if self.state != AppState::Muted {
                    self.set_state(AppState::Transcribing);
                    Some(samples)
                } else {
                    None
                }
            },
            AudioEvent::SilenceDetected => None,
        }
    }

    /// Reacts to a run of events of the capture engine, oldest first.
    /// Returns the utterance that was handed over last, if any was.
    pub fn handle_audio_events(&mut self, events: Vec<AudioEvent>) -> (pending: Option<Vec<i16>>)
        ensures
            final(self)@ == old(self)@.after_events(crate::audio::event_views(events@)),
            match pending {
                Some(samples) => old(self)@.pending_after_events(
                    crate::audio::event_views(events@),
                ) == Some(samples@),
                None => old(self)@.pending_after_events(
                    crate::audio::event_views(events@),
                ).is_none(),
            },
    {
        broadcast use vstd::std_specs::vec::group_vec_axioms;

        let ghost all = crate::audio::event_views(events@);
        let ghost given = events@;
        let mut pending: Option<Vec<i16>> = None;
        for event in it: events
            invariant
                it.seq() == given,
                all == crate::audio::event_views(given),
                self@ == old(self)@.after_events(all.take(it.index() as int)),
                match pending {
                    Some(samples) => old(self)@.pending_after_events(all.take(it.index() as int))
                        == Some(samples@),
                    None => old(self)@.pending_after_events(
                        all.take(it.index() as int),
                    ).is_none(),
                },
        {
            proof {
                let next = all.take(it.index() + 1);
                assert(next.drop_last() =~= all.take(it.index() as int));
                assert(next.last() == event@);
            }
            match self.handle_audio_event(event) {
                Some(samples) => {
                    pending = Some(samples);
                },
                None => {},
            }
        }
        assert(all.take(all.len() as int) =~= all);
        pending
    }

    /// The status line of the display.
    pub fn status_line(&self) -> (r: String)
        ensures
            r@ == self@.status_text(),
    {
        let mut r: String = String::from_str("Status: ");
        r.append(self.state.display_text());
        match &self.error_message {
            Some(error) => {
                r.append(" | Error: ");
                r.append(error.as_str());
            },
            None => {},
        }
        assert(r@ =~= self@.status_text());
        r
    }

    /// The text shown as being processed.
    pub fn current_display(&self) -> (r: String)
        ensures
            r@ == self@.current_shown(),
    {
        if self.current_text.as_str().is_empty() {
            String::from_str("_")
        } else {
            self.current_text.clone()
        }
    }

    /// Reacts to the answer of the transcription engine: the text, or the
    /// cause of the failure. Returns the text that is to be typed.
    pub fn finish_transcription(&mut self, outcome: Result<String, String>) -> (to_type: Option<
        String,
    >)
        ensures
            final(self)@ == old(self)@.after_transcription(
                match outcome {
                    Ok(text) => Ok(text@),
                    Err(cause) => Err(cause@),
                },
            ),
            match outcome {
                Ok(text) => to_type == Some(text),
                Err(_) => to_type.is_none(),
            },
    {
        match outcome {
            Ok(text) => {
                self.set_current_text(text.clone());
                self.set_state(AppState::Typing);
                Some(text)
            },
            Err(cause) => {
                let message = String::from_str("Transcription failed: ").concat(cause.as_str());
                self.set_error(message);
                None
            },
        }
    }

    /// Reacts to the end of typing the text of `entry`: on success the entry
    /// joins the history, on failure the cause is shown. Either way the
    /// application is idle again and the text being processed is cleared.
    pub fn finish_typing(&mut self, entry: HistoryEntry, outcome: Result<(), String>)
        ensures
            final(self)@ == old(self)@.after_typing(
                entry,
                match outcome {
                    Ok(_) => Ok(()),
                    Err(cause) => Err(cause@),
                },
            ),
    {
        match outcome {
            Ok(_) => {
                self.push_entry(entry);
                self.set_state(AppState::Idle);
            },
            Err(cause) => {
                let message = String::from_str("Failed to type text: ").concat(cause.as_str());
                self.set_error(message);
            },
        }
        self.clear_current_text();
    }
}

} // verus!
