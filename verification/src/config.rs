//! Configuration values, their defaults and the rules they must meet.
//!
//! Loudness thresholds are in amplitude steps of 16-bit PCM, where
//! `FULL_SCALE` stands for the loudest signal; durations are in milliseconds.

use vstd::prelude::*;
use crate::state::FULL_SCALE;

verus! {

/// The whole configuration.
#[derive(Debug, Clone)]
pub struct Config {
    pub whisper: WhisperConfig,
    pub audio: AudioConfig,
    pub ui: UiConfig,
    pub typing: TypingConfig,
}

/// Where the transcription engine is found.
#[derive(Debug, Clone)]
pub struct WhisperConfig {
    /// Path to the whisper.cpp binary.
    pub binary_path: String,
    /// Path to the GGML model file.
    pub model_path: String,
}

/// Capture and voice detection.
#[derive(Debug, Clone, Copy, PartialEq, Eq, Structural)]
pub struct AudioConfig {
    /// Sample rate for recording (16 kHz is what whisper expects).
    pub sample_rate: u32,
    /// Loudness above which voice is detected.
    pub voice_threshold: u16,
    /// Loudness below which silence is detected.
    pub silence_threshold: u16,
    /// Duration of silence before recording stops, in milliseconds.
    pub silence_duration_ms: u64,
    /// Shortest speech that counts, in milliseconds.
    pub min_speech_duration_ms: u64,
}

/// Status display and history.
#[derive(Debug, Clone)]
pub struct UiConfig {
    /// Number of transcriptions to keep in history.
    pub history_limit: usize,
    /// Whether transcriptions are logged to a file.
    pub log_to_file: bool,
    /// Log file location.
    pub log_path: String,
}

/// Keystroke replay.
#[derive(Debug, Clone, Copy, PartialEq, Eq, Structural)]
pub struct TypingConfig {
    /// Delay between keystrokes when typing output (milliseconds).
    pub keystroke_delay: u64,
}

/// What is wrong with a configuration.
#[derive(Debug, Clone, Copy, PartialEq, Eq, Structural)]
pub enum ConfigError {
    /// No file at `whisper.binary_path`.
    BinaryNotFound,
    /// No file at `whisper.model_path`.
    ModelNotFound,
    /// `voice_threshold` is zero or above full scale.
    VoiceThresholdOutOfRange,
    /// `silence_threshold` is above full scale.
    SilenceThresholdOutOfRange,
    /// `silence_threshold` is not below `voice_threshold`.
    SilenceNotBelowVoice,
}

impl AudioConfig {
    /// The first rule the thresholds break, if any.
    pub open spec fn threshold_error(self) -> Option<ConfigError> {
        if self.voice_threshold == 0 || self.voice_threshold > FULL_SCALE {
            Some(ConfigError::VoiceThresholdOutOfRange)
        } else if self.silence_threshold > FULL_SCALE {
            Some(ConfigError::SilenceThresholdOutOfRange)
        } else if self.silence_threshold >= self.voice_threshold {
            Some(ConfigError::SilenceNotBelowVoice)
        } else {
            None
        }
    }

    /// Both thresholds lie in `0..=FULL_SCALE`, silence below voice.
    pub open spec fn valid(self) -> bool {
        self.silence_threshold < self.voice_threshold <= FULL_SCALE
    }
}

/// The outcome of validating a configuration, given whether the two files
/// it names exist: the first failing rule, in the order binary, model,
/// voice threshold, silence threshold, silence below voice.
pub open spec fn validation(audio: AudioConfig, binary_exists: bool, model_exists: bool) -> Result<
    (),
    ConfigError,
> {
    if !binary_exists {
        Err(ConfigError::BinaryNotFound)
    } else if !model_exists {
        Err(ConfigError::ModelNotFound)
    } else {
        match audio.threshold_error() {
            Some(e) => Err(e),
            None => Ok(()),
        }
    }
}

/// A configuration passes exactly when both files exist and the thresholds
/// are valid.
pub proof fn validation_accepts_valid(audio: AudioConfig, binary_exists: bool, model_exists: bool)
    ensures
        validation(audio, binary_exists, model_exists) is Ok <==> binary_exists && model_exists
            && audio.valid(),
{
}

/// Whether `path` begins with a `~` that stands for the home directory: one
/// that ends the path or is followed by a separator.
pub open spec fn tilde_leads(path: Seq<char>) -> bool {
    &&& path.len() > 0
    &&& path[0] == '~'
    &&& (path.len() == 1 || path[1] == '/' || path[1] == '\\')
}

/// What tilde expansion may turn `path` into: the path itself, or, where a
/// `~` leads it, some home directory followed by what comes after the `~`.
/// Any other path, `~name/..` among them, is only ever left as it is.
pub open spec fn tilde_expansion(path: Seq<char>, expanded: Seq<char>) -> bool {
    ||| expanded == path
    ||| tilde_leads(path) && exists|home: Seq<char>|
        expanded == #[trigger] (home + path.skip(1))
}

/// Calls `shellexpand::tilde`, which replaces a leading `~` by the user's
/// home directory when that directory is known, provided the `~` ends the
/// path or is followed by `/` (on Windows also by `\`), and returns every
/// other input as it is. The home directory comes from the environment, so
/// only this is claimed: the result is the input, or, for an input led by
/// such a `~`, the input with the `~` replaced by something.
#[verifier::external_body]
fn expand_path(path: &str) -> (r: String)
    ensures
        tilde_expansion(path@, r@),
{
    shellexpand::tilde(path).to_string()
}

impl Default for Config {
    /// The configuration written on first start.
    fn default() -> (r: Self)
        ensures
            r.whisper.binary_path@ == "/usr/local/bin/whisper"@,
            r.whisper.model_path@ == "~/.local/share/thehand/models/ggml-base.bin"@,
            r.audio == (AudioConfig {
                sample_rate: 16000,
                voice_threshold: 655,
                silence_threshold: 328,
                silence_duration_ms: 2000,
                min_speech_duration_ms: 500,
            }),
            r.audio.valid(),
            r.ui.history_limit == 50,
            r.ui.log_to_file,
            r.ui.log_path@ == "~/.local/share/thehand/transcriptions.log"@,
            r.typing.keystroke_delay == 10,
    {
        Self {
            whisper: WhisperConfig {
                binary_path: String::from_str("/usr/local/bin/whisper"),
                model_path: String::from_str("~/.local/share/thehand/models/ggml-base.bin"),
            },
            audio: AudioConfig {
                sample_rate: 16000,
                voice_threshold: 655,
                silence_threshold: 328,
                silence_duration_ms: 2000,
                min_speech_duration_ms: 500,
            },
            ui: UiConfig {
                history_limit: 50,
                log_to_file: true,
                log_path: String::from_str("~/.local/share/thehand/transcriptions.log"),
            },
            typing: TypingConfig { keystroke_delay: 10 },
        }
    }
}

impl Config {
    /// Expands a leading `~` in the three paths of the configuration and
    /// leaves everything else as it is. A path that no `~` leads is kept;
    /// one that a `~` leads is kept where no home directory is known, and
    /// else has the home directory in place of the `~`.
    pub fn expand_paths(self) -> (r: Self)
        ensures
            tilde_expansion(self.whisper.binary_path@, r.whisper.binary_path@),
            tilde_expansion(self.whisper.model_path@, r.whisper.model_path@),
            tilde_expansion(self.ui.log_path@, r.ui.log_path@),
            r.audio == self.audio,
            r.typing == self.typing,
            r.ui.history_limit == self.ui.history_limit,
            r.ui.log_to_file == self.ui.log_to_file,
    {
        Self {
            whisper: WhisperConfig {
                binary_path: expand_path(self.whisper.binary_path.as_str()),
                model_path: expand_path(self.whisper.model_path.as_str()),
            },
            audio: self.audio,
            ui: UiConfig {
                history_limit: self.ui.history_limit,
                log_to_file: self.ui.log_to_file,
                log_path: expand_path(self.ui.log_path.as_str()),
            },
            typing: self.typing,
        }
    }

    /// Validates the configuration. Whether the engine's binary and its
    /// model exist on disk is for the caller to find out and hand in.
    pub fn validate(&self, binary_exists: bool, model_exists: bool) -> (r: Result<(), ConfigError>)
        ensures
            r == validation(self.audio, binary_exists, model_exists),
    {
        if !binary_exists {
            return Err(ConfigError::BinaryNotFound);
        }
        if !model_exists {
            return Err(ConfigError::ModelNotFound);
        }
        if self.audio.voice_threshold == 0 || self.audio.voice_threshold > FULL_SCALE {
            return Err(ConfigError::VoiceThresholdOutOfRange);
        }
        if self.audio.silence_threshold > FULL_SCALE {
            return Err(ConfigError::SilenceThresholdOutOfRange);
        }
        if self.audio.silence_threshold >= self.audio.voice_threshold {
            return Err(ConfigError::SilenceNotBelowVoice);
        }
        Ok(())
    }
}

} // verus!
