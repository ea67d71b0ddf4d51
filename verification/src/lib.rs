//! Voice-activated dictation core: loudness metering, utterance segmentation
//! and the application state that reacts to the segmenter's events.

pub mod level;
pub mod audio;
pub mod clock;
pub mod state;
pub mod text;
pub mod transcribe;
pub mod typing;
pub mod config;
pub mod wav;
