//! Core logic of the Shine Helper desktop assistant: keyword matching for
//! voice wake-up, the wake-loop state machine, ASR message handling, the
//! streaming chat decoder, WAV framing and the configuration model.

pub mod text;
pub mod keyword;
pub mod text_io;
pub mod asr;
pub mod wake;
pub mod tts;
pub mod openclaw;
pub mod config;
pub mod skills;
pub mod chat;
pub mod startup;
