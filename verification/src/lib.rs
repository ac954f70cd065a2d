//! Verified coordination logic for a binding to the eSpeak NG speech engine.
//!
//! The engine keeps all of its state in process-wide globals and reports
//! results through status codes, packed C records and a callback. This crate
//! holds everything that can be decided about that traffic without touching
//! native memory: how status codes become errors, how packed records become
//! owned values, and in which order the engine has to be called.
//!
//! The crate never calls the engine. An operation that needs the engine is a
//! session: it says what is to be done next as a [`Request`], whoever drives
//! it does that and hands back a [`Reply`], and so on until the session has
//! its result. Each session is specified by a state machine over plain
//! values, its view, and proved to follow it.

pub mod audio;
pub mod engine;
pub mod error;
pub mod marshal;
pub mod phonemes;
pub mod selection;
pub mod session;
pub mod speaker;
pub mod startup;
pub mod structs;
pub mod synthesis;

pub use audio::{append_samples, carries_audio, decode_samples, encode_samples, skips_event};
pub use engine::{Reply, ReplyView, Request, RequestView};
pub use error::{
    handle_error, os_failure, status_result, ESpeakNgError, Error, ErrorView, OtherError,
    OtherErrorView,
};
pub use marshal::{
    c_strlen, null_term, parse_lang_array, string_from_c_bytes, string_from_utf8, LangArrayReader,
};
pub use phonemes::{PhonemeExtraction, PhonemeExtractionView, PhonemeStage};
pub use selection::{is_mbrola_voice, SelectionStage, VoiceSelection, VoiceSelectionView};
pub use speaker::Speaker;
pub use startup::{
    decide_admission, get, initialise, Admission, AdmissionView, InitStage, Initialisation,
    InitialisationView,
};
pub use structs::{
    Gender, Language, LanguageView, Parameter, PhonemeGenOptions, PhonemeMode, PunctationType,
    RawVoice, RawVoiceView, TextMode, Voice, VoiceView,
};
pub use synthesis::{
    FileStage, FileSynthesis, FileSynthesisView, Synthesis, SynthesisStage, SynthesisView,
};
