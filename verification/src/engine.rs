//! The vocabulary between the coordinator and whoever drives the engine.
//!
//! The coordinator never calls the engine. It says what has to be done next
//! as a [`Request`], the driver does it, and the driver's [`Reply`] moves the
//! coordinator on. Every operation that takes more than one native call is a
//! session of this kind.

use vstd::prelude::*;

use crate::structs::{Voice, VoiceView};

verus! {

/// The output mode in which the engine hands audio to the callback and
/// plays nothing itself.
pub const OUTPUT_MODE_SYNCHRONOUS: u32 = 1;

/// The position type that counts a start position in characters.
pub const POSITION_CHARACTER: u32 = 1;

/// The flag that declares a text to be UTF-8.
pub const CHARS_UTF8: u32 = 1;

/// The phoneme trace format of the diphone synthesizer.
pub const PHONEMES_MBROLA: i32 = 0x10;

/// One thing that the driver has to do for the coordinator.
#[derive(Debug)]
pub enum Request {
    /// Register the callback bridge as the engine's audio callback.
    SetSynthCallback,
    /// Set the directory in which the engine looks for its data; `None`
    /// selects the engine's default. The path is null-terminated.
    InitializePath { path: Option<Vec<u8>> },
    /// Initialise the engine core.
    Initialize,
    /// Initialise the engine's output with the mode and buffer length given
    /// and the default device.
    InitializeOutput { output_mode: u32, buffer_length: i32 },
    /// Select the voice with this null-terminated identifier.
    SetVoiceByName { name: Vec<u8> },
    /// Say whether this path, taken relative to the engine's data
    /// directory, exists on disk.
    ProbeVoiceFile { path: String },
    /// Wait for this many milliseconds.
    Pause { millis: u64 },
    /// Read the engine's current voice.
    GetCurrentVoice,
    /// Read the setting with this number: its current value where
    /// `current` is 1, its default where it is 0.
    GetParameter { id: u32, current: i32 },
    /// Change the setting with this number: to `value` where `relative` is
    /// 0, by `value` where it is 1.
    SetParameter { id: u32, value: i32, relative: i32 },
    /// Start to synthesize the null-terminated text. Where `capture` is
    /// set, the callback is to collect the audio in a buffer made for this
    /// call; where it is not, the audio is dropped.
    Synthesize {
        text: Vec<u8>,
        size: usize,
        position: u32,
        position_type: u32,
        end_position: u32,
        flags: u32,
        capture: bool,
    },
    /// Block until the engine has finished the synthesis under way.
    Synchronize,
    /// Hand over the audio that the callback collected.
    TakeAudio,
    /// Write these bytes to the file that the caller chose.
    WriteFile { bytes: Vec<u8> },
    /// Translate the null-terminated text into phonemes.
    TextToPhonemes { text: Vec<u8>, text_mode: i32, phoneme_mode: i32 },
    /// Create an anonymous file in memory and hand over its descriptor.
    CreateMemoryFile,
    /// Open a C stream for reading and writing on this descriptor. Where
    /// `duplicate` is set the descriptor is the caller's: the stream is
    /// opened on a duplicate of it, so that closing the stream leaves the
    /// caller's descriptor open.
    OpenStream { descriptor: i32, duplicate: bool },
    /// Point the engine's phoneme trace at the open stream, in this format.
    SetPhonemeTrace { format: i32 },
    /// Point the engine's phoneme trace back at its default target.
    ResetPhonemeTrace,
    /// Rewind the stream, duplicate its descriptor and close the stream, so
    /// that the duplicate alone keeps the file.
    DetachStream,
    /// Close the stream, and with it the duplicate that it was opened on.
    /// The caller's descriptor stays open.
    CloseStream,
    /// Read the detached file to its end.
    ReadTrace,
    /// Shut the engine down.
    Terminate,
    /// Write the engine's message for this status code, null-terminated,
    /// into a buffer of `buffer_len` bytes.
    GetStatusCodeMessage { code: u32, buffer_len: usize },
}

/// What a [`Request`] holds, as plain values.
pub enum RequestView {
    SetSynthCallback,
    InitializePath { path: Option<Seq<u8>> },
    Initialize,
    InitializeOutput { output_mode: u32, buffer_length: i32 },
    SetVoiceByName { name: Seq<u8> },
    ProbeVoiceFile { path: Seq<char> },
    Pause { millis: u64 },
    GetCurrentVoice,
    GetParameter { id: u32, current: i32 },
    SetParameter { id: u32, value: i32, relative: i32 },
    Synthesize {
        text: Seq<u8>,
        size: nat,
        position: u32,
        position_type: u32,
        end_position: u32,
        flags: u32,
        capture: bool,
    },
    Synchronize,
    TakeAudio,
    WriteFile { bytes: Seq<u8> },
    TextToPhonemes { text: Seq<u8>, text_mode: i32, phoneme_mode: i32 },
    CreateMemoryFile,
    OpenStream { descriptor: i32, duplicate: bool },
    SetPhonemeTrace { format: i32 },
    ResetPhonemeTrace,
    DetachStream,
    CloseStream,
    ReadTrace,
    Terminate,
    GetStatusCodeMessage { code: u32, buffer_len: nat },
}

impl View for Request {
    type V = RequestView;

    open spec fn view(&self) -> RequestView {
        match self {
            Request::SetSynthCallback => RequestView::SetSynthCallback,
            Request::InitializePath { path } => RequestView::InitializePath {
                path: match path {
                    Some(bytes) => Some(bytes@),
                    None => None,
                },
            },
            Request::Initialize => RequestView::Initialize,
            Request::InitializeOutput { output_mode, buffer_length } => {
                RequestView::InitializeOutput {
                    output_mode: *output_mode,
                    buffer_length: *buffer_length,
                }
            },
            Request::SetVoiceByName { name } => RequestView::SetVoiceByName { name: name@ },
            Request::ProbeVoiceFile { path } => RequestView::ProbeVoiceFile { path: path@ },
            Request::Pause { millis } => RequestView::Pause { millis: *millis },
            Request::GetCurrentVoice => RequestView::GetCurrentVoice,
            Request::GetParameter { id, current } => RequestView::GetParameter {
                id: *id,
                current: *current,
            },
            Request::SetParameter { id, value, relative } => RequestView::SetParameter {
                id: *id,
                value: *value,
                relative: *relative,
            },
            Request::Synthesize {
                text,
                size,
                position,
                position_type,
                end_position,
                flags,
                capture,
            } => RequestView::Synthesize {
                text: text@,
                size: *size as nat,
                position: *position,
                position_type: *position_type,
                end_position: *end_position,
                flags: *flags,
                capture: *capture,
            },
            Request::Synchronize => RequestView::Synchronize,
            Request::TakeAudio => RequestView::TakeAudio,
            Request::WriteFile { bytes } => RequestView::WriteFile { bytes: bytes@ },
            Request::TextToPhonemes { text, text_mode, phoneme_mode } => {
                RequestView::TextToPhonemes {
                    text: text@,
                    text_mode: *text_mode,
                    phoneme_mode: *phoneme_mode,
                }
            },
            Request::CreateMemoryFile => RequestView::CreateMemoryFile,
            Request::OpenStream { descriptor, duplicate } => RequestView::OpenStream {
                descriptor: *descriptor,
                duplicate: *duplicate,
            },
            Request::SetPhonemeTrace { format } => RequestView::SetPhonemeTrace {
                format: *format,
            },
            Request::ResetPhonemeTrace => RequestView::ResetPhonemeTrace,
            Request::DetachStream => RequestView::DetachStream,
            Request::CloseStream => RequestView::CloseStream,
            Request::ReadTrace => RequestView::ReadTrace,
            Request::Terminate => RequestView::Terminate,
            Request::GetStatusCodeMessage { code, buffer_len } => {
                RequestView::GetStatusCodeMessage { code: *code, buffer_len: *buffer_len as nat }
            },
        }
    }
}

/// The view of what a session asks for, if it asks for anything.
pub open spec fn pending(request: Option<Request>) -> Option<RequestView> {
    match request {
        Some(r) => Some(r@),
        None => None,
    }
}

/// What the driver reports back after it has carried out a [`Request`].
#[derive(Debug)]
pub enum Reply {
    /// The request was carried out; it yields no value.
    Done,
    /// The status code that the native call returned.
    Status(u32),
    /// The value of a setting.
    Value(i32),
    /// Whether the probed path exists.
    Found(bool),
    /// A file descriptor, or a negative number where none could be made.
    Descriptor(i32),
    /// Whether the stream could be opened.
    Opened(bool),
    /// The engine's current voice.
    CurrentVoice(Voice),
    /// The audio that the callback collected.
    Samples(Vec<i16>),
    /// The C string that the engine returned.
    Phonemes(Vec<u8>),
    /// The bytes that were read.
    Contents(Vec<u8>),
    /// Reading or writing failed; the text describes how.
    Failed(String),
}

/// What a [`Reply`] holds, as plain values.
pub enum ReplyView {
    Done,
    Status(u32),
    Value(i32),
    Found(bool),
    Descriptor(i32),
    Opened(bool),
    CurrentVoice(VoiceView),
    Samples(Seq<i16>),
    Phonemes(Seq<u8>),
    Contents(Seq<u8>),
    Failed(Seq<char>),
}

impl View for Reply {
    type V = ReplyView;

    open spec fn view(&self) -> ReplyView {
        match self {
            Reply::Done => ReplyView::Done,
            Reply::Status(code) => ReplyView::Status(*code),
            Reply::Value(value) => ReplyView::Value(*value),
            Reply::Found(found) => ReplyView::Found(*found),
            Reply::Descriptor(descriptor) => ReplyView::Descriptor(*descriptor),
            Reply::Opened(opened) => ReplyView::Opened(*opened),
            Reply::CurrentVoice(voice) => ReplyView::CurrentVoice(voice@),
            Reply::Samples(samples) => ReplyView::Samples(samples@),
            Reply::Phonemes(bytes) => ReplyView::Phonemes(bytes@),
            Reply::Contents(bytes) => ReplyView::Contents(bytes@),
            Reply::Failed(text) => ReplyView::Failed(text@),
        }
    }
}

} // verus!
