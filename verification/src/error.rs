//! Turning native status codes into typed errors.

use vstd::prelude::*;
use vstd::string::*;

use crate::engine::{Request, RequestView};
use crate::marshal::{c_text, string_from_c_bytes};

verus! {

/// A failure that the engine itself reports through its status code.
#[derive(Clone, Copy, Debug, PartialEq, Eq, Structural)]
pub enum ESpeakNgError {
    CompileError,
    VersionMismatch,
    FifoBufferFull,
    NotInitialized,
    AudioError,
    VoiceNotFound,
    MbrolaNotFound,
    MbrolaVoiceNotFound,
    EventBufferFull,
    NotSupported,
    UnsupportedPhonemeFormat,
    NoSpectFrames,
    EmptyPhonemeManifest,
    SpeechStopped,
    UnknownPhonemeFeature,
    UnknownTextEncoding,
}

impl ESpeakNgError {
    /// The position of the variant in the engine's table of status codes,
    /// counted from one.
    pub open spec fn ordinal(self) -> int {
        match self {
            ESpeakNgError::CompileError => 1,
            ESpeakNgError::VersionMismatch => 2,
            ESpeakNgError::FifoBufferFull => 3,
            ESpeakNgError::NotInitialized => 4,
            ESpeakNgError::AudioError => 5,
            ESpeakNgError::VoiceNotFound => 6,
            ESpeakNgError::MbrolaNotFound => 7,
            ESpeakNgError::MbrolaVoiceNotFound => 8,
            ESpeakNgError::EventBufferFull => 9,
            ESpeakNgError::NotSupported => 10,
            ESpeakNgError::UnsupportedPhonemeFormat => 11,
            ESpeakNgError::NoSpectFrames => 12,
            ESpeakNgError::EmptyPhonemeManifest => 13,
            ESpeakNgError::SpeechStopped => 14,
            ESpeakNgError::UnknownPhonemeFeature => 15,
            ESpeakNgError::UnknownTextEncoding => 16,
        }
    }

    /// The native status code of the variant: the engine's own error group
    /// `0x1000_0000`, the ordinal in bits 8 and up, and `0xFF` below.
    pub open spec fn spec_code(self) -> u32 {
        (0x1000_00FF + 0x100 * self.ordinal()) as u32
    }

    /// The variant that a native status code names, if it names one.
    pub open spec fn spec_from_repr(code: u32) -> Option<ESpeakNgError> {
        if exists|e: ESpeakNgError| e.spec_code() == code {
            Some(choose|e: ESpeakNgError| e.spec_code() == code)
        } else {
            None
        }
    }

    /// The native status code of this error.
    pub fn code(self) -> (c: u32)
        ensures
            c == self.spec_code(),
    {
        match self {
            ESpeakNgError::CompileError => 0x1000_01FF,
            ESpeakNgError::VersionMismatch => 0x1000_02FF,
            ESpeakNgError::FifoBufferFull => 0x1000_03FF,
            ESpeakNgError::NotInitialized => 0x1000_04FF,
            ESpeakNgError::AudioError => 0x1000_05FF,
            ESpeakNgError::VoiceNotFound => 0x1000_06FF,
            ESpeakNgError::MbrolaNotFound => 0x1000_07FF,
            ESpeakNgError::MbrolaVoiceNotFound => 0x1000_08FF,
            ESpeakNgError::EventBufferFull => 0x1000_09FF,
            ESpeakNgError::NotSupported => 0x1000_0AFF,
            ESpeakNgError::UnsupportedPhonemeFormat => 0x1000_0BFF,
            ESpeakNgError::NoSpectFrames => 0x1000_0CFF,
            ESpeakNgError::EmptyPhonemeManifest => 0x1000_0DFF,
            ESpeakNgError::SpeechStopped => 0x1000_0EFF,
            ESpeakNgError::UnknownPhonemeFeature => 0x1000_0FFF,
            ESpeakNgError::UnknownTextEncoding => 0x1000_10FF,
        }
    }

    /// Looks a native status code up in the closed table of known failures.
    pub fn from_repr(code: u32) -> (r: Option<ESpeakNgError>)
        ensures
            r == ESpeakNgError::spec_from_repr(code),
            r matches Some(e) ==> e.spec_code() == code,
            r is None ==> forall|e: ESpeakNgError| e.spec_code() != code,
    {
        let found = match code {
            0x1000_01FF => Some(ESpeakNgError::CompileError),
            0x1000_02FF => Some(ESpeakNgError::VersionMismatch),
            0x1000_03FF => Some(ESpeakNgError::FifoBufferFull),
            0x1000_04FF => Some(ESpeakNgError::NotInitialized),
            0x1000_05FF => Some(ESpeakNgError::AudioError),
            0x1000_06FF => Some(ESpeakNgError::VoiceNotFound),
            0x1000_07FF => Some(ESpeakNgError::MbrolaNotFound),
            0x1000_08FF => Some(ESpeakNgError::MbrolaVoiceNotFound),
            0x1000_09FF => Some(ESpeakNgError::EventBufferFull),
            0x1000_0AFF => Some(ESpeakNgError::NotSupported),
            0x1000_0BFF => Some(ESpeakNgError::UnsupportedPhonemeFormat),
            0x1000_0CFF => Some(ESpeakNgError::NoSpectFrames),
            0x1000_0DFF => Some(ESpeakNgError::EmptyPhonemeManifest),
            0x1000_0EFF => Some(ESpeakNgError::SpeechStopped),
            0x1000_0FFF => Some(ESpeakNgError::UnknownPhonemeFeature),
            0x1000_10FF => Some(ESpeakNgError::UnknownTextEncoding),
            _ => None,
        };
        proof {
            lemma_code_injective();
            match found {
                Some(e) => {
                    assert(e.spec_code() == code);
                },
                None => {
                    assert forall|e: ESpeakNgError| e.spec_code() != code by {
                        assert(1 <= e.ordinal() <= 16);
                    }
                },
            }
        }
        found
    }
}

/// The table of status codes reads both ways: the code of a known failure
/// names that failure, and a code that names a failure is that failure's
/// code.
pub proof fn lemma_from_repr_inverts_code(error: ESpeakNgError, code: u32)
    ensures
        ESpeakNgError::spec_from_repr(error.spec_code()) == Some(error),
        ESpeakNgError::spec_from_repr(code) == Some(error) <==> error.spec_code() == code,
        ESpeakNgError::spec_from_repr(0) is None,
{
    lemma_code_injective();
    if error.spec_code() == code {
        assert(ESpeakNgError::spec_from_repr(code) is Some);
    }
    if ESpeakNgError::spec_from_repr(0) is Some {
        let e = choose|e: ESpeakNgError| e.spec_code() == 0u32;
        assert(e.spec_code() != 0);
    }
}

/// Two known failures with the same native status code are the same failure.
pub proof fn lemma_code_injective()
    ensures
        forall|a: ESpeakNgError, b: ESpeakNgError|
            #[trigger] a.spec_code() == #[trigger] b.spec_code() ==> a == b,
        forall|a: ESpeakNgError| (#[trigger] a.spec_code()) != 0,
{
}

/// `errno::Errno`, the operating system's error number. Nothing inside it
/// is visible here.
#[verifier::external_type_specification]
#[verifier::external_body]
pub struct ExErrno(errno::Errno);

/// A failure outside the engine that stopped the extraction of a phoneme trace.
#[derive(Debug)]
pub enum OtherError {
    /// Reading or writing a file failed; the text describes the failure.
    Io(String),
    /// The trace was not UTF-8; the first `valid_up_to` bytes were.
    InvalidUtf8 { valid_up_to: usize },
}

/// What an [`OtherError`] holds, as plain values.
pub enum OtherErrorView {
    Io(Seq<char>),
    InvalidUtf8 { valid_up_to: nat },
}

impl View for OtherError {
    type V = OtherErrorView;

    open spec fn view(&self) -> OtherErrorView {
        match self {
            OtherError::Io(text) => OtherErrorView::Io(text@),
            OtherError::InvalidUtf8 { valid_up_to } => OtherErrorView::InvalidUtf8 {
                valid_up_to: *valid_up_to as nat,
            },
        }
    }
}

/// An error from this library.
#[derive(Debug)]
pub enum Error {
    /// The engine reported one of its known failures.
    ESpeakNg(ESpeakNgError),
    /// The engine was initialised a second time.
    AlreadyInit,
    /// Diphone phonemes were asked for while no diphone voice was selected.
    MbrolaWithoutMbrolaVoice,
    /// A native call failed with a status outside the engine's table; the
    /// operating system's error number is attached where one was read.
    OtherC(Option<errno::Errno>),
    /// File I/O or text decoding failed.
    Other(OtherError),
}

impl From<ESpeakNgError> for Error {
    fn from(err: ESpeakNgError) -> (r: Error) {
        Error::ESpeakNg(err)
    }
}

impl vstd::std_specs::convert::FromSpecImpl<ESpeakNgError> for Error {
    open spec fn obeys_from_spec() -> bool {
        true
    }

    open spec fn from_spec(err: ESpeakNgError) -> Error {
        Error::ESpeakNg(err)
    }
}

/// What an [`Error`] holds, as plain values. The operating system's error
/// number is opaque, so the view only records whether one is attached.
pub enum ErrorView {
    ESpeakNg(ESpeakNgError),
    AlreadyInit,
    MbrolaWithoutMbrolaVoice,
    OtherC { with_os_error: bool },
    Other(OtherErrorView),
}

impl View for Error {
    type V = ErrorView;

    open spec fn view(&self) -> ErrorView {
        match self {
            Error::ESpeakNg(e) => ErrorView::ESpeakNg(*e),
            Error::AlreadyInit => ErrorView::AlreadyInit,
            Error::MbrolaWithoutMbrolaVoice => ErrorView::MbrolaWithoutMbrolaVoice,
            Error::OtherC(os) => ErrorView::OtherC { with_os_error: os is Some },
            Error::Other(e) => ErrorView::Other(e@),
        }
    }
}

/// The view of a result that carries nothing on success.
pub open spec fn unit_outcome(r: Result<(), Error>) -> Result<(), ErrorView> {
    match r {
        Ok(_) => Ok(()),
        Err(e) => Err(e@),
    }
}

/// The view of a result that carries nothing on success, if there is one.
pub open spec fn unit_outcome_view(r: Option<Result<(), Error>>) -> Option<
    Result<(), ErrorView>,
> {
    match r {
        Some(result) => Some(unit_outcome(result)),
        None => None,
    }
}

/// What a native status code means: zero is success, a code of the engine's
/// table is that failure, and any other code is a failure of the C library
/// below, to which the operating system's error number is attached if one
/// is set.
pub open spec fn status_outcome(ret_code: u32, os_error_set: bool) -> Result<(), ErrorView> {
    if ret_code == 0 {
        Ok(())
    } else {
        match ESpeakNgError::spec_from_repr(ret_code) {
            Some(e) => Err(ErrorView::ESpeakNg(e)),
            None => Err(ErrorView::OtherC { with_os_error: os_error_set }),
        }
    }
}

/// Reads the number of the calling thread's `errno` through `errno::errno`.
/// The number depends on what the thread did last, so nothing is claimed of
/// it.
#[verifier::external_body]
pub(crate) fn last_os_error_number() -> i32 {
    errno::errno().0
}

/// Makes an `errno::Errno` of an error number: the tuple struct around it.
#[verifier::external_body]
fn os_error_of(number: i32) -> errno::Errno {
    errno::Errno(number)
}

/// Formats an error number with `errno::Errno`'s `Debug` impl, which asks the
/// C library for the description. The text depends on the machine, so nothing
/// is claimed of it.
#[verifier::external_body]
fn describe_os_error(os_error: &errno::Errno) -> String {
    format!("{os_error:?}")
}

/// The failure of a C function, given the operating system's error number
/// as it stood after the call: the number is attached if one is set, that
/// is, if it is not zero.
pub fn os_failure(os_error: i32) -> (r: Error)
    ensures
        r@ == (ErrorView::OtherC { with_os_error: os_error != 0 }),
{
    if os_error != 0 {
        Error::OtherC(Some(os_error_of(os_error)))
    } else {
        Error::OtherC(None)
    }
}

/// Turns the status code of a native call into a result, given the
/// operating system's error number as it stood after the call.
pub fn status_result(ret_code: u32, os_error: i32) -> (r: Result<(), Error>)
    ensures
        unit_outcome(r) == status_outcome(ret_code, os_error != 0),
        r is Ok <==> ret_code == 0,
{
    if ret_code == 0 {
        Ok(())
    } else {
        match ESpeakNgError::from_repr(ret_code) {
            Some(err) => Err(Error::ESpeakNg(err)),
            None => Err(os_failure(os_error)),
        }
    }
}

/// Turns the status code of a native call into a result. Zero is success
/// and a code of the engine's table is that failure. For any other code
/// the operating system's error number is read, and the failure carries it
/// if one is set.
pub fn handle_error(ret_code: u32) -> (r: Result<(), Error>)
    ensures
        r is Ok <==> ret_code == 0,
        ESpeakNgError::spec_from_repr(ret_code) matches Some(e) ==> unit_outcome(r) == Err::<
            (),
            ErrorView,
        >(ErrorView::ESpeakNg(e)),
        ret_code != 0 && ESpeakNgError::spec_from_repr(ret_code) is None ==> (r matches Err(e)
            && e@ is OtherC),
        exists|os_error_set: bool| unit_outcome(r) == #[trigger] status_outcome(
            ret_code,
            os_error_set,
        ),
{
    if ret_code == 0 {
        assert(unit_outcome(Ok::<(), Error>(())) == status_outcome(ret_code, false));
        Ok(())
    } else {
        match ESpeakNgError::from_repr(ret_code) {
            Some(err) => {
                assert(unit_outcome(Err::<(), Error>(Error::ESpeakNg(err))) == status_outcome(
                    ret_code,
                    false,
                ));
                Err(Error::ESpeakNg(err))
            },
            None => {
                let os_error = last_os_error_number();
                let r = status_result(ret_code, os_error);
                assert(unit_outcome(r) == status_outcome(ret_code, os_error != 0));
                r
            },
        }
    }
}

/// The length of the buffer that the engine's message routine writes into.
/// A message that does not fit is cut off there.
pub const MESSAGE_BUFFER_LEN: usize = 512;

impl ESpeakNgError {
    /// The variant's name.
    pub open spec fn spec_name(self) -> Seq<char> {
        match self {
            ESpeakNgError::CompileError => "CompileError"@,
            ESpeakNgError::VersionMismatch => "VersionMismatch"@,
            ESpeakNgError::FifoBufferFull => "FifoBufferFull"@,
            ESpeakNgError::NotInitialized => "NotInitialized"@,
            ESpeakNgError::AudioError => "AudioError"@,
            ESpeakNgError::VoiceNotFound => "VoiceNotFound"@,
            ESpeakNgError::MbrolaNotFound => "MbrolaNotFound"@,
            ESpeakNgError::MbrolaVoiceNotFound => "MbrolaVoiceNotFound"@,
            ESpeakNgError::EventBufferFull => "EventBufferFull"@,
            ESpeakNgError::NotSupported => "NotSupported"@,
            ESpeakNgError::UnsupportedPhonemeFormat => "UnsupportedPhonemeFormat"@,
            ESpeakNgError::NoSpectFrames => "NoSpectFrames"@,
            ESpeakNgError::EmptyPhonemeManifest => "EmptyPhonemeManifest"@,
            ESpeakNgError::SpeechStopped => "SpeechStopped"@,
            ESpeakNgError::UnknownPhonemeFeature => "UnknownPhonemeFeature"@,
            ESpeakNgError::UnknownTextEncoding => "UnknownTextEncoding"@,
        }
    }

    /// The variant's name, as it appears in messages.
    pub fn name(self) -> (r: &'static str)
        ensures
            r@ == self.spec_name(),
    {
        match self {
            ESpeakNgError::CompileError => "CompileError",
            ESpeakNgError::VersionMismatch => "VersionMismatch",
            ESpeakNgError::FifoBufferFull => "FifoBufferFull",
            ESpeakNgError::NotInitialized => "NotInitialized",
            ESpeakNgError::AudioError => "AudioError",
            ESpeakNgError::VoiceNotFound => "VoiceNotFound",
            ESpeakNgError::MbrolaNotFound => "MbrolaNotFound",
            ESpeakNgError::MbrolaVoiceNotFound => "MbrolaVoiceNotFound",
            ESpeakNgError::EventBufferFull => "EventBufferFull",
            ESpeakNgError::NotSupported => "NotSupported",
            ESpeakNgError::UnsupportedPhonemeFormat => "UnsupportedPhonemeFormat",
            ESpeakNgError::NoSpectFrames => "NoSpectFrames",
            ESpeakNgError::EmptyPhonemeManifest => "EmptyPhonemeManifest",
            ESpeakNgError::SpeechStopped => "SpeechStopped",
            ESpeakNgError::UnknownPhonemeFeature => "UnknownPhonemeFeature",
            ESpeakNgError::UnknownTextEncoding => "UnknownTextEncoding",
        }
    }
}

impl ESpeakNgError {
    /// Asks for the engine's own message for this failure. The engine
    /// writes it into a buffer of [`MESSAGE_BUFFER_LEN`] bytes.
    pub fn message_request(self) -> (r: Request)
        ensures
            r@ == (RequestView::GetStatusCodeMessage {
                code: self.spec_code(),
                buffer_len: MESSAGE_BUFFER_LEN as nat,
            }),
    {
        Request::GetStatusCodeMessage { code: self.code(), buffer_len: MESSAGE_BUFFER_LEN }
    }

    /// Copies the engine's message out of the buffer that the engine wrote
    /// it into: the text of the C string at the buffer's start.
    pub fn message_from_buffer(buffer: &[u8]) -> (r: String)
        ensures
            r@ == c_text(buffer@),
    {
        string_from_c_bytes(buffer)
    }
}

impl Error {
    /// The fixed text that a message of this error starts with.
    pub open spec fn spec_message_head(&self) -> Seq<char> {
        match self {
            Error::MbrolaWithoutMbrolaVoice =>
                "eSpeak cannot generate mbrola phonemes without an mbrola voice set!"@,
            Error::ESpeakNg(_) => "Failed to execute an internal espeakNG function: "@,
            Error::AlreadyInit =>
                "espeakng::initialise was called after already having been called!"@,
            Error::OtherC(_) => "Failed to execute an internal C function: "@,
            Error::Other(_) => "An internal error occurred: "@,
        }
    }

    /// The message of a failure of a C function to which an operating
    /// system error number is attached, given the description of that
    /// number.
    pub open spec fn spec_os_error_message(description: Seq<char>) -> Seq<char> {
        "Failed to execute an internal C function: "@ + "Some("@ + description + ")"@
    }

    /// Words the message of a failure of a C function to which an operating
    /// system error number is attached, given the description of that
    /// number.
    pub fn os_error_message(description: &str) -> (r: String)
        ensures
            r@ == Error::spec_os_error_message(description@),
    {
        String::from_str("Failed to execute an internal C function: ").concat("Some(").concat(
            description,
        ).concat(")")
    }

    /// A human-readable description of the error.
    ///
    /// The text is fixed but for two parts: the description of an operating
    /// system error number, which the C library words, and of an I/O failure,
    /// which is the text the error carries.
    pub fn message(&self) -> (r: String)
        ensures
            r@.len() >= self.spec_message_head().len(),
            r@.subrange(0, self.spec_message_head().len() as int) == self.spec_message_head(),
            match self {
                Error::MbrolaWithoutMbrolaVoice | Error::AlreadyInit =>
                    r@ == self.spec_message_head(),
                Error::ESpeakNg(e) => r@ == self.spec_message_head() + e.spec_name(),
                Error::OtherC(None) => r@ == self.spec_message_head() + "None"@,
                Error::OtherC(Some(_)) => exists|description: Seq<char>|
                    r@ == #[trigger] Error::spec_os_error_message(description),
                Error::Other(OtherError::Io(text)) => r@ == self.spec_message_head() + text@,
                Error::Other(OtherError::InvalidUtf8 { .. }) =>
                    r@ == self.spec_message_head() + "the phoneme trace is not valid UTF-8"@,
            },
    {
        match self {
            Error::MbrolaWithoutMbrolaVoice => String::from_str(
                "eSpeak cannot generate mbrola phonemes without an mbrola voice set!",
            ),
            Error::ESpeakNg(err) => String::from_str(
                "Failed to execute an internal espeakNG function: ",
            ).concat(err.name()),
            Error::AlreadyInit => String::from_str(
                "espeakng::initialise was called after already having been called!",
            ),
            Error::OtherC(os) => {
                let head = String::from_str("Failed to execute an internal C function: ");
                match os {
                    Some(e) => {
                        let described = describe_os_error(e);
                        let text = Error::os_error_message(described.as_str());
                        assert(text@ == Error::spec_os_error_message(described@));
                        assert(text@.subrange(0, head@.len() as int) == head@);
                        text
                    },
                    None => head.concat("None"),
                }
            },
            Error::Other(cause) => {
                let head = String::from_str("An internal error occurred: ");
                match cause {
                    OtherError::Io(text) => head.concat(text.as_str()),
                    OtherError::InvalidUtf8 { .. } => head.concat(
                        "the phoneme trace is not valid UTF-8",
                    ),
                }
            },
        }
    }
}

} // verus!
