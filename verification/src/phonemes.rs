//! Turning text into phonemes.
//!
//! In the standard notation the engine translates the text in one call. In
//! the notation of the diphone synthesizer the engine knows no such call:
//! the phonemes are a trace that it writes to a stream while it
//! synthesizes. For those the engine's trace is pointed at a file, the text
//! is synthesized with the audio dropped, and the trace is pointed back,
//! whether the synthesis went well or not. A failure of the synthesis is
//! held back until the trace is restored and the stream closed, so that no
//! error leaves the engine writing into a file that is gone.

use vstd::prelude::*;
use vstd::string::*;
use vstd::utf8::*;

use crate::engine::{pending, Reply, ReplyView, Request, RequestView, PHONEMES_MBROLA};
use crate::error::{
    last_os_error_number, os_failure, Error, ErrorView, OtherError, OtherErrorView,
};
use crate::marshal::{
    c_text, null_term, null_terminated, string_from_c_bytes, string_from_utf8, valid_up_to,
};
use crate::selection::{is_mbrola_name, is_mbrola_voice};
use crate::structs::PhonemeGenOptions;
use crate::synthesis::{Synthesis, SynthesisStage, SynthesisView};

verus! {

/// Where the extraction of phonemes stands.
#[derive(Clone, Copy, Debug, PartialEq, Eq, Structural)]
pub enum PhonemeStage {
    /// The engine has to translate the text.
    Translate,
    /// The current voice has to be read.
    QueryVoice,
    /// A file in memory has to be made for the trace.
    CreateFile,
    /// A stream has to be opened on the file.
    Open,
    /// The trace has to be pointed at the stream.
    Redirect,
    /// The text is being synthesized.
    Synthesize,
    /// The trace has to be pointed back.
    Restore,
    /// The file in memory has to be taken over from the stream.
    Detach,
    /// The stream on the caller's file has to be closed.
    Close,
    /// The trace has to be read from the file in memory.
    Read,
    /// The extraction is over.
    Finished,
}

/// Whether the engine's trace points at the stream of this extraction
/// while the request of the stage is pending.
pub open spec fn trace_redirected(stage: PhonemeStage) -> bool {
    stage == PhonemeStage::Synthesize || stage == PhonemeStage::Restore
}

/// Whether the stream of this extraction is open while the request of the
/// stage is pending.
pub open spec fn stream_open(stage: PhonemeStage) -> bool {
    stage == PhonemeStage::Redirect || stage == PhonemeStage::Synthesize || stage
        == PhonemeStage::Restore || stage == PhonemeStage::Detach || stage == PhonemeStage::Close
}

/// The extraction of phonemes, as plain values.
pub struct PhonemeExtractionView {
    pub text: Seq<char>,
    pub option: PhonemeGenOptions,
    pub stage: PhonemeStage,
    /// The descriptor of the file that takes the trace.
    pub descriptor: i32,
    /// The synthesis that writes the trace.
    pub synthesis: SynthesisView,
    /// The phonemes that were extracted as text.
    pub phonemes: Option<Seq<char>>,
    /// The error that ended the extraction, if one did.
    pub failure: Option<ErrorView>,
}

impl PhonemeExtractionView {
    /// The extraction of the phonemes of `text`, before anything was done.
    pub open spec fn start(text: Seq<char>, option: PhonemeGenOptions) -> PhonemeExtractionView {
        PhonemeExtractionView {
            text,
            option,
            stage: if option is Standard {
                PhonemeStage::Translate
            } else {
                PhonemeStage::QueryVoice
            },
            descriptor: match option {
                PhonemeGenOptions::MbrolaFile(descriptor) => descriptor,
                _ => -1i32,
            },
            synthesis: SynthesisView::start(text, false),
            phonemes: None,
            failure: None,
        }
    }

    /// What holds of every extraction: only a finished one has a result,
    /// each stage belongs to the way that the option selects, and the
    /// synthesis runs between the stage that points the trace at the stream
    /// and the stage that points it back.
    pub open spec fn wf(self) -> bool {
        &&& self.synthesis.wf()
        &&& !self.synthesis.capture
        &&& self.stage != PhonemeStage::Finished ==> self.failure is None && self.phonemes is None
        &&& self.failure is Some ==> self.phonemes is None
        &&& self.stage == PhonemeStage::Translate ==> self.option is Standard
        &&& self.option is Standard ==> self.stage == PhonemeStage::Translate || self.stage
            == PhonemeStage::Finished
        &&& self.stage == PhonemeStage::CreateFile || self.stage == PhonemeStage::Detach
            || self.stage == PhonemeStage::Read ==> self.option is Mbrola
        &&& self.stage == PhonemeStage::Close ==> self.option is MbrolaFile
        &&& self.option matches PhonemeGenOptions::MbrolaFile(descriptor) ==> self.descriptor
            == descriptor
        &&& (self.stage == PhonemeStage::Translate || self.stage == PhonemeStage::QueryVoice
            || self.stage == PhonemeStage::CreateFile || self.stage == PhonemeStage::Open
            || self.stage == PhonemeStage::Redirect) ==> self.synthesis == SynthesisView::start(
            self.text,
            false,
        )
        &&& self.stage == PhonemeStage::Synthesize ==> self.synthesis.stage
            != SynthesisStage::Finished
        &&& (self.stage == PhonemeStage::Restore || self.stage == PhonemeStage::Detach
            || self.stage == PhonemeStage::Close || self.stage == PhonemeStage::Read)
            ==> self.synthesis.stage == SynthesisStage::Finished
        &&& self.stage == PhonemeStage::Read ==> self.synthesis.failure is None
    }

    /// What the driver has to do next; nothing once the extraction is over.
    pub open spec fn request(self) -> Option<RequestView> {
        match self.stage {
            PhonemeStage::Translate => match self.option {
                PhonemeGenOptions::Standard { text_mode, phoneme_mode } => Some(
                    RequestView::TextToPhonemes {
                        text: null_terminated(self.text),
                        text_mode: text_mode.spec_code(),
                        phoneme_mode: phoneme_mode@ as i32,
                    },
                ),
                _ => None,
            },
            PhonemeStage::QueryVoice => Some(RequestView::GetCurrentVoice),
            PhonemeStage::CreateFile => Some(RequestView::CreateMemoryFile),
            PhonemeStage::Open => Some(
                RequestView::OpenStream {
                    descriptor: self.descriptor,
                    duplicate: self.option is MbrolaFile,
                },
            ),
            PhonemeStage::Redirect => Some(
                RequestView::SetPhonemeTrace { format: PHONEMES_MBROLA },
            ),
            PhonemeStage::Synthesize => self.synthesis.request(),
            PhonemeStage::Restore => Some(RequestView::ResetPhonemeTrace),
            PhonemeStage::Detach => Some(RequestView::DetachStream),
            PhonemeStage::Close => Some(RequestView::CloseStream),
            PhonemeStage::Read => Some(RequestView::ReadTrace),
            PhonemeStage::Finished => None,
        }
    }

    /// Whether a reply answers the pending request.
    pub open spec fn accepts(self, reply: ReplyView) -> bool {
        match self.stage {
            PhonemeStage::Translate => reply is Phonemes,
            PhonemeStage::QueryVoice => reply is CurrentVoice,
            PhonemeStage::CreateFile => reply is Descriptor,
            PhonemeStage::Open => reply is Opened,
            PhonemeStage::Redirect | PhonemeStage::Restore | PhonemeStage::Detach
            | PhonemeStage::Close => reply is Done,
            PhonemeStage::Synthesize => self.synthesis.accepts(reply),
            PhonemeStage::Read => reply is Contents || reply is Failed,
            PhonemeStage::Finished => false,
        }
    }

    /// The extraction at another stage.
    pub open spec fn at(self, stage: PhonemeStage) -> PhonemeExtractionView {
        PhonemeExtractionView { stage, ..self }
    }

    /// The extraction, ended by `error`.
    pub open spec fn failed(self, error: ErrorView) -> PhonemeExtractionView {
        PhonemeExtractionView { stage: PhonemeStage::Finished, failure: Some(error), ..self }
    }

    /// The extraction, ended with these phonemes.
    pub open spec fn done(self, phonemes: Seq<char>) -> PhonemeExtractionView {
        PhonemeExtractionView {
            stage: PhonemeStage::Finished,
            phonemes: Some(phonemes),
            ..self
        }
    }

    /// The extraction after a reply, given whether the operating system's
    /// error number was set when the reply was taken. A reply that does not
    /// answer the pending request changes nothing.
    pub open spec fn advance(self, reply: ReplyView, os_error_set: bool) -> PhonemeExtractionView {
        match (self.stage, reply) {
            (PhonemeStage::Translate, ReplyView::Phonemes(bytes)) => self.done(
                c_text(bytes),
            ),
            (PhonemeStage::QueryVoice, ReplyView::CurrentVoice(voice)) => {
                if !is_mbrola_name(voice.filename) {
                    self.failed(ErrorView::MbrolaWithoutMbrolaVoice)
                } else if self.option is MbrolaFile {
                    self.at(PhonemeStage::Open)
                } else {
                    self.at(PhonemeStage::CreateFile)
                }
            },
            (PhonemeStage::CreateFile, ReplyView::Descriptor(descriptor)) => {
                PhonemeExtractionView { stage: PhonemeStage::Open, descriptor, ..self }
            },
            (PhonemeStage::Open, ReplyView::Opened(opened)) => if opened {
                self.at(PhonemeStage::Redirect)
            } else {
                self.failed(ErrorView::OtherC { with_os_error: os_error_set })
            },
            (PhonemeStage::Redirect, ReplyView::Done) => self.at(PhonemeStage::Synthesize),
            (PhonemeStage::Synthesize, _) => {
                let synthesis = self.synthesis.advance(reply, os_error_set);
                PhonemeExtractionView {
                    stage: if synthesis.stage == SynthesisStage::Finished {
                        PhonemeStage::Restore
                    } else {
                        PhonemeStage::Synthesize
                    },
                    synthesis,
                    ..self
                }
            },
            (PhonemeStage::Restore, ReplyView::Done) => if self.option is MbrolaFile {
                self.at(PhonemeStage::Close)
            } else {
                self.at(PhonemeStage::Detach)
            },
            (PhonemeStage::Detach, ReplyView::Done) => match self.synthesis.failure {
                Some(error) => self.failed(error),
                None => self.at(PhonemeStage::Read),
            },
            (PhonemeStage::Close, ReplyView::Done) => match self.synthesis.failure {
                Some(error) => self.failed(error),
                None => self.at(PhonemeStage::Finished),
            },
            (PhonemeStage::Read, ReplyView::Contents(bytes)) => if valid_utf8(bytes) {
                self.done(decode_utf8(bytes))
            } else {
                self.failed(
                    ErrorView::Other(
                        OtherErrorView::InvalidUtf8 { valid_up_to: valid_up_to(bytes) },
                    ),
                )
            },
            (PhonemeStage::Read, ReplyView::Failed(text)) => self.failed(
                ErrorView::Other(OtherErrorView::Io(text)),
            ),
            _ => self,
        }
    }

    /// The result of the extraction, once it is over: the phonemes as text,
    /// no text where they went to the caller's file, or the error that
    /// stopped it.
    pub open spec fn outcome(self) -> Option<Result<Option<Seq<char>>, ErrorView>> {
        if self.stage == PhonemeStage::Finished {
            match self.failure {
                None => Some(Ok(self.phonemes)),
                Some(error) => Some(Err(error)),
            }
        } else {
            None
        }
    }

    /// A bound on the number of replies that the extraction still takes.
    pub open spec fn remaining(self) -> nat {
        match self.stage {
            PhonemeStage::Translate => 1,
            PhonemeStage::QueryVoice => 10,
            PhonemeStage::CreateFile => 9,
            PhonemeStage::Open => 8,
            PhonemeStage::Redirect => 7,
            PhonemeStage::Synthesize => self.synthesis.remaining() + 3,
            PhonemeStage::Restore => 3,
            PhonemeStage::Detach => 2,
            PhonemeStage::Close => 1,
            PhonemeStage::Read => 1,
            PhonemeStage::Finished => 0,
        }
    }
}

/// Without a voice of the diphone synthesizer there are no diphone
/// phonemes: the extraction ends with
/// [`ErrorView::MbrolaWithoutMbrolaVoice`] as soon as the current voice is
/// known, whatever the text and wherever the phonemes were to go, and the
/// one thing that it asked of the engine was to read that voice.
pub proof fn lemma_diphone_voice_required(
    text: Seq<char>,
    option: PhonemeGenOptions,
    voice: crate::structs::VoiceView,
    os_error_set: bool,
)
    requires
        !(option is Standard),
        !is_mbrola_name(voice.filename),
    ensures
        PhonemeExtractionView::start(text, option).request() == Some(RequestView::GetCurrentVoice),
        PhonemeExtractionView::start(text, option).advance(
            ReplyView::CurrentVoice(voice),
            os_error_set,
        ).outcome() == Some(
            Err::<Option<Seq<char>>, ErrorView>(ErrorView::MbrolaWithoutMbrolaVoice),
        ),
{
}

/// No extraction ends while the engine's trace points at its stream, and
/// none ends with its stream open: the step that ends an extraction whose
/// stream is open is the answer to the request that closes the stream.
pub proof fn lemma_cleanup_precedes_outcome(
    extraction: PhonemeExtractionView,
    reply: ReplyView,
    os_error_set: bool,
)
    requires
        extraction.wf(),
        extraction.stage != PhonemeStage::Finished,
        extraction.advance(reply, os_error_set).stage == PhonemeStage::Finished,
    ensures
        !trace_redirected(extraction.stage),
        stream_open(extraction.stage) ==> reply == ReplyView::Done && (extraction.request()
            == Some(RequestView::DetachStream) || extraction.request() == Some(
            RequestView::CloseStream,
        )),
{
}

/// Once the trace points at the stream, the trace is pointed back before
/// anything else is asked after the synthesis, whether it failed or not.
pub proof fn lemma_trace_restored(
    extraction: PhonemeExtractionView,
    reply: ReplyView,
    os_error_set: bool,
)
    requires
        extraction.wf(),
        extraction.stage == PhonemeStage::Synthesize,
        extraction.advance(reply, os_error_set).stage != PhonemeStage::Synthesize,
    ensures
        extraction.advance(reply, os_error_set).request() == Some(
            RequestView::ResetPhonemeTrace,
        ),
{
}

/// Every step keeps an extraction well-formed, and a step that answers
/// the pending request brings it nearer to its end.
pub proof fn lemma_extraction_progress(
    extraction: PhonemeExtractionView,
    reply: ReplyView,
    os_error_set: bool,
)
    requires
        extraction.wf(),
    ensures
        extraction.advance(reply, os_error_set).wf(),
        extraction.accepts(reply) ==> extraction.advance(reply, os_error_set).remaining()
            < extraction.remaining(),
        !extraction.accepts(reply) ==> extraction.advance(reply, os_error_set) == extraction,
        extraction.request() is None <==> extraction.outcome() is Some,
{
}

/// The extraction of phonemes: a session that the driver carries through
/// by doing what [`PhonemeExtraction::request`] asks and handing the answer
/// to [`PhonemeExtraction::advance`], until nothing is asked any more.
#[derive(Debug)]
pub struct PhonemeExtraction {
    text: String,
    option: PhonemeGenOptions,
    stage: PhonemeStage,
    descriptor: i32,
    synthesis: Synthesis,
    phonemes: Option<String>,
    failure: Option<Error>,
}

impl View for PhonemeExtraction {
    type V = PhonemeExtractionView;

    closed spec fn view(&self) -> PhonemeExtractionView {
        PhonemeExtractionView {
            text: self.text@,
            option: self.option,
            stage: self.stage,
            descriptor: self.descriptor,
            synthesis: self.synthesis@,
            phonemes: match self.phonemes {
                Some(text) => Some(text@),
                None => None,
            },
            failure: match self.failure {
                Some(error) => Some(error@),
                None => if self.stage == PhonemeStage::Finished {
                    self.synthesis@.failure
                } else {
                    None
                },
            },
        }
    }
}

/// The view of the result of an extraction, if there is one.
pub open spec fn phonemes_view(r: Option<Result<Option<String>, Error>>) -> Option<
    Result<Option<Seq<char>>, ErrorView>,
> {
    match r {
        Some(Ok(Some(text))) => Some(Ok(Some(text@))),
        Some(Ok(None)) => Some(Ok(None)),
        Some(Err(error)) => Some(Err(error@)),
        None => None,
    }
}

impl PhonemeExtraction {
    #[verifier::type_invariant]
    spec fn inv(self) -> bool {
        &&& self@.wf()
        &&& self.failure is Some ==> self.stage == PhonemeStage::Finished
            && self.synthesis@.failure is None
    }

    /// Starts the extraction of the phonemes of `text`.
    pub fn new(text: &str, option: PhonemeGenOptions) -> (r: PhonemeExtraction)
        ensures
            r@ == PhonemeExtractionView::start(text@, option),
            r@.wf(),
    {
        let stage = match option {
            PhonemeGenOptions::Standard { .. } => PhonemeStage::Translate,
            _ => PhonemeStage::QueryVoice,
        };
        let descriptor = match option {
            PhonemeGenOptions::MbrolaFile(descriptor) => descriptor,
            _ => -1,
        };
        PhonemeExtraction {
            text: String::from_str(text),
            option,
            stage,
            descriptor,
            synthesis: Synthesis::new(text, false),
            phonemes: None,
            failure: None,
        }
    }

    /// Whether the extraction is over.
    pub fn is_finished(&self) -> (r: bool)
        ensures
            r == (self@.stage == PhonemeStage::Finished),
            r == (self@.request() is None),
            r == (self@.outcome() is Some),
            self@.wf(),
    {
        proof {
            use_type_invariant(self);
        }
        self.stage == PhonemeStage::Finished
    }

    /// What the driver has to do next; nothing once the extraction is over.
    pub fn request(&self) -> (r: Option<Request>)
        ensures
            pending(r) == self@.request(),
            self@.wf(),
    {
        proof {
            use_type_invariant(self);
        }
        match self.stage {
            PhonemeStage::Translate => match self.option {
                PhonemeGenOptions::Standard { text_mode, phoneme_mode } => Some(
                    Request::TextToPhonemes {
                        text: null_term(self.text.as_str()),
                        text_mode: text_mode.code(),
                        phoneme_mode: phoneme_mode.bits() as i32,
                    },
                ),
                _ => None,
            },
            PhonemeStage::QueryVoice => Some(Request::GetCurrentVoice),
            PhonemeStage::CreateFile => Some(Request::CreateMemoryFile),
            PhonemeStage::Open => Some(
                Request::OpenStream {
                    descriptor: self.descriptor,
                    duplicate: match self.option {
                        PhonemeGenOptions::MbrolaFile(_) => true,
                        _ => false,
                    },
                },
            ),
            PhonemeStage::Redirect => Some(Request::SetPhonemeTrace { format: PHONEMES_MBROLA }),
            PhonemeStage::Synthesize => self.synthesis.request(),
            PhonemeStage::Restore => Some(Request::ResetPhonemeTrace),
            PhonemeStage::Detach => Some(Request::DetachStream),
            PhonemeStage::Close => Some(Request::CloseStream),
            PhonemeStage::Read => Some(Request::ReadTrace),
            PhonemeStage::Finished => None,
        }
    }

    /// Takes the driver's answer to the pending request. Where the answer
    /// is a status outside the engine's table or says that the stream
    /// could not be opened, the operating system's error number is read,
    /// and the failure carries it if one is set.
    pub fn advance(self, reply: Reply) -> (r: PhonemeExtraction)
        ensures
            exists|os_error_set: bool| r@ == #[trigger] self@.advance(reply@, os_error_set),
            r@.wf(),
            self@.accepts(reply@) ==> r@.remaining() < self@.remaining(),
            !self@.accepts(reply@) ==> r@ == self@,
    {
        let os_error = last_os_error_number();
        let r = self.advance_with(reply, os_error);
        assert(r@ == self@.advance(reply@, os_error != 0));
        r
    }

    /// Takes the driver's answer to the pending request, given the
    /// operating system's error number as it stood when the answer came.
    pub fn advance_with(self, reply: Reply, os_error: i32) -> (r: PhonemeExtraction)
        ensures
            r@ == self@.advance(reply@, os_error != 0),
            r@.wf(),
            self@.accepts(reply@) ==> r@.remaining() < self@.remaining(),
            !self@.accepts(reply@) ==> r@ == self@,
    {
        proof {
            use_type_invariant(&self);
        }
        let PhonemeExtraction { text, option, stage, descriptor, synthesis, phonemes, failure } =
            self;
        let to_file = match option {
            PhonemeGenOptions::MbrolaFile(_) => true,
            _ => false,
        };
        let mut next_stage = stage;
        let mut next_descriptor = descriptor;
        let mut next_synthesis = synthesis;
        let mut next_phonemes = phonemes;
        let mut next_failure = failure;
        match stage {
            PhonemeStage::Translate => {
                if let Reply::Phonemes(bytes) = reply {
                    next_phonemes = Some(string_from_c_bytes(bytes.as_slice()));
                    next_stage = PhonemeStage::Finished;
                }
            },
            PhonemeStage::QueryVoice => {
                if let Reply::CurrentVoice(voice) = reply {
                    if !is_mbrola_voice(voice.filename.as_str()) {
                        next_failure = Some(Error::MbrolaWithoutMbrolaVoice);
                        next_stage = PhonemeStage::Finished;
                    } else if to_file {
                        next_stage = PhonemeStage::Open;
                    } else {
                        next_stage = PhonemeStage::CreateFile;
                    }
                }
            },
            PhonemeStage::CreateFile => {
                if let Reply::Descriptor(made) = reply {
                    next_descriptor = made;
                    next_stage = PhonemeStage::Open;
                }
            },
            PhonemeStage::Open => {
                if let Reply::Opened(opened) = reply {
                    if opened {
                        next_stage = PhonemeStage::Redirect;
                    } else {
                        next_failure = Some(os_failure(os_error));
                        next_stage = PhonemeStage::Finished;
                    }
                }
            },
            PhonemeStage::Redirect => {
                if let Reply::Done = reply {
                    next_stage = PhonemeStage::Synthesize;
                }
            },
            PhonemeStage::Synthesize => {
                next_synthesis = next_synthesis.advance_with(reply, os_error);
                if next_synthesis.is_finished() {
                    next_stage = PhonemeStage::Restore;
                }
            },
            PhonemeStage::Restore => {
                if let Reply::Done = reply {
                    if to_file {
                        next_stage = PhonemeStage::Close;
                    } else {
                        next_stage = PhonemeStage::Detach;
                    }
                }
            },
            PhonemeStage::Detach => {
                if let Reply::Done = reply {
                    if next_synthesis.has_failed() {
                        next_stage = PhonemeStage::Finished;
                    } else {
                        next_stage = PhonemeStage::Read;
                    }
                }
            },
            PhonemeStage::Close => {
                if let Reply::Done = reply {
                    next_stage = PhonemeStage::Finished;
                }
            },
            PhonemeStage::Read => match reply {
                Reply::Contents(bytes) => {
                    match string_from_utf8(bytes) {
                        Ok(trace) => {
                            next_phonemes = Some(trace);
                        },
                        Err(valid_up_to) => {
                            next_failure = Some(
                                Error::Other(OtherError::InvalidUtf8 { valid_up_to }),
                            );
                        },
                    }
                    next_stage = PhonemeStage::Finished;
                },
                Reply::Failed(text) => {
                    next_failure = Some(Error::Other(OtherError::Io(text)));
                    next_stage = PhonemeStage::Finished;
                },
                _ => {},
            },
            PhonemeStage::Finished => {},
        }
        PhonemeExtraction {
            text,
            option,
            stage: next_stage,
            descriptor: next_descriptor,
            synthesis: next_synthesis,
            phonemes: next_phonemes,
            failure: next_failure,
        }
    }

    /// The result of the extraction, once it is over.
    pub fn finish(self) -> (r: Option<Result<Option<String>, Error>>)
        ensures
            phonemes_view(r) == self@.outcome(),
    {
        proof {
            use_type_invariant(&self);
        }
        match self.stage {
            PhonemeStage::Finished => match self.failure {
                Some(error) => Some(Err(error)),
                None => match self.synthesis.finish() {
                    Some(Err(error)) => Some(Err(error)),
                    _ => Some(Ok(self.phonemes)),
                },
            },
            _ => None,
        }
    }
}

} // verus!
