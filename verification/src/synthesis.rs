//! Turning text into audio.
//!
//! The engine synthesizes in the background and hands the audio to the
//! callback piece by piece. A synthesis is therefore issued and then waited
//! for: only when the engine has said that it is done may the buffer that
//! the callback filled be taken. Nothing else may use the engine meanwhile,
//! which the mutable borrow of the [`crate::Speaker`] stands for.

use vstd::prelude::*;
use vstd::string::*;

use crate::audio::{encode_samples, lemma_samples_round_trip, samples_from_le, samples_to_le};
use crate::engine::{
    pending, Reply, ReplyView, Request, RequestView, CHARS_UTF8, POSITION_CHARACTER,
};
use crate::error::{
    last_os_error_number, status_outcome, status_result, unit_outcome_view, Error, ErrorView,
    OtherError, OtherErrorView,
};
use crate::marshal::{null_term, null_terminated};

verus! {

/// Where a synthesis stands.
#[derive(Clone, Copy, Debug, PartialEq, Eq, Structural)]
pub enum SynthesisStage {
    /// The text has to be handed to the engine.
    Submit,
    /// The engine has to be waited for.
    Wait,
    /// The audio has to be taken from the callback's buffer.
    Collect,
    /// The synthesis is over.
    Finished,
}

/// A synthesis, as plain values.
pub struct SynthesisView {
    pub text: Seq<char>,
    /// Whether the audio is wanted.
    pub capture: bool,
    pub stage: SynthesisStage,
    /// The audio that was taken.
    pub samples: Seq<i16>,
    /// The error that ended the synthesis, if one did.
    pub failure: Option<ErrorView>,
}

impl SynthesisView {
    /// The synthesis of `text`, before anything was done.
    pub open spec fn start(text: Seq<char>, capture: bool) -> SynthesisView {
        SynthesisView {
            text,
            capture,
            stage: SynthesisStage::Submit,
            samples: Seq::empty(),
            failure: None,
        }
    }

    /// What holds of every synthesis: only a finished one has failed or
    /// holds audio, and audio is taken only where it is wanted.
    pub open spec fn wf(self) -> bool {
        &&& self.stage != SynthesisStage::Finished ==> self.failure is None && self.samples
            == Seq::<i16>::empty()
        &&& self.stage == SynthesisStage::Collect ==> self.capture
        &&& self.failure is Some ==> self.samples == Seq::<i16>::empty()
    }

    /// What the driver has to do next; nothing once the synthesis is over.
    /// The text goes to the engine null-terminated, with its length in bytes
    /// (the terminator counted), from its first character to its end, and
    /// declared as UTF-8.
    pub open spec fn request(self) -> Option<RequestView> {
        match self.stage {
            SynthesisStage::Submit => Some(
                RequestView::Synthesize {
                    text: null_terminated(self.text),
                    size: null_terminated(self.text).len(),
                    position: 0,
                    position_type: POSITION_CHARACTER,
                    end_position: 0,
                    flags: CHARS_UTF8,
                    capture: self.capture,
                },
            ),
            SynthesisStage::Wait => Some(RequestView::Synchronize),
            SynthesisStage::Collect => Some(RequestView::TakeAudio),
            SynthesisStage::Finished => None,
        }
    }

    /// Whether a reply answers the pending request.
    pub open spec fn accepts(self, reply: ReplyView) -> bool {
        match self.stage {
            SynthesisStage::Submit | SynthesisStage::Wait => reply is Status,
            SynthesisStage::Collect => reply is Samples,
            SynthesisStage::Finished => false,
        }
    }

    /// The synthesis, ended by `error`.
    pub open spec fn failed(self, error: ErrorView) -> SynthesisView {
        SynthesisView { stage: SynthesisStage::Finished, failure: Some(error), ..self }
    }

    /// The synthesis after a reply, given whether the operating system's
    /// error number was set when the reply was taken. A status that
    /// reports a failure ends it; a reply that does not answer the pending
    /// request changes nothing.
    pub open spec fn advance(self, reply: ReplyView, os_error_set: bool) -> SynthesisView {
        match (self.stage, reply) {
            (SynthesisStage::Submit, ReplyView::Status(code)) => match status_outcome(
                code,
                os_error_set,
            ) {
                Ok(_) => SynthesisView { stage: SynthesisStage::Wait, ..self },
                Err(error) => self.failed(error),
            },
            (SynthesisStage::Wait, ReplyView::Status(code)) => match status_outcome(
                code,
                os_error_set,
            ) {
                Ok(_) => SynthesisView {
                    stage: if self.capture {
                        SynthesisStage::Collect
                    } else {
                        SynthesisStage::Finished
                    },
                    ..self
                },
                Err(error) => self.failed(error),
            },
            (SynthesisStage::Collect, ReplyView::Samples(samples)) => SynthesisView {
                stage: SynthesisStage::Finished,
                samples,
                ..self
            },
            _ => self,
        }
    }

    /// The result of the synthesis, once it is over: the audio in the order
    /// in which the engine produced it (none where none was wanted), or the
    /// error that stopped it.
    pub open spec fn outcome(self) -> Option<Result<Seq<i16>, ErrorView>> {
        if self.stage == SynthesisStage::Finished {
            match self.failure {
                None => Some(Ok(self.samples)),
                Some(error) => Some(Err(error)),
            }
        } else {
            None
        }
    }

    /// A bound on the number of replies that the synthesis still takes.
    pub open spec fn remaining(self) -> nat {
        match self.stage {
            SynthesisStage::Submit => 3,
            SynthesisStage::Wait => 2,
            SynthesisStage::Collect => 1,
            SynthesisStage::Finished => 0,
        }
    }
}

/// Every step keeps a synthesis well-formed, and a step that answers the
/// pending request brings it nearer to its end.
pub proof fn lemma_synthesis_progress(session: SynthesisView, reply: ReplyView, os_error_set: bool)
    requires
        session.wf(),
    ensures
        session.advance(reply, os_error_set).wf(),
        session.accepts(reply) ==> session.advance(reply, os_error_set).remaining()
            < session.remaining(),
        !session.accepts(reply) ==> session.advance(reply, os_error_set) == session,
        session.request() is None <==> session.outcome() is Some,
{
}

/// The callback's buffer is taken only when the engine has said that it is
/// done: the request for the audio follows a wait that ended well, and
/// nothing else.
pub proof fn lemma_audio_taken_after_wait(
    session: SynthesisView,
    reply: ReplyView,
    os_error_set: bool,
)
    requires
        session.wf(),
        session.request() != Some(RequestView::TakeAudio),
        session.advance(reply, os_error_set).request() == Some(RequestView::TakeAudio),
    ensures
        session.request() == Some(RequestView::Synchronize),
        reply == ReplyView::Status(0),
        session.capture,
{
}

/// A synthesis: a session that the driver carries through by doing what
/// [`Synthesis::request`] asks and handing the answer to
/// [`Synthesis::advance`], until nothing is asked any more.
#[derive(Debug)]
pub struct Synthesis {
    text: String,
    capture: bool,
    stage: SynthesisStage,
    samples: Vec<i16>,
    failure: Option<Error>,
}

impl View for Synthesis {
    type V = SynthesisView;

    closed spec fn view(&self) -> SynthesisView {
        SynthesisView {
            text: self.text@,
            capture: self.capture,
            stage: self.stage,
            samples: self.samples@,
            failure: match self.failure {
                Some(error) => Some(error@),
                None => None,
            },
        }
    }
}

/// The view of the result of a synthesis, if there is one.
pub open spec fn audio_view(r: Option<Result<Vec<i16>, Error>>) -> Option<
    Result<Seq<i16>, ErrorView>,
> {
    match r {
        Some(Ok(samples)) => Some(Ok(samples@)),
        Some(Err(error)) => Some(Err(error@)),
        None => None,
    }
}

impl Synthesis {
    #[verifier::type_invariant]
    spec fn inv(self) -> bool {
        self@.wf()
    }

    /// Starts the synthesis of `text`. Where `capture` is not set the audio
    /// is dropped as it comes.
    pub fn new(text: &str, capture: bool) -> (r: Synthesis)
        ensures
            r@ == SynthesisView::start(text@, capture),
            r@.wf(),
    {
        Synthesis {
            text: String::from_str(text),
            capture,
            stage: SynthesisStage::Submit,
            samples: Vec::new(),
            failure: None,
        }
    }

    /// Whether the synthesis is over.
    pub fn is_finished(&self) -> (r: bool)
        ensures
            r == (self@.stage == SynthesisStage::Finished),
            r == (self@.request() is None),
            r == (self@.outcome() is Some),
            self@.wf(),
    {
        proof {
            use_type_invariant(self);
        }
        self.stage == SynthesisStage::Finished
    }

    /// Whether an error ended the synthesis.
    pub fn has_failed(&self) -> (r: bool)
        ensures
            r == (self@.failure is Some),
            self@.wf(),
    {
        proof {
            use_type_invariant(self);
        }
        self.failure.is_some()
    }

    /// The audio that was taken so far.
    pub fn samples(&self) -> (r: &[i16])
        ensures
            r@ == self@.samples,
    {
        self.samples.as_slice()
    }

    /// What the driver has to do next; nothing once the synthesis is over.
    pub fn request(&self) -> (r: Option<Request>)
        ensures
            pending(r) == self@.request(),
            self@.wf(),
    {
        proof {
            use_type_invariant(self);
        }
        match self.stage {
            SynthesisStage::Submit => {
                let text = null_term(self.text.as_str());
                let size = text.len();
                Some(
                    Request::Synthesize {
                        text,
                        size,
                        position: 0,
                        position_type: POSITION_CHARACTER,
                        end_position: 0,
                        flags: CHARS_UTF8,
                        capture: self.capture,
                    },
                )
            },
            SynthesisStage::Wait => Some(Request::Synchronize),
            SynthesisStage::Collect => Some(Request::TakeAudio),
            SynthesisStage::Finished => None,
        }
    }

    /// Takes the driver's answer to the pending request. Where the answer
    /// is a status outside the engine's table, the operating system's
    /// error number is read, and the failure carries it if one is set.
    pub fn advance(self, reply: Reply) -> (r: Synthesis)
        ensures
            exists|os_error_set: bool| r@ == #[trigger] self@.advance(reply@, os_error_set),
            r@.wf(),
            self@.accepts(reply@) ==> r@.remaining() < self@.remaining(),
            !self@.accepts(reply@) ==> r@ == self@,
    {
        let os_error = last_os_error_number();
        let r = self.advance_with(reply, os_error);
        assert(r@ == self@.advance(reply@, os_error != 0));
        r
    }

    /// Takes the driver's answer to the pending request, given the
    /// operating system's error number as it stood when the answer came.
    pub fn advance_with(self, reply: Reply, os_error: i32) -> (r: Synthesis)
        ensures
            r@ == self@.advance(reply@, os_error != 0),
            r@.wf(),
            self@.accepts(reply@) ==> r@.remaining() < self@.remaining(),
            !self@.accepts(reply@) ==> r@ == self@,
    {
        proof {
            use_type_invariant(&self);
        }
        let mut next = self;
        match next.stage {
            SynthesisStage::Submit => {
                if let Reply::Status(code) = reply {
                    match status_result(code, os_error) {
                        Ok(_) => {
                            next.stage = SynthesisStage::Wait;
                        },
                        Err(error) => {
                            next.stage = SynthesisStage::Finished;
                            next.failure = Some(error);
                        },
                    }
                }
            },
            SynthesisStage::Wait => {
                if let Reply::Status(code) = reply {
                    match status_result(code, os_error) {
                        Ok(_) => {
                            if next.capture {
                                next.stage = SynthesisStage::Collect;
                            } else {
                                next.stage = SynthesisStage::Finished;
                            }
                        },
                        Err(error) => {
                            next.stage = SynthesisStage::Finished;
                            next.failure = Some(error);
                        },
                    }
                }
            },
            SynthesisStage::Collect => {
                if let Reply::Samples(samples) = reply {
                    next.stage = SynthesisStage::Finished;
                    next.samples = samples;
                }
            },
            SynthesisStage::Finished => {},
        }
        next
    }

    /// The result of the synthesis, once it is over.
    pub fn finish(self) -> (r: Option<Result<Vec<i16>, Error>>)
        ensures
            audio_view(r) == self@.outcome(),
    {
        proof {
            use_type_invariant(&self);
        }
        match self.stage {
            SynthesisStage::Finished => match self.failure {
                None => Some(Ok(self.samples)),
                Some(error) => Some(Err(error)),
            },
            _ => None,
        }
    }
}

/// Where a synthesis into a file stands.
#[derive(Clone, Copy, Debug, PartialEq, Eq, Structural)]
pub enum FileStage {
    /// The text is being synthesized.
    Synthesize,
    /// The audio has to be written.
    Write,
    /// The synthesis is over.
    Finished,
}

/// A synthesis into a file, as plain values.
pub struct FileSynthesisView {
    /// The synthesis of the text.
    pub synthesis: SynthesisView,
    pub stage: FileStage,
    /// The bytes that go into the file.
    pub bytes: Seq<u8>,
    /// The error that ended the synthesis, if one did.
    pub failure: Option<ErrorView>,
}

impl FileSynthesisView {
    /// The synthesis of `text` into a file, before anything was done.
    pub open spec fn start(text: Seq<char>) -> FileSynthesisView {
        FileSynthesisView {
            synthesis: SynthesisView::start(text, true),
            stage: FileStage::Synthesize,
            bytes: Seq::empty(),
            failure: None,
        }
    }

    /// What holds of every synthesis into a file: nothing is written before
    /// the audio is there, and what is written is the audio, each sample as
    /// two bytes with the low byte first, and nothing else.
    pub open spec fn wf(self) -> bool {
        &&& self.synthesis.wf()
        &&& self.synthesis.capture
        &&& self.stage != FileStage::Finished ==> self.failure is None
        &&& self.stage == FileStage::Synthesize ==> self.synthesis.stage
            != SynthesisStage::Finished && self.bytes == Seq::<u8>::empty()
        &&& self.stage == FileStage::Write ==> self.synthesis.outcome() == Some(
            Ok::<Seq<i16>, ErrorView>(self.synthesis.samples),
        ) && self.bytes == samples_to_le(self.synthesis.samples)
    }

    /// What the driver has to do next; nothing once the synthesis is over.
    pub open spec fn request(self) -> Option<RequestView> {
        match self.stage {
            FileStage::Synthesize => self.synthesis.request(),
            FileStage::Write => Some(RequestView::WriteFile { bytes: self.bytes }),
            FileStage::Finished => None,
        }
    }

    /// Whether a reply answers the pending request.
    pub open spec fn accepts(self, reply: ReplyView) -> bool {
        match self.stage {
            FileStage::Synthesize => self.synthesis.accepts(reply),
            FileStage::Write => reply is Done || reply is Failed,
            FileStage::Finished => false,
        }
    }

    /// The synthesis after a reply, given whether the operating system's
    /// error number was set when the reply was taken. A failed synthesis
    /// writes nothing; a reply that does not answer the pending request
    /// changes nothing.
    pub open spec fn advance(self, reply: ReplyView, os_error_set: bool) -> FileSynthesisView {
        match (self.stage, reply) {
            (FileStage::Synthesize, _) => {
                let synthesis = self.synthesis.advance(reply, os_error_set);
                match synthesis.outcome() {
                    None => FileSynthesisView { synthesis, ..self },
                    Some(Ok(samples)) => FileSynthesisView {
                        synthesis,
                        stage: FileStage::Write,
                        bytes: samples_to_le(samples),
                        ..self
                    },
                    Some(Err(error)) => FileSynthesisView {
                        synthesis,
                        stage: FileStage::Finished,
                        failure: Some(error),
                        ..self
                    },
                }
            },
            (FileStage::Write, ReplyView::Done) => FileSynthesisView {
                stage: FileStage::Finished,
                ..self
            },
            (FileStage::Write, ReplyView::Failed(text)) => FileSynthesisView {
                stage: FileStage::Finished,
                failure: Some(ErrorView::Other(OtherErrorView::Io(text))),
                ..self
            },
            _ => self,
        }
    }

    /// The result of the synthesis, once it is over.
    pub open spec fn outcome(self) -> Option<Result<(), ErrorView>> {
        if self.stage == FileStage::Finished {
            match self.failure {
                None => Some(Ok(())),
                Some(error) => Some(Err(error)),
            }
        } else {
            None
        }
    }

    /// A bound on the number of replies that the synthesis still takes.
    pub open spec fn remaining(self) -> nat {
        match self.stage {
            FileStage::Synthesize => self.synthesis.remaining() + 1,
            FileStage::Write => 1,
            FileStage::Finished => 0,
        }
    }
}

/// Every step keeps a synthesis into a file well-formed, and a step that
/// answers the pending request brings it nearer to its end.
pub proof fn lemma_file_synthesis_progress(
    session: FileSynthesisView,
    reply: ReplyView,
    os_error_set: bool,
)
    requires
        session.wf(),
    ensures
        session.advance(reply, os_error_set).wf(),
        session.accepts(reply) ==> session.advance(reply, os_error_set).remaining()
            < session.remaining(),
        !session.accepts(reply) ==> session.advance(reply, os_error_set) == session,
        session.request() is None <==> session.outcome() is Some,
{
}

/// Reading the file back gives the audio of the synthesis: the bytes that
/// a session asks to be written, read as samples of two bytes with the
/// low byte first, are the samples that the synthesis ended with.
pub proof fn lemma_file_holds_the_audio(session: FileSynthesisView, bytes: Seq<u8>)
    requires
        session.wf(),
        session.request() == Some(RequestView::WriteFile { bytes }),
    ensures
        session.synthesis.outcome() == Some(Ok::<Seq<i16>, ErrorView>(samples_from_le(bytes))),
        bytes.len() == 2 * session.synthesis.samples.len(),
{
    lemma_samples_round_trip(session.synthesis.samples);
}

/// A synthesis into a file: a session that the driver carries through by
/// doing what [`FileSynthesis::request`] asks and handing the answer to
/// [`FileSynthesis::advance`], until nothing is asked any more.
///
/// The file gets the bare samples. It has no header and says nothing of
/// the sample rate, so that reading it back gives the samples again.
#[derive(Debug)]
pub struct FileSynthesis {
    synthesis: Synthesis,
    stage: FileStage,
    bytes: Vec<u8>,
    failure: Option<Error>,
}

impl View for FileSynthesis {
    type V = FileSynthesisView;

    closed spec fn view(&self) -> FileSynthesisView {
        FileSynthesisView {
            synthesis: self.synthesis@,
            stage: self.stage,
            bytes: self.bytes@,
            failure: match self.failure {
                Some(error) => Some(error@),
                None => if self.stage == FileStage::Finished {
                    self.synthesis@.failure
                } else {
                    None
                },
            },
        }
    }
}

impl FileSynthesis {
    #[verifier::type_invariant]
    spec fn inv(self) -> bool {
        &&& self@.wf()
        &&& self.failure is Some ==> self.stage == FileStage::Finished
            && self.synthesis@.failure is None
    }

    /// Starts the synthesis of `text` into a file.
    pub fn new(text: &str) -> (r: FileSynthesis)
        ensures
            r@ == FileSynthesisView::start(text@),
            r@.wf(),
    {
        FileSynthesis {
            synthesis: Synthesis::new(text, true),
            stage: FileStage::Synthesize,
            bytes: Vec::new(),
            failure: None,
        }
    }

    /// Whether the synthesis is over.
    pub fn is_finished(&self) -> (r: bool)
        ensures
            r == (self@.stage == FileStage::Finished),
            r == (self@.request() is None),
            r == (self@.outcome() is Some),
            self@.wf(),
    {
        proof {
            use_type_invariant(self);
        }
        self.stage == FileStage::Finished
    }

    /// What the driver has to do next; nothing once the synthesis is over.
    pub fn request(&self) -> (r: Option<Request>)
        ensures
            pending(r) == self@.request(),
            self@.wf(),
    {
        proof {
            use_type_invariant(self);
        }
        match self.stage {
            FileStage::Synthesize => self.synthesis.request(),
            FileStage::Write => Some(Request::WriteFile { bytes: self.bytes.clone() }),
            FileStage::Finished => None,
        }
    }

    /// Takes the driver's answer to the pending request. Where the answer
    /// is a status outside the engine's table, the operating system's
    /// error number is read, and the failure carries it if one is set.
    pub fn advance(self, reply: Reply) -> (r: FileSynthesis)
        ensures
            exists|os_error_set: bool| r@ == #[trigger] self@.advance(reply@, os_error_set),
            r@.wf(),
            self@.accepts(reply@) ==> r@.remaining() < self@.remaining(),
            !self@.accepts(reply@) ==> r@ == self@,
    {
        let os_error = last_os_error_number();
        let r = self.advance_with(reply, os_error);
        assert(r@ == self@.advance(reply@, os_error != 0));
        r
    }

    /// Takes the driver's answer to the pending request, given the
    /// operating system's error number as it stood when the answer came.
    pub fn advance_with(self, reply: Reply, os_error: i32) -> (r: FileSynthesis)
        ensures
            r@ == self@.advance(reply@, os_error != 0),
            r@.wf(),
            self@.accepts(reply@) ==> r@.remaining() < self@.remaining(),
            !self@.accepts(reply@) ==> r@ == self@,
    {
        proof {
            use_type_invariant(&self);
        }
        let FileSynthesis { synthesis, stage, bytes, failure } = self;
        match stage {
            FileStage::Synthesize => {
                let synthesis = synthesis.advance_with(reply, os_error);
                if !synthesis.is_finished() {
                    FileSynthesis { synthesis, stage, bytes, failure }
                } else if synthesis.has_failed() {
                    FileSynthesis { synthesis, stage: FileStage::Finished, bytes, failure }
                } else {
                    let bytes = encode_samples(synthesis.samples());
                    FileSynthesis { synthesis, stage: FileStage::Write, bytes, failure }
                }
            },
            FileStage::Write => match reply {
                Reply::Done => FileSynthesis {
                    synthesis,
                    stage: FileStage::Finished,
                    bytes,
                    failure,
                },
                Reply::Failed(text) => FileSynthesis {
                    synthesis,
                    stage: FileStage::Finished,
                    bytes,
                    failure: Some(Error::Other(OtherError::Io(text))),
                },
                _ => FileSynthesis { synthesis, stage, bytes, failure },
            },
            FileStage::Finished => FileSynthesis { synthesis, stage, bytes, failure },
        }
    }

    /// The result of the synthesis, once it is over.
    pub fn finish(self) -> (r: Option<Result<(), Error>>)
        ensures
            unit_outcome_view(r) == self@.outcome(),
    {
        proof {
            use_type_invariant(&self);
        }
        match self.stage {
            FileStage::Finished => match self.failure {
                Some(error) => Some(Err(error)),
                None => match self.synthesis.finish() {
                    Some(Err(error)) => Some(Err(error)),
                    _ => Some(Ok(())),
                },
            },
            _ => None,
        }
    }
}

} // verus!
