//! Selecting a voice by its identifier.
//!
//! Voices of the diphone synthesizer are handled with care. The engine does
//! not report reliably that such a voice is missing, so its file is looked
//! for on disk before the engine is asked. And the engine is known to answer
//! "voice not found" for a diphone voice that is there and to accept it a
//! moment later, so that answer is retried: at most [`MAX_VOICE_ATTEMPTS`]
//! calls are made, with a pause before each retry that grows by
//! [`RETRY_DELAY_STEP_MS`], and the last answer is returned as the error.

use vstd::prelude::*;
use vstd::string::*;
use vstd::utf8::*;

use crate::engine::{pending, Reply, ReplyView, Request, RequestView};
use crate::error::{
    last_os_error_number, status_outcome, status_result, unit_outcome_view, ESpeakNgError, Error,
    ErrorView,
};
use crate::marshal::{null_term, null_terminated};

verus! {

/// How often the engine is asked at most to select one diphone voice.
pub const MAX_VOICE_ATTEMPTS: u32 = 10;

/// The pause before the first retry, in milliseconds; each further retry
/// waits that much longer than the one before.
pub const RETRY_DELAY_STEP_MS: u64 = 10;

/// Whether an identifier names a voice of the diphone synthesizer: those
/// identifiers start with `mb/`.
pub open spec fn is_mbrola_name(filename: Seq<char>) -> bool {
    filename.len() >= 3 && filename[0] == 'm' && filename[1] == 'b' && filename[2] == '/'
}

/// The file of a diphone voice, relative to the engine's data directory.
pub open spec fn voice_file_path(filename: Seq<char>) -> Seq<char> {
    "voices/"@ + filename
}

/// The pause before the next call, after `failures` calls that failed.
pub open spec fn retry_delay(failures: nat) -> u64 {
    (RETRY_DELAY_STEP_MS * failures) as u64
}

/// An ASCII character is encoded as itself, and the encoding of any other
/// character starts with a byte that is not ASCII.
proof fn lemma_encode_head(chars: Seq<char>)
    requires
        chars.len() > 0,
    ensures
        encode_utf8(chars).len() > 0,
        (chars[0] as u32) < 0x80 ==> encode_utf8(chars) == seq![(chars[0] as u32) as u8]
            + encode_utf8(chars.drop_first()),
        (chars[0] as u32) < 0x80 ==> encode_utf8(chars)[0] == chars[0] as u32,
        (chars[0] as u32) >= 0x80 ==> encode_utf8(chars)[0] >= 0x80,
{
    let s = chars[0] as u32;
    char_is_scalar(chars[0]);
    let head = encode_scalar(s);
    assert(encode_utf8(chars) == head + encode_utf8(chars.drop_first()));
    assert(head.len() > 0);
    assert(encode_utf8(chars)[0] == head[0]);
    if s < 0x80 {
        assert((s & 0x7F) as u8 == s as u8 && (s as u8) as u32 == s) by (bit_vector)
            requires
                s < 0x80,
        ;
        assert(head == seq![s as u8]);
    } else {
        assert(0xC0u8 | (((s >> 6) & 0x1F) as u8) >= 0x80) by (bit_vector);
        assert(0xE0u8 | (((s >> 12) & 0x0F) as u8) >= 0x80) by (bit_vector);
        assert(0xF0u8 | (((s >> 18) & 0x7) as u8) >= 0x80) by (bit_vector);
    }
}

/// Two characters with the same code are the same character.
proof fn lemma_char_by_code(c: char, d: char)
    requires
        c as u32 == d as u32,
    ensures
        c == d,
{
    char_u32_cast(c, c as u32);
    char_u32_cast(d, d as u32);
}

/// A text starts with `mb/` exactly if its UTF-8 encoding starts with the
/// three bytes of `mb/`.
proof fn lemma_mbrola_bytes(filename: Seq<char>)
    ensures
        is_mbrola_name(filename) <==> {
            let bytes = encode_utf8(filename);
            bytes.len() >= 3 && bytes[0] == 0x6d && bytes[1] == 0x62 && bytes[2] == 0x2f
        },
{
    let bytes = encode_utf8(filename);
    assert('m' as u32 == 0x6d && 'b' as u32 == 0x62 && '/' as u32 == 0x2f);
    if filename.len() > 0 {
        lemma_encode_head(filename);
        let c0 = filename[0];
        if (c0 as u32) < 0x80 {
            let rest1 = filename.drop_first();
            if bytes[0] == 0x6d {
                lemma_char_by_code(c0, 'm');
            }
            if rest1.len() > 0 {
                lemma_encode_head(rest1);
                let c1 = rest1[0];
                assert(c1 == filename[1]);
                assert(bytes[1] == encode_utf8(rest1)[0]);
                if (c1 as u32) < 0x80 {
                    let rest2 = rest1.drop_first();
                    if bytes[1] == 0x62 {
                        lemma_char_by_code(c1, 'b');
                    }
                    if rest2.len() > 0 {
                        lemma_encode_head(rest2);
                        let c2 = rest2[0];
                        assert(c2 == filename[2]);
                        assert(bytes[2] == encode_utf8(rest2)[0]);
                        if bytes[2] == 0x2f && (c2 as u32) < 0x80 {
                            lemma_char_by_code(c2, '/');
                        }
                    } else {
                        assert(encode_utf8(rest2).len() == 0);
                        assert(bytes.len() == 2);
                    }
                }
            } else {
                assert(encode_utf8(rest1).len() == 0);
                assert(bytes.len() == 1);
            }
        }
    } else {
        assert(bytes.len() == 0);
    }
}

/// Says whether an identifier names a voice of the diphone synthesizer.
pub fn is_mbrola_voice(filename: &str) -> (r: bool)
    ensures
        r == is_mbrola_name(filename@),
{
    let bytes = filename.as_bytes();
    proof {
        lemma_mbrola_bytes(filename@);
    }
    bytes.len() >= 3 && bytes[0] == 0x6d && bytes[1] == 0x62 && bytes[2] == 0x2f
}

/// Where the selection of a voice stands.
#[derive(Clone, Copy, Debug, PartialEq, Eq, Structural)]
pub enum SelectionStage {
    /// The voice file has to be looked for on disk.
    Probe,
    /// The engine has to be asked to select the voice.
    Call,
    /// The engine said "voice not found" and will be asked again after a
    /// pause.
    Backoff,
    /// The selection is over.
    Finished,
}

/// The selection of a voice, as plain values.
pub struct VoiceSelectionView {
    /// The identifier of the voice.
    pub filename: Seq<char>,
    pub stage: SelectionStage,
    /// How often the engine has answered "voice not found" so far.
    pub failures: nat,
    /// The error that ended the selection, if one did.
    pub failure: Option<ErrorView>,
}

impl VoiceSelectionView {
    /// The selection of the voice `filename`, before anything was done.
    pub open spec fn start(filename: Seq<char>) -> VoiceSelectionView {
        VoiceSelectionView {
            filename,
            stage: if is_mbrola_name(filename) {
                SelectionStage::Probe
            } else {
                SelectionStage::Call
            },
            failures: 0,
            failure: None,
        }
    }

    /// What holds of every selection: only a finished one has failed, and
    /// the engine has been asked less often than it may be.
    pub open spec fn wf(self) -> bool {
        &&& self.failures < MAX_VOICE_ATTEMPTS
        &&& self.stage != SelectionStage::Finished ==> self.failure is None
        &&& self.stage == SelectionStage::Probe ==> is_mbrola_name(self.filename)
            && self.failures == 0
        &&& self.stage == SelectionStage::Backoff ==> is_mbrola_name(self.filename)
            && self.failures > 0
    }

    /// What the driver has to do next; nothing once the selection is over.
    pub open spec fn request(self) -> Option<RequestView> {
        match self.stage {
            SelectionStage::Probe => Some(
                RequestView::ProbeVoiceFile { path: voice_file_path(self.filename) },
            ),
            SelectionStage::Call => Some(
                RequestView::SetVoiceByName { name: null_terminated(self.filename) },
            ),
            SelectionStage::Backoff => Some(
                RequestView::Pause { millis: retry_delay(self.failures) },
            ),
            SelectionStage::Finished => None,
        }
    }

    /// Whether a reply answers the pending request.
    pub open spec fn accepts(self, reply: ReplyView) -> bool {
        match self.stage {
            SelectionStage::Probe => reply is Found,
            SelectionStage::Call => reply is Status,
            SelectionStage::Backoff => reply is Done,
            SelectionStage::Finished => false,
        }
    }

    /// Whether a failed call is made again: the voice is a diphone voice,
    /// the engine said "voice not found", and another call is allowed.
    pub open spec fn retries(self, error: ErrorView) -> bool {
        &&& is_mbrola_name(self.filename)
        &&& error == ErrorView::ESpeakNg(ESpeakNgError::VoiceNotFound)
        &&& self.failures + 1 < MAX_VOICE_ATTEMPTS
    }

    /// The selection after a reply, given whether the operating system's
    /// error number was set when the reply was taken. A reply that does not
    /// answer the pending request changes nothing.
    pub open spec fn advance(self, reply: ReplyView, os_error_set: bool) -> VoiceSelectionView {
        match (self.stage, reply) {
            (SelectionStage::Probe, ReplyView::Found(found)) => if found {
                VoiceSelectionView { stage: SelectionStage::Call, ..self }
            } else {
                VoiceSelectionView {
                    stage: SelectionStage::Finished,
                    failure: Some(ErrorView::ESpeakNg(ESpeakNgError::VoiceNotFound)),
                    ..self
                }
            },
            (SelectionStage::Call, ReplyView::Status(code)) => match status_outcome(
                code,
                os_error_set,
            ) {
                Ok(_) => VoiceSelectionView { stage: SelectionStage::Finished, ..self },
                Err(error) => if self.retries(error) {
                    VoiceSelectionView {
                        stage: SelectionStage::Backoff,
                        failures: self.failures + 1,
                        ..self
                    }
                } else {
                    VoiceSelectionView {
                        stage: SelectionStage::Finished,
                        failure: Some(error),
                        ..self
                    }
                },
            },
            (SelectionStage::Backoff, ReplyView::Done) => VoiceSelectionView {
                stage: SelectionStage::Call,
                ..self
            },
            _ => self,
        }
    }

    /// The result of the selection, once it is over.
    pub open spec fn outcome(self) -> Option<Result<(), ErrorView>> {
        if self.stage == SelectionStage::Finished {
            match self.failure {
                None => Some(Ok(())),
                Some(error) => Some(Err(error)),
            }
        } else {
            None
        }
    }

    /// A bound on the number of replies that the selection still takes.
    pub open spec fn remaining(self) -> nat {
        let retries_left = (MAX_VOICE_ATTEMPTS - 1 - self.failures) as nat;
        match self.stage {
            SelectionStage::Probe => 2 * retries_left + 2,
            SelectionStage::Call => 2 * retries_left + 1,
            SelectionStage::Backoff => 2 * retries_left + 2,
            SelectionStage::Finished => 0,
        }
    }
}

/// Every step keeps a selection well-formed, and a step that answers the
/// pending request brings it nearer to its end. So a selection ends: from
/// its start it takes two replies for each allowed call at most.
pub proof fn lemma_selection_progress(
    session: VoiceSelectionView,
    reply: ReplyView,
    os_error_set: bool,
)
    requires
        session.wf(),
    ensures
        session.advance(reply, os_error_set).wf(),
        session.accepts(reply) ==> session.advance(reply, os_error_set).remaining()
            < session.remaining(),
        !session.accepts(reply) ==> session.advance(reply, os_error_set) == session,
        session.request() is None <==> session.outcome() is Some,
        VoiceSelectionView::start(session.filename).wf(),
        VoiceSelectionView::start(session.filename).remaining() <= 2 * MAX_VOICE_ATTEMPTS,
{
}

/// The selection of a voice: a session that the driver carries through by
/// doing what [`VoiceSelection::request`] asks and handing the answer to
/// [`VoiceSelection::advance`], until nothing is asked any more.
#[derive(Debug)]
pub struct VoiceSelection {
    filename: String,
    stage: SelectionStage,
    failures: u32,
    failure: Option<Error>,
}

impl View for VoiceSelection {
    type V = VoiceSelectionView;

    closed spec fn view(&self) -> VoiceSelectionView {
        VoiceSelectionView {
            filename: self.filename@,
            stage: self.stage,
            failures: self.failures as nat,
            failure: match self.failure {
                Some(error) => Some(error@),
                None => None,
            },
        }
    }
}

impl VoiceSelection {
    #[verifier::type_invariant]
    spec fn inv(self) -> bool {
        self@.wf()
    }

    /// Starts the selection of the voice `filename`.
    pub fn new(filename: &str) -> (r: VoiceSelection)
        ensures
            r@ == VoiceSelectionView::start(filename@),
            r@.wf(),
    {
        let stage = if is_mbrola_voice(filename) {
            SelectionStage::Probe
        } else {
            SelectionStage::Call
        };
        VoiceSelection { filename: String::from_str(filename), stage, failures: 0, failure: None }
    }

    /// Whether the selection is over.
    pub fn is_finished(&self) -> (r: bool)
        ensures
            r == (self@.stage == SelectionStage::Finished),
            r == (self@.request() is None),
            r == (self@.outcome() is Some),
            self@.wf(),
    {
        proof {
            use_type_invariant(self);
        }
        self.stage == SelectionStage::Finished
    }

    /// What the driver has to do next; nothing once the selection is over.
    pub fn request(&self) -> (r: Option<Request>)
        ensures
            pending(r) == self@.request(),
            self@.wf(),
    {
        proof {
            use_type_invariant(self);
        }
        match self.stage {
            SelectionStage::Probe => Some(
                Request::ProbeVoiceFile {
                    path: String::from_str("voices/").concat(self.filename.as_str()),
                },
            ),
            SelectionStage::Call => Some(
                Request::SetVoiceByName { name: null_term(self.filename.as_str()) },
            ),
            SelectionStage::Backoff => {
                assert(RETRY_DELAY_STEP_MS * self.failures <= 10 * 0xffff_ffff);
                Some(Request::Pause { millis: RETRY_DELAY_STEP_MS * (self.failures as u64) })
            },
            SelectionStage::Finished => None,
        }
    }

    /// Takes the driver's answer to the pending request. Where the answer
    /// is a status outside the engine's table, the operating system's
    /// error number is read, and the failure carries it if one is set.
    pub fn advance(self, reply: Reply) -> (r: VoiceSelection)
        ensures
            exists|os_error_set: bool| r@ == #[trigger] self@.advance(reply@, os_error_set),
            r@.wf(),
            self@.accepts(reply@) ==> r@.remaining() < self@.remaining(),
            !self@.accepts(reply@) ==> r@ == self@,
    {
        let os_error = last_os_error_number();
        let r = self.advance_with(reply, os_error);
        assert(r@ == self@.advance(reply@, os_error != 0));
        r
    }

    /// Takes the driver's answer to the pending request, given the
    /// operating system's error number as it stood when the answer came.
    pub fn advance_with(self, reply: Reply, os_error: i32) -> (r: VoiceSelection)
        ensures
            r@ == self@.advance(reply@, os_error != 0),
            r@.wf(),
            self@.accepts(reply@) ==> r@.remaining() < self@.remaining(),
            !self@.accepts(reply@) ==> r@ == self@,
    {
        proof {
            use_type_invariant(&self);
        }
        let mut next = self;
        match next.stage {
            SelectionStage::Probe => {
                if let Reply::Found(found) = reply {
                    if found {
                        next.stage = SelectionStage::Call;
                    } else {
                        next.stage = SelectionStage::Finished;
                        next.failure = Some(Error::ESpeakNg(ESpeakNgError::VoiceNotFound));
                    }
                }
            },
            SelectionStage::Call => {
                if let Reply::Status(code) = reply {
                    match status_result(code, os_error) {
                        Ok(_) => {
                            next.stage = SelectionStage::Finished;
                        },
                        Err(error) => {
                            let not_found = match &error {
                                Error::ESpeakNg(e) => *e == ESpeakNgError::VoiceNotFound,
                                _ => false,
                            };
                            if not_found && is_mbrola_voice(next.filename.as_str())
                                && next.failures < MAX_VOICE_ATTEMPTS - 1 {
                                next.failures = next.failures + 1;
                                next.stage = SelectionStage::Backoff;
                            } else {
                                next.stage = SelectionStage::Finished;
                                next.failure = Some(error);
                            }
                        },
                    }
                }
            },
            SelectionStage::Backoff => {
                if let Reply::Done = reply {
                    next.stage = SelectionStage::Call;
                }
            },
            SelectionStage::Finished => {},
        }
        next
    }

    /// The result of the selection, once it is over.
    pub fn finish(self) -> (r: Option<Result<(), Error>>)
        ensures
            unit_outcome_view(r) == self@.outcome(),
    {
        proof {
            use_type_invariant(&self);
        }
        match self.stage {
            SelectionStage::Finished => match self.failure {
                None => Some(Ok(())),
                Some(error) => Some(Err(error)),
            },
            _ => None,
        }
    }
}

} // verus!
