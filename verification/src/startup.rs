//! Bringing the engine up, once per process.

use vstd::prelude::*;
use vstd::string::*;

use crate::engine::{pending, Reply, ReplyView, Request, RequestView, OUTPUT_MODE_SYNCHRONOUS};
use crate::error::{last_os_error_number, status_outcome, status_result, Error, ErrorView};
use crate::marshal::{null_term, null_terminated};
use crate::selection::{is_mbrola_name, SelectionStage, VoiceSelection, VoiceSelectionView};
use crate::speaker::Speaker;

verus! {

/// `once_cell::sync::OnceCell`, the cell in which a process keeps the handle
/// on its engine. Nothing inside it is visible here.
#[verifier::external_type_specification]
#[verifier::external_body]
#[verifier::reject_recursive_types(T)]
pub struct ExOnceCell<T>(once_cell::sync::OnceCell<T>);

/// Reads the cell with `OnceCell::get`. What the cell holds depends on who
/// has written to it, in this thread or another, so nothing is claimed of
/// the result.
#[verifier::external_body]
fn published<H: Copy>(slot: &once_cell::sync::OnceCell<H>) -> Option<H> {
    slot.get().copied()
}

/// Where the initialisation of the engine stands.
#[derive(Clone, Copy, Debug, PartialEq, Eq, Structural)]
pub enum InitStage {
    /// The audio callback has to be registered.
    Callback,
    /// The data directory has to be set.
    Path,
    /// The engine core has to be initialised.
    Core,
    /// The engine's output has to be initialised.
    Output,
    /// The default voice is being selected.
    Voice,
    /// The initialisation is over.
    Finished,
}

/// The initialisation of the engine, as plain values.
pub struct InitialisationView {
    /// The data directory that was asked for, if one was.
    pub path: Option<Seq<char>>,
    pub stage: InitStage,
    /// The selection of the default voice.
    pub selection: VoiceSelectionView,
    /// The error that ended the initialisation, if one did.
    pub failure: Option<ErrorView>,
}

impl InitialisationView {
    /// The initialisation before anything was done.
    pub open spec fn start(path: Option<Seq<char>>) -> InitialisationView {
        InitialisationView {
            path,
            stage: InitStage::Callback,
            selection: VoiceSelectionView::start(Speaker::DEFAULT_VOICE@),
            failure: None,
        }
    }

    /// What holds of every initialisation: only a finished one has failed,
    /// the voice it selects is the default voice, and that selection starts
    /// when the output is up and ends with the initialisation.
    pub open spec fn wf(self) -> bool {
        &&& self.selection.wf()
        &&& self.selection.filename == Speaker::DEFAULT_VOICE@
        &&& self.stage != InitStage::Finished ==> self.failure is None
        &&& self.stage == InitStage::Voice ==> self.selection.stage != SelectionStage::Finished
        &&& self.stage == InitStage::Finished && self.failure is None ==> self.selection.outcome()
            == Some(Ok::<(), ErrorView>(()))
        &&& (self.stage == InitStage::Callback || self.stage == InitStage::Path || self.stage
            == InitStage::Core || self.stage == InitStage::Output) ==> self.selection
            == VoiceSelectionView::start(Speaker::DEFAULT_VOICE@)
    }

    /// What the driver has to do next; nothing once the initialisation is
    /// over.
    pub open spec fn request(self) -> Option<RequestView> {
        match self.stage {
            InitStage::Callback => Some(RequestView::SetSynthCallback),
            InitStage::Path => Some(
                RequestView::InitializePath {
                    path: match self.path {
                        Some(path) => Some(null_terminated(path)),
                        None => None,
                    },
                },
            ),
            InitStage::Core => Some(RequestView::Initialize),
            InitStage::Output => Some(
                RequestView::InitializeOutput {
                    output_mode: OUTPUT_MODE_SYNCHRONOUS,
                    buffer_length: 0,
                },
            ),
            InitStage::Voice => self.selection.request(),
            InitStage::Finished => None,
        }
    }

    /// Whether a reply answers the pending request.
    pub open spec fn accepts(self, reply: ReplyView) -> bool {
        match self.stage {
            InitStage::Callback | InitStage::Path => reply is Done,
            InitStage::Core | InitStage::Output => reply is Status,
            InitStage::Voice => self.selection.accepts(reply),
            InitStage::Finished => false,
        }
    }

    /// The initialisation, ended by `error`.
    pub open spec fn failed(self, error: ErrorView) -> InitialisationView {
        InitialisationView { stage: InitStage::Finished, failure: Some(error), ..self }
    }

    /// The initialisation after a reply, given whether the operating
    /// system's error number was set when the reply was taken. The first
    /// failure ends it; a reply that does not answer the pending request
    /// changes nothing.
    pub open spec fn advance(self, reply: ReplyView, os_error_set: bool) -> InitialisationView {
        match (self.stage, reply) {
            (InitStage::Callback, ReplyView::Done) => InitialisationView {
                stage: InitStage::Path,
                ..self
            },
            (InitStage::Path, ReplyView::Done) => InitialisationView {
                stage: InitStage::Core,
                ..self
            },
            (InitStage::Core, ReplyView::Status(code)) => match status_outcome(
                code,
                os_error_set,
            ) {
                Ok(_) => InitialisationView { stage: InitStage::Output, ..self },
                Err(error) => self.failed(error),
            },
            (InitStage::Output, ReplyView::Status(code)) => match status_outcome(
                code,
                os_error_set,
            ) {
                Ok(_) => InitialisationView { stage: InitStage::Voice, ..self },
                Err(error) => self.failed(error),
            },
            (InitStage::Voice, _) => {
                let selection = self.selection.advance(reply, os_error_set);
                match selection.outcome() {
                    None => InitialisationView { selection, ..self },
                    Some(Ok(_)) => InitialisationView {
                        stage: InitStage::Finished,
                        selection,
                        ..self
                    },
                    Some(Err(error)) => InitialisationView {
                        stage: InitStage::Finished,
                        selection,
                        failure: Some(error),
                        ..self
                    },
                }
            },
            _ => self,
        }
    }

    /// The result of the initialisation, once it is over: the engine is up
    /// and the default voice selected, or the error that stopped it.
    pub open spec fn outcome(self) -> Option<Result<(), ErrorView>> {
        if self.stage == InitStage::Finished {
            match self.failure {
                None => Some(Ok(())),
                Some(error) => Some(Err(error)),
            }
        } else {
            None
        }
    }

    /// A bound on the number of replies that the initialisation still takes.
    pub open spec fn remaining(self) -> nat {
        match self.stage {
            InitStage::Callback => 4 + self.selection.remaining(),
            InitStage::Path => 3 + self.selection.remaining(),
            InitStage::Core => 2 + self.selection.remaining(),
            InitStage::Output => 1 + self.selection.remaining(),
            InitStage::Voice => self.selection.remaining(),
            InitStage::Finished => 0,
        }
    }
}

/// An engine that came up has the default voice selected: an
/// initialisation ends well only when the selection of
/// [`Speaker::DEFAULT_VOICE`] has ended well.
pub proof fn lemma_starts_with_default_voice(session: InitialisationView)
    requires
        session.wf(),
        session.outcome() == Some(Ok::<(), ErrorView>(())),
    ensures
        session.selection.filename == Speaker::DEFAULT_VOICE@,
        session.selection.outcome() == Some(Ok::<(), ErrorView>(())),
{
}

/// The engine is brought up in one order: callback, data directory, core,
/// output, default voice. A step leads to the next stage or, on a failure,
/// to the end; no stage is left out and none comes twice.
pub proof fn lemma_initialisation_order(
    session: InitialisationView,
    reply: ReplyView,
    os_error_set: bool,
)
    requires
        session.wf(),
        session.advance(reply, os_error_set).stage != session.stage,
    ensures
        match session.stage {
            InitStage::Callback => session.advance(reply, os_error_set).stage == InitStage::Path,
            InitStage::Path => session.advance(reply, os_error_set).stage == InitStage::Core,
            InitStage::Core => session.advance(reply, os_error_set).stage == InitStage::Output
                || session.advance(reply, os_error_set).outcome() is Some,
            InitStage::Output => session.advance(reply, os_error_set).stage == InitStage::Voice
                || session.advance(reply, os_error_set).outcome() is Some,
            InitStage::Voice => session.advance(reply, os_error_set).outcome() is Some,
            InitStage::Finished => false,
        },
        session.advance(reply, os_error_set).outcome() matches Some(Err(_)) ==> reply is Status,
{
    lemma_default_voice_is_ordinary();
}

/// The default voice is no voice of the diphone synthesizer: its selection
/// is one call of the engine, without a look at the disk and without a
/// retry.
pub proof fn lemma_default_voice_is_ordinary()
    ensures
        !is_mbrola_name(Speaker::DEFAULT_VOICE@),
        VoiceSelectionView::start(Speaker::DEFAULT_VOICE@).request() == Some(
            RequestView::SetVoiceByName { name: null_terminated(Speaker::DEFAULT_VOICE@) },
        ),
{
    reveal_strlit("gmw/en");
}

/// Every step keeps an initialisation well-formed, and a step that
/// answers the pending request brings it nearer to its end.
pub proof fn lemma_initialisation_progress(
    session: InitialisationView,
    reply: ReplyView,
    os_error_set: bool,
)
    requires
        session.wf(),
    ensures
        session.advance(reply, os_error_set).wf(),
        session.accepts(reply) ==> session.advance(reply, os_error_set).remaining()
            < session.remaining(),
        !session.accepts(reply) ==> session.advance(reply, os_error_set) == session,
        session.request() is None <==> session.outcome() is Some,
{
}

/// The initialisation of the engine: a session that the driver carries
/// through by doing what [`Initialisation::request`] asks and handing the
/// answer to [`Initialisation::advance`], until nothing is asked any more.
#[derive(Debug)]
pub struct Initialisation {
    path: Option<String>,
    stage: InitStage,
    selection: VoiceSelection,
    failure: Option<Error>,
}

impl View for Initialisation {
    type V = InitialisationView;

    closed spec fn view(&self) -> InitialisationView {
        InitialisationView {
            path: match self.path {
                Some(path) => Some(path@),
                None => None,
            },
            stage: self.stage,
            selection: self.selection@,
            failure: match self.failure {
                Some(error) => Some(error@),
                None => if self.stage == InitStage::Finished {
                    self.selection@.failure
                } else {
                    None
                },
            },
        }
    }
}

/// The view of the result of an initialisation, if there is one. The handle
/// holds nothing, so success is viewed as `()`.
pub open spec fn started_view(r: Option<Result<Speaker, Error>>) -> Option<
    Result<(), ErrorView>,
> {
    match r {
        Some(Ok(_)) => Some(Ok(())),
        Some(Err(error)) => Some(Err(error@)),
        None => None,
    }
}

impl Initialisation {
    #[verifier::type_invariant]
    spec fn inv(self) -> bool {
        &&& self@.wf()
        &&& self.failure is Some ==> self.stage == InitStage::Finished
            && self.selection@.failure is None
    }

    /// Starts the initialisation of the engine, with its data in
    /// `voice_path` or, without one, in the engine's default directory.
    pub fn new(voice_path: Option<&str>) -> (r: Initialisation)
        ensures
            r@ == InitialisationView::start(path_view(voice_path)),
            r@.wf(),
    {
        let path = match voice_path {
            Some(path) => Some(String::from_str(path)),
            None => None,
        };
        Initialisation {
            path,
            stage: InitStage::Callback,
            selection: VoiceSelection::new(Speaker::DEFAULT_VOICE),
            failure: None,
        }
    }

    /// Whether the initialisation is over.
    pub fn is_finished(&self) -> (r: bool)
        ensures
            r == (self@.stage == InitStage::Finished),
            r == (self@.request() is None),
            r == (self@.outcome() is Some),
            self@.wf(),
    {
        proof {
            use_type_invariant(self);
        }
        self.stage == InitStage::Finished
    }

    /// What the driver has to do next; nothing once the initialisation is
    /// over.
    pub fn request(&self) -> (r: Option<Request>)
        ensures
            pending(r) == self@.request(),
            self@.wf(),
    {
        proof {
            use_type_invariant(self);
        }
        match self.stage {
            InitStage::Callback => Some(Request::SetSynthCallback),
            InitStage::Path => {
                let path = match &self.path {
                    Some(path) => Some(null_term(path.as_str())),
                    None => None,
                };
                Some(Request::InitializePath { path })
            },
            InitStage::Core => Some(Request::Initialize),
            InitStage::Output => Some(
                Request::InitializeOutput {
                    output_mode: OUTPUT_MODE_SYNCHRONOUS,
                    buffer_length: 0,
                },
            ),
            InitStage::Voice => self.selection.request(),
            InitStage::Finished => None,
        }
    }

    /// Takes the driver's answer to the pending request. Where the answer
    /// is a status outside the engine's table, the operating system's
    /// error number is read, and the failure carries it if one is set.
    pub fn advance(self, reply: Reply) -> (r: Initialisation)
        ensures
            exists|os_error_set: bool| r@ == #[trigger] self@.advance(reply@, os_error_set),
            r@.wf(),
            self@.accepts(reply@) ==> r@.remaining() < self@.remaining(),
            !self@.accepts(reply@) ==> r@ == self@,
    {
        let os_error = last_os_error_number();
        let r = self.advance_with(reply, os_error);
        assert(r@ == self@.advance(reply@, os_error != 0));
        r
    }

    /// Takes the driver's answer to the pending request, given the
    /// operating system's error number as it stood when the answer came.
    pub fn advance_with(self, reply: Reply, os_error: i32) -> (r: Initialisation)
        ensures
            r@ == self@.advance(reply@, os_error != 0),
            r@.wf(),
            self@.accepts(reply@) ==> r@.remaining() < self@.remaining(),
            !self@.accepts(reply@) ==> r@ == self@,
    {
        proof {
            use_type_invariant(&self);
        }
        let Initialisation { path, stage, selection, failure } = self;
        match stage {
            InitStage::Callback => match reply {
                Reply::Done => Initialisation { path, stage: InitStage::Path, selection, failure },
                _ => Initialisation { path, stage, selection, failure },
            },
            InitStage::Path => match reply {
                Reply::Done => Initialisation { path, stage: InitStage::Core, selection, failure },
                _ => Initialisation { path, stage, selection, failure },
            },
            InitStage::Core => match reply {
                Reply::Status(code) => match status_result(code, os_error) {
                    Ok(_) => Initialisation { path, stage: InitStage::Output, selection, failure },
                    Err(error) => Initialisation {
                        path,
                        stage: InitStage::Finished,
                        selection,
                        failure: Some(error),
                    },
                },
                _ => Initialisation { path, stage, selection, failure },
            },
            InitStage::Output => match reply {
                Reply::Status(code) => match status_result(code, os_error) {
                    Ok(_) => Initialisation { path, stage: InitStage::Voice, selection, failure },
                    Err(error) => Initialisation {
                        path,
                        stage: InitStage::Finished,
                        selection,
                        failure: Some(error),
                    },
                },
                _ => Initialisation { path, stage, selection, failure },
            },
            InitStage::Voice => {
                let selection = selection.advance_with(reply, os_error);
                let stage = if selection.is_finished() {
                    InitStage::Finished
                } else {
                    InitStage::Voice
                };
                Initialisation { path, stage, selection, failure }
            },
            InitStage::Finished => Initialisation { path, stage, selection, failure },
        }
    }

    /// The result of the initialisation, once it is over: the handle on the
    /// engine, or the error that stopped the engine from coming up.
    pub fn finish(self) -> (r: Option<Result<Speaker, Error>>)
        ensures
            started_view(r) == self@.outcome(),
    {
        proof {
            use_type_invariant(&self);
        }
        match self.stage {
            InitStage::Finished => match self.failure {
                Some(error) => Some(Err(error)),
                None => match self.selection.finish() {
                    Some(Err(error)) => Some(Err(error)),
                    _ => Some(Ok(Speaker::started())),
                },
            },
            _ => None,
        }
    }
}

/// What a call for the engine's handle leads to.
#[derive(Debug)]
pub enum Admission<H> {
    /// The engine is up: this is its handle.
    Existing(H),
    /// The engine has to be brought up: this session does it.
    Fresh(Initialisation),
}

/// What an [`Admission`] holds, as plain values.
pub enum AdmissionView<H> {
    Existing(H),
    Fresh(InitialisationView),
}

impl<H> View for Admission<H> {
    type V = AdmissionView<H>;

    open spec fn view(&self) -> AdmissionView<H> {
        match self {
            Admission::Existing(handle) => AdmissionView::Existing(*handle),
            Admission::Fresh(session) => AdmissionView::Fresh(session@),
        }
    }
}

/// What a call for the handle leads to, given the handle that was
/// published before, if one was: the first call wins. A later call gets
/// the handle of the first, and the path it brings is not looked at.
pub open spec fn admission<H>(existing: Option<H>, voice_path: Option<Seq<char>>) -> AdmissionView<
    H,
> {
    match existing {
        Some(handle) => AdmissionView::Existing(handle),
        None => AdmissionView::Fresh(InitialisationView::start(voice_path)),
    }
}

/// Initialisation is idempotent: once a handle is published, a call for
/// the handle returns that handle, and its path has no effect.
pub proof fn lemma_first_call_wins<H>(
    handle: H,
    first_path: Option<Seq<char>>,
    second_path: Option<Seq<char>>,
)
    ensures
        admission(Some(handle), second_path) == AdmissionView::Existing(handle),
        admission(Some(handle), second_path) == admission(Some(handle), first_path),
{
}

/// The views of an optional path.
pub open spec fn path_view(voice_path: Option<&str>) -> Option<Seq<char>> {
    match voice_path {
        Some(path) => Some(path@),
        None => None,
    }
}

/// Decides what a call for the handle leads to, given the handle that was
/// published before, if one was.
pub fn decide_admission<H>(existing: Option<H>, voice_path: Option<&str>) -> (r: Admission<H>)
    ensures
        r@ == admission(existing, path_view(voice_path)),
{
    match existing {
        Some(handle) => Admission::Existing(handle),
        None => Admission::Fresh(Initialisation::new(voice_path)),
    }
}

/// Answers a call for the engine's handle: the handle that `slot` holds,
/// or, where it holds none, the session that brings the engine up. Whoever
/// drives that session publishes the handle in `slot` when it has ended
/// well; after a failure the slot stays empty, and a later call starts
/// again.
pub fn initialise<H: Copy>(slot: &once_cell::sync::OnceCell<H>, voice_path: Option<&str>) -> (r:
    Admission<H>)
    ensures
        r matches Admission::Fresh(session) ==> session@ == InitialisationView::start(
            path_view(voice_path),
        ),
{
    decide_admission(published(slot), voice_path)
}

/// The engine's handle, if one was published. Nothing is initialised on
/// the way.
pub fn get<H: Copy>(slot: &once_cell::sync::OnceCell<H>) -> Option<H> {
    published(slot)
}

} // verus!
