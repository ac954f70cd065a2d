//! What all sessions have in common: they end.
//!
//! A session is a state machine that is moved on by replies. Each kind of
//! session has a measure, a bound on the replies that it still takes, and
//! every reply that answers the pending request lowers it. So whoever
//! answers each request in turn gets to the end of the session, and the
//! measure at the start says after how many replies at the latest.

use vstd::prelude::*;

use crate::engine::ReplyView;
use crate::phonemes::{lemma_extraction_progress, PhonemeExtractionView};
use crate::selection::{lemma_selection_progress, VoiceSelectionView};
use crate::startup::{lemma_initialisation_progress, InitialisationView};
use crate::synthesis::{
    lemma_file_synthesis_progress, lemma_synthesis_progress, FileSynthesisView, SynthesisView,
};

verus! {

/// A state machine that is moved on by replies and has a measure.
pub trait Session: Sized {
    /// What holds of every state that a session gets into.
    spec fn valid(self) -> bool;

    /// Whether the session has its result.
    spec fn over(self) -> bool;

    /// Whether a reply answers the pending request.
    spec fn takes(self, reply: ReplyView) -> bool;

    /// The state after a reply, given whether the operating system's
    /// error number was set when the reply was taken.
    spec fn step(self, reply: ReplyView, os_error_set: bool) -> Self;

    /// A bound on the replies that the session still takes.
    spec fn measure(self) -> nat;

    /// A step keeps the state valid; a reply that answers the pending
    /// request lowers the measure and any other reply changes nothing; and
    /// a session that is over takes no reply.
    proof fn progress(self, reply: ReplyView, os_error_set: bool)
        requires
            self.valid(),
        ensures
            self.step(reply, os_error_set).valid(),
            self.takes(reply) ==> self.step(reply, os_error_set).measure() < self.measure(),
            !self.takes(reply) ==> self.step(reply, os_error_set) == self,
            self.over() ==> !self.takes(reply),
            self.over() <==> self.measure() == 0,
    ;
}

/// The state of a session after a sequence of replies, taken in order.
/// Each reply comes with the state of the operating system's error number
/// at its time.
pub open spec fn run<S: Session>(session: S, replies: Seq<(ReplyView, bool)>) -> S
    decreases replies.len(),
{
    if replies.len() == 0 {
        session
    } else {
        run(session.step(replies[0].0, replies[0].1), replies.drop_first())
    }
}

/// Whether each reply of a sequence answers the request that is pending
/// when it comes, for as long as the session is not over.
pub open spec fn answers<S: Session>(session: S, replies: Seq<(ReplyView, bool)>) -> bool
    decreases replies.len(),
{
    replies.len() == 0 || ((session.over() || session.takes(replies[0].0)) && answers(
        session.step(replies[0].0, replies[0].1),
        replies.drop_first(),
    ))
}

/// Every session ends: once as many requests have been answered as the
/// measure said at the start, the session is over, and it stays over
/// whatever comes after.
pub proof fn lemma_session_ends<S: Session>(session: S, replies: Seq<(ReplyView, bool)>)
    requires
        session.valid(),
        answers(session, replies),
        replies.len() >= session.measure(),
    ensures
        run(session, replies).valid(),
        run(session, replies).over(),
    decreases replies.len(),
{
    if replies.len() == 0 {
        session.progress(ReplyView::Done, false);
    } else {
        session.progress(replies[0].0, replies[0].1);
        lemma_session_ends(session.step(replies[0].0, replies[0].1), replies.drop_first());
    }
}

impl Session for VoiceSelectionView {
    open spec fn valid(self) -> bool {
        self.wf()
    }

    open spec fn over(self) -> bool {
        self.outcome() is Some
    }

    open spec fn takes(self, reply: ReplyView) -> bool {
        self.accepts(reply)
    }

    open spec fn step(self, reply: ReplyView, os_error_set: bool) -> VoiceSelectionView {
        self.advance(reply, os_error_set)
    }

    open spec fn measure(self) -> nat {
        self.remaining()
    }

    proof fn progress(self, reply: ReplyView, os_error_set: bool) {
        lemma_selection_progress(self, reply, os_error_set);
    }
}

impl Session for InitialisationView {
    open spec fn valid(self) -> bool {
        self.wf()
    }

    open spec fn over(self) -> bool {
        self.outcome() is Some
    }

    open spec fn takes(self, reply: ReplyView) -> bool {
        self.accepts(reply)
    }

    open spec fn step(self, reply: ReplyView, os_error_set: bool) -> InitialisationView {
        self.advance(reply, os_error_set)
    }

    open spec fn measure(self) -> nat {
        self.remaining()
    }

    proof fn progress(self, reply: ReplyView, os_error_set: bool) {
        lemma_initialisation_progress(self, reply, os_error_set);
    }
}

impl Session for SynthesisView {
    open spec fn valid(self) -> bool {
        self.wf()
    }

    open spec fn over(self) -> bool {
        self.outcome() is Some
    }

    open spec fn takes(self, reply: ReplyView) -> bool {
        self.accepts(reply)
    }

    open spec fn step(self, reply: ReplyView, os_error_set: bool) -> SynthesisView {
        self.advance(reply, os_error_set)
    }

    open spec fn measure(self) -> nat {
        self.remaining()
    }

    proof fn progress(self, reply: ReplyView, os_error_set: bool) {
        lemma_synthesis_progress(self, reply, os_error_set);
    }
}

impl Session for FileSynthesisView {
    open spec fn valid(self) -> bool {
        self.wf()
    }

    open spec fn over(self) -> bool {
        self.outcome() is Some
    }

    open spec fn takes(self, reply: ReplyView) -> bool {
        self.accepts(reply)
    }

    open spec fn step(self, reply: ReplyView, os_error_set: bool) -> FileSynthesisView {
        self.advance(reply, os_error_set)
    }

    open spec fn measure(self) -> nat {
        self.remaining()
    }

    proof fn progress(self, reply: ReplyView, os_error_set: bool) {
        lemma_file_synthesis_progress(self, reply, os_error_set);
    }
}

impl Session for PhonemeExtractionView {
    open spec fn valid(self) -> bool {
        self.wf()
    }

    open spec fn over(self) -> bool {
        self.outcome() is Some
    }

    open spec fn takes(self, reply: ReplyView) -> bool {
        self.accepts(reply)
    }

    open spec fn step(self, reply: ReplyView, os_error_set: bool) -> PhonemeExtractionView {
        self.advance(reply, os_error_set)
    }

    open spec fn measure(self) -> nat {
        self.remaining()
    }

    proof fn progress(self, reply: ReplyView, os_error_set: bool) {
        lemma_extraction_progress(self, reply, os_error_set);
    }
}

} // verus!
