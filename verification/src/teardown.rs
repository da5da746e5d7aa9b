//! Ending a meeting: every participant is removed, then the room is
//! deleted. The rules live here as a machine from state and reply to next
//! state and action; the caller performs each action against the room
//! service and hands back the reply.
//!
//! A removal or the deletion that fails is counted and the run goes on: the
//! run always ends in `Finish`, unless the participants could not be listed
//! in the first place.

use vstd::prelude::*;
use vstd::string::*;
use vstd::pervasive::unreached;
use crate::json::texts_of;
use crate::models::{meeting_ended, ListParticipantsResponse, LiveKitParticipant, MessageResponse};

verus! {

/// Where a run stands.
#[derive(Debug, Clone, Copy, PartialEq, Eq, Structural)]
pub enum Phase {
    /// The participants were asked for.
    Listing,
    /// The removal of the participant at `next` was asked for.
    Removing,
    /// The deletion of the room was asked for.
    Deleting,
    /// The run is over and reported success.
    Finished,
    /// The run is over: the participants could not be listed.
    Aborted,
}

/// What a finished run did.
#[derive(Debug, Clone, Copy, PartialEq, Eq, Structural)]
pub struct Summary {
    /// How many removals were attempted: one for each participant listed.
    pub removals_attempted: usize,
    /// How many of them failed.
    pub removals_failed: usize,
    /// Whether the deletion of the room succeeded.
    pub room_deleted: bool,
}

impl Summary {
    /// The answer for the caller: success, whatever failed on the way.
    pub fn response(&self) -> (r: MessageResponse)
        ensures
            r.message@ == "Meeting ended"@,
            r.identity is None,
    {
        meeting_ended()
    }
}

/// What the room service answered to the last action.
#[derive(Debug, Clone)]
pub enum Reply {
    /// The identities of the room's participants, in the service's order.
    Participants(Vec<String>),
    /// The removal or deletion succeeded.
    Done,
    /// The call failed, with the service's message.
    Failed(String),
}

/// The mathematical value of a reply.
pub enum ReplyView {
    Participants(Seq<Seq<char>>),
    Done,
    Failed(Seq<char>),
}

impl View for Reply {
    type V = ReplyView;

    open spec fn view(&self) -> ReplyView {
        match *self {
            Reply::Participants(ps) => ReplyView::Participants(texts_of(ps@)),
            Reply::Done => ReplyView::Done,
            Reply::Failed(e) => ReplyView::Failed(e@),
        }
    }
}

/// The identities of the participants of a listing, in its order.
pub open spec fn identities_of(ps: Seq<LiveKitParticipant>) -> Seq<Seq<char>> {
    Seq::new(ps.len(), |i: int| ps[i].identity@)
}

/// The identities of the participants of a listing, in its order.
pub fn identities(list: &ListParticipantsResponse) -> (r: Vec<String>)
    ensures
        texts_of(r@) == identities_of(list.participants@),
{
    let mut out: Vec<String> = Vec::new();
    let mut i: usize = 0;
    while i < list.participants.len()
        invariant
            i <= list.participants.len(),
            out@.len() == i,
            forall|k: int| 0 <= k < i ==> (#[trigger] out@[k])@ == list.participants@[k].identity@,
        decreases list.participants.len() - i,
    {
        out.push(list.participants[i].identity.clone());
        i += 1;
    }
    assert(texts_of(out@) =~= identities_of(list.participants@));
    out
}

/// The reply that a listing of the room's participants amounts to.
pub fn listing_reply(listing: &Result<ListParticipantsResponse, String>) -> (r: Reply)
    ensures
        r@ == match *listing {
            Ok(list) => ReplyView::Participants(identities_of(list.participants@)),
            Err(e) => ReplyView::Failed(e@),
        },
{
    match listing {
        Ok(list) => Reply::Participants(identities(list)),
        Err(e) => Reply::Failed(e.clone()),
    }
}

/// The reply that the outcome of a removal or a deletion amounts to.
pub fn outcome_reply(outcome: &Result<(), String>) -> (r: Reply)
    ensures
        r@ == match *outcome {
            Ok(_) => ReplyView::Done,
            Err(e) => ReplyView::Failed(e@),
        },
{
    match outcome {
        Ok(_) => Reply::Done,
        Err(e) => Reply::Failed(e.clone()),
    }
}

/// What the caller is to do next.
#[derive(Debug, Clone)]
pub enum Action {
    /// Ask the room service for the room's participants.
    ListParticipants,
    /// Ask the room service to remove this participant.
    RemoveParticipant(String),
    /// Ask the room service to delete the room.
    DeleteRoom,
    /// Report success.
    Finish(Summary),
    /// Report failure with this message; nothing was removed or deleted.
    Abort(String),
}

/// The mathematical value of an action.
pub enum ActionView {
    ListParticipants,
    RemoveParticipant(Seq<char>),
    DeleteRoom,
    Finish(Summary),
    Abort(Seq<char>),
}

impl View for Action {
    type V = ActionView;

    open spec fn view(&self) -> ActionView {
        match *self {
            Action::ListParticipants => ActionView::ListParticipants,
            Action::RemoveParticipant(id) => ActionView::RemoveParticipant(id@),
            Action::DeleteRoom => ActionView::DeleteRoom,
            Action::Finish(s) => ActionView::Finish(s),
            Action::Abort(e) => ActionView::Abort(e@),
        }
    }
}

/// The state of a run.
#[derive(Debug)]
pub struct Teardown {
    phase: Phase,
    participants: Vec<String>,
    next: usize,
    failed: usize,
}

/// The mathematical value of a run's state.
pub struct TeardownView {
    pub phase: Phase,
    /// The participants as listed.
    pub participants: Seq<Seq<char>>,
    /// How many removals have been answered.
    pub next: nat,
    /// How many of them failed.
    pub failed: nat,
}

impl TeardownView {
    /// What holds of every state of a run.
    pub open spec fn wf(self) -> bool {
        &&& self.failed <= self.next <= self.participants.len() <= usize::MAX
        &&& self.phase == Phase::Listing ==> self.participants.len() == 0
        &&& self.phase == Phase::Removing ==> self.next < self.participants.len()
        &&& self.phase == Phase::Deleting || self.phase == Phase::Finished ==> self.next
            == self.participants.len()
    }

    /// Whether `reply` answers the action that led to this state.
    pub open spec fn expects(self, reply: ReplyView) -> bool {
        match self.phase {
            Phase::Listing => reply is Participants || reply is Failed,
            Phase::Removing | Phase::Deleting => reply is Done || reply is Failed,
            Phase::Finished | Phase::Aborted => false,
        }
    }

    /// The action that asks for the participant at `next`, or for the
    /// deletion once every participant has been asked for.
    pub open spec fn ask(self) -> ActionView {
        if self.next < self.participants.len() {
            ActionView::RemoveParticipant(self.participants[self.next as int])
        } else {
            ActionView::DeleteRoom
        }
    }

    /// The state after `reply`.
    pub open spec fn after(self, reply: ReplyView) -> TeardownView {
        match self.phase {
            Phase::Listing => match reply {
                ReplyView::Participants(ps) => TeardownView {
                    phase: if ps.len() == 0 {
                        Phase::Deleting
                    } else {
                        Phase::Removing
                    },
                    participants: ps,
                    next: 0,
                    failed: 0,
                },
                _ => TeardownView { phase: Phase::Aborted, ..self },
            },
            Phase::Removing => TeardownView {
                phase: if self.next + 1 < self.participants.len() {
                    Phase::Removing
                } else {
                    Phase::Deleting
                },
                participants: self.participants,
                next: self.next + 1,
                failed: if reply is Failed {
                    self.failed + 1
                } else {
                    self.failed
                },
            },
            Phase::Deleting => TeardownView { phase: Phase::Finished, ..self },
            _ => self,
        }
    }

    /// The action that answers `reply` in this state.
    pub open spec fn action(self, reply: ReplyView) -> ActionView {
        match self.phase {
            Phase::Listing => match reply {
                ReplyView::Failed(e) => ActionView::Abort(abort_message(e)),
                _ => self.after(reply).ask(),
            },
            Phase::Removing => self.after(reply).ask(),
            _ => ActionView::Finish(
                Summary {
                    removals_attempted: self.participants.len() as usize,
                    removals_failed: self.failed as usize,
                    room_deleted: reply is Done,
                },
            ),
        }
    }
}

/// The state of a run that has just begun.
pub open spec fn initial() -> TeardownView {
    TeardownView { phase: Phase::Listing, participants: Seq::empty(), next: 0, failed: 0 }
}

/// The message of a run that could not list the participants.
pub open spec fn abort_message(detail: Seq<char>) -> Seq<char> {
    "Failed to end meeting: "@ + detail
}

impl View for Teardown {
    type V = TeardownView;

    closed spec fn view(&self) -> TeardownView {
        TeardownView {
            phase: self.phase,
            participants: texts_of(self.participants@),
            next: self.next as nat,
            failed: self.failed as nat,
        }
    }
}

impl Teardown {
    #[verifier::type_invariant]
    closed spec fn well_formed(self) -> bool {
        self@.wf()
    }

    /// Begins a run: the first action is to list the participants.
    pub fn start() -> (r: (Teardown, Action))
        ensures
            r.0@ == initial(),
            r.0@.wf(),
            r.1@ == ActionView::ListParticipants,
    {
        let state = Teardown { phase: Phase::Listing, participants: Vec::new(), next: 0, failed: 0 };
        assert(state@.participants =~= Seq::<Seq<char>>::empty());
        (state, Action::ListParticipants)
    }

    /// Where the run stands.
    pub fn phase(&self) -> (r: Phase)
        ensures
            r == self@.phase,
    {
        self.phase
    }

    /// Whether the run is over.
    pub fn is_over(&self) -> (r: bool)
        ensures
            r == (self@.phase == Phase::Finished || self@.phase == Phase::Aborted),
    {
        match self.phase {
            Phase::Finished | Phase::Aborted => true,
            _ => false,
        }
    }

    /// Whether `reply` answers the action that led to this state.
    pub fn accepts(&self, reply: &Reply) -> (r: bool)
        ensures
            r == self@.expects(reply@),
    {
        match self.phase {
            Phase::Listing => match reply {
                Reply::Participants(_) | Reply::Failed(_) => true,
                Reply::Done => false,
            },
            Phase::Removing | Phase::Deleting => match reply {
                Reply::Done | Reply::Failed(_) => true,
                Reply::Participants(_) => false,
            },
            Phase::Finished | Phase::Aborted => false,
        }
    }

    fn ask(self) -> (r: (Teardown, Action))
        requires
            self.phase == (if self.next < self.participants@.len() {
                Phase::Removing
            } else {
                Phase::Deleting
            }),
        ensures
            r.0@ == self@,
            r.1@ == self@.ask(),
    {
        if self.next < self.participants.len() {
            let identity = self.participants[self.next].clone();
            (self, Action::RemoveParticipant(identity))
        } else {
            (self, Action::DeleteRoom)
        }
    }

    /// Takes the reply to the last action and gives the next one.
    ///
    /// A listing that fails ends the run with `Abort`: no removal and no
    /// deletion is asked for. After a listing that succeeds, the removal of
    /// each participant is asked for in the listed order, whether or not
    /// the removals before it succeeded, then the deletion of the room,
    /// once; whatever the reply to that, the run ends with `Finish`.
    pub fn step(self, reply: Reply) -> (r: (Teardown, Action))
        requires
            self@.expects(reply@),
        ensures
            r.0@.wf(),
            r.0@ == self@.after(reply@),
            r.1@ == self@.action(reply@),
    {
        proof {
            use_type_invariant(&self);
        }
        match self.phase {
            Phase::Listing => match reply {
                Reply::Participants(ps) => {
                    let phase = if ps.len() == 0 {
                        Phase::Deleting
                    } else {
                        Phase::Removing
                    };
                    let state = Teardown { phase, participants: ps, next: 0, failed: 0 };
                    state.ask()
                },
                Reply::Failed(e) => {
                    let message = String::from_str("Failed to end meeting: ").concat(e.as_str());
                    let state = Teardown {
                        phase: Phase::Aborted,
                        participants: self.participants,
                        next: self.next,
                        failed: self.failed,
                    };
                    (state, Action::Abort(message))
                },
                Reply::Done => unreached(),
            },
            Phase::Removing => {
                let failed = match reply {
                    Reply::Failed(_) => self.failed + 1,
                    _ => self.failed,
                };
                let next = self.next + 1;
                let phase = if next < self.participants.len() {
                    Phase::Removing
                } else {
                    Phase::Deleting
                };
                let state = Teardown { phase, participants: self.participants, next, failed };
                state.ask()
            },
            Phase::Deleting => {
                let summary = Summary {
                    removals_attempted: self.participants.len(),
                    removals_failed: self.failed,
                    room_deleted: match reply {
                        Reply::Done => true,
                        _ => false,
                    },
                };
                let state = Teardown {
                    phase: Phase::Finished,
                    participants: self.participants,
                    next: self.next,
                    failed: self.failed,
                };
                (state, Action::Finish(summary))
            },
            _ => unreached(),
        }
    }
}

/// The state after the participants `ps` were listed and the removals
/// asked for so far were answered by `replies`.
pub open spec fn after_removals(ps: Seq<Seq<char>>, replies: Seq<ReplyView>) -> TeardownView
    decreases replies.len(),
{
    if replies.len() == 0 {
        initial().after(ReplyView::Participants(ps))
    } else {
        after_removals(ps, replies.drop_last()).after(replies.last())
    }
}

/// The action that follows the listing of `ps` and the replies to the
/// removals asked for so far.
pub open spec fn action_after(ps: Seq<Seq<char>>, replies: Seq<ReplyView>) -> ActionView {
    if replies.len() == 0 {
        initial().action(ReplyView::Participants(ps))
    } else {
        after_removals(ps, replies.drop_last()).action(replies.last())
    }
}

/// How many of the replies are failures.
pub open spec fn failures(replies: Seq<ReplyView>) -> nat
    decreases replies.len(),
{
    if replies.len() == 0 {
        0
    } else {
        failures(replies.drop_last()) + if replies.last() is Failed {
            1nat
        } else {
            0nat
        }
    }
}

/// Whether each reply answers a removal.
pub open spec fn answer_removals(replies: Seq<ReplyView>) -> bool {
    forall|i: int| 0 <= i < replies.len() ==> (#[trigger] replies[i]) is Done || replies[i] is Failed
}

/// A listing that fails ends the run at once: the action is `Abort` with
/// the failure's message, and the state that is left takes no reply, so
/// that no removal and no deletion follows.
pub proof fn lemma_failed_listing_aborts(detail: Seq<char>, reply: ReplyView)
    ensures
        initial().expects(ReplyView::Failed(detail)),
        initial().action(ReplyView::Failed(detail)) == ActionView::Abort(abort_message(detail)),
        initial().after(ReplyView::Failed(detail)).phase == Phase::Aborted,
        !initial().after(ReplyView::Failed(detail)).expects(reply),
{
}

/// Every participant's removal is asked for, in the listed order and
/// whatever the replies to the removals before it were; once all are
/// answered the deletion of the room is asked for.
pub proof fn lemma_every_removal_is_attempted(ps: Seq<Seq<char>>, replies: Seq<ReplyView>)
    requires
        ps.len() <= usize::MAX,
        replies.len() <= ps.len(),
        answer_removals(replies),
    ensures
        after_removals(ps, replies).wf(),
        after_removals(ps, replies).participants == ps,
        after_removals(ps, replies).next == replies.len(),
        after_removals(ps, replies).failed == failures(replies),
        after_removals(ps, replies).phase == (if replies.len() < ps.len() {
            Phase::Removing
        } else {
            Phase::Deleting
        }),
        action_after(ps, replies) == (if replies.len() < ps.len() {
            ActionView::RemoveParticipant(ps[replies.len() as int])
        } else {
            ActionView::DeleteRoom
        }),
    decreases replies.len(),
{
    if replies.len() > 0 {
        let before = replies.drop_last();
        assert(answer_removals(before)) by {
            assert forall|i: int| 0 <= i < before.len() implies (#[trigger] before[i]) is Done
                || before[i] is Failed by {
                assert(before[i] == replies[i]);
            }
        }
        lemma_every_removal_is_attempted(ps, before);
        assert(replies.last() == replies[replies.len() - 1]);
    }
}

/// Once every removal is answered, the reply to the deletion ends the run
/// with `Finish`, whether the deletion or any removal failed: the summary
/// counts what failed.
pub proof fn lemma_run_ends_in_success(
    ps: Seq<Seq<char>>,
    replies: Seq<ReplyView>,
    deletion: ReplyView,
)
    requires
        ps.len() <= usize::MAX,
        replies.len() == ps.len(),
        answer_removals(replies),
        deletion is Done || deletion is Failed,
    ensures
        after_removals(ps, replies).expects(deletion),
        after_removals(ps, replies).action(deletion) == ActionView::Finish(
            Summary {
                removals_attempted: ps.len() as usize,
                removals_failed: failures(replies) as usize,
                room_deleted: deletion is Done,
            },
        ),
        after_removals(ps, replies).after(deletion).phase == Phase::Finished,
{
    lemma_every_removal_is_attempted(ps, replies);
}

} // verus!
