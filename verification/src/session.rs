//! The request-composer session: one configuration and one result slot.
//!
//! Submitting builds the request from the configuration and marks the slot as
//! pending under a fresh ticket. The caller sends the request off and later
//! hands the outcome back under that ticket. An outcome whose ticket is not
//! the pending one belongs to a request that has been superseded, and is
//! ignored. Polling reads the slot and changes nothing.

use crate::request::{
    build, built, default_config, json_object_text, ConstructionError, RequestConfig,
    RequestConfigView, WireRequest,
};
use crate::response::{
    classified, classify, content_type_of, ClassifiedResponse, ClassifiedResponseView,
    RawResponse,
};
use vstd::prelude::*;

verus! {

/// What a finished request resolved to, as plain values: the classified
/// response, or the transport's message.
pub type OutcomeView = Result<ClassifiedResponseView, Seq<char>>;

/// The plain-value reading of a resolved outcome.
pub open spec fn outcome_view(outcome: Result<ClassifiedResponse, String>) -> OutcomeView {
    match outcome {
        Ok(response) => Ok(response@),
        Err(message) => Err(message@),
    }
}

/// What the result slot holds.
#[derive(Debug)]
enum Slot {
    /// Nothing has been submitted yet.
    NotStarted,
    /// The request with this ticket is under way.
    Pending { ticket: u64 },
    /// The latest request has resolved.
    Ready { outcome: Result<ClassifiedResponse, String> },
}

/// A result slot as plain values.
pub enum SlotView {
    NotStarted,
    Pending { ticket: u64 },
    Ready { outcome: OutcomeView },
}

impl View for Slot {
    type V = SlotView;

    closed spec fn view(&self) -> SlotView {
        match self {
            Slot::NotStarted => SlotView::NotStarted,
            Slot::Pending { ticket } => SlotView::Pending { ticket: *ticket },
            Slot::Ready { outcome } => SlotView::Ready { outcome: outcome_view(*outcome) },
        }
    }
}

/// What a poll reports.
#[derive(Debug)]
pub enum Poll<'a> {
    NotStarted,
    Pending,
    Ready(&'a Result<ClassifiedResponse, String>),
}

/// A poll's report as plain values.
pub enum PollView {
    NotStarted,
    Pending,
    Ready(OutcomeView),
}

impl<'a> View for Poll<'a> {
    type V = PollView;

    open spec fn view(&self) -> PollView {
        match self {
            Poll::NotStarted => PollView::NotStarted,
            Poll::Pending => PollView::Pending,
            Poll::Ready(outcome) => PollView::Ready(outcome_view(**outcome)),
        }
    }
}

/// What a poll of `slot` reports.
pub open spec fn polled(slot: SlotView) -> PollView {
    match slot {
        SlotView::NotStarted => PollView::NotStarted,
        SlotView::Pending { ticket } => PollView::Pending,
        SlotView::Ready { outcome } => PollView::Ready(outcome),
    }
}

/// The ticket after `ticket`. Tickets go round after the last one.
pub open spec fn ticket_after(ticket: u64) -> u64 {
    if ticket == u64::MAX {
        0
    } else {
        (ticket + 1) as u64
    }
}

/// The slot and ticket counter of a session: all of it that submitting and
/// completing read and change.
pub struct Progress {
    pub slot: SlotView,
    pub next_ticket: u64,
}

/// `p` after a request has been submitted: the slot is pending under the
/// ticket that was next, and whatever it held is gone.
pub open spec fn submitted(p: Progress) -> Progress {
    Progress {
        slot: SlotView::Pending { ticket: p.next_ticket },
        next_ticket: ticket_after(p.next_ticket),
    }
}

/// `p` after the request with `ticket` has resolved to `outcome`: the slot
/// takes the outcome where that request is the pending one, and stays as it
/// is where it is not.
pub open spec fn completed(p: Progress, ticket: u64, outcome: OutcomeView) -> Progress {
    if p.slot == (SlotView::Pending { ticket }) {
        Progress { slot: SlotView::Ready { outcome }, next_ticket: p.next_ticket }
    } else {
        p
    }
}

/// `p` after the outcomes in `events` have been handed in, one after the
/// other, each under its ticket.
pub open spec fn after_completions(p: Progress, events: Seq<(u64, OutcomeView)>) -> Progress
    decreases events.len(),
{
    if events.len() == 0 {
        p
    } else {
        completed(after_completions(p, events.drop_last()), events.last().0, events.last().1)
    }
}

/// Of two requests submitted one after the other, the later one fills the
/// slot, in whichever order the two resolve: its outcome is the one that the
/// slot holds when both are done.
pub proof fn law_latest_submission_wins(p: Progress, first: OutcomeView, second: OutcomeView)
    ensures
        ({
            let once = submitted(p);
            let twice = submitted(once);
            let t1 = p.next_ticket;
            let t2 = once.next_ticket;
            &&& completed(completed(twice, t1, first), t2, second).slot == (SlotView::Ready {
                outcome: second,
            })
            &&& completed(completed(twice, t2, second), t1, first).slot == (SlotView::Ready {
                outcome: second,
            })
        }),
{
}

/// Once the slot is ready it stays as it is until the next submission:
/// whatever outcomes are still handed in, a poll reports the same value.
pub proof fn law_ready_slot_is_stable(p: Progress, events: Seq<(u64, OutcomeView)>)
    requires
        p.slot is Ready,
    ensures
        after_completions(p, events) == p,
        polled(after_completions(p, events).slot) == polled(p.slot),
    decreases events.len(),
{
    if events.len() > 0 {
        law_ready_slot_is_stable(p, events.drop_last());
    }
}

/// A pending slot waits for its own request: outcomes handed in under other
/// tickets leave it pending.
pub proof fn law_pending_slot_waits(p: Progress, events: Seq<(u64, OutcomeView)>)
    requires
        p.slot is Pending,
        forall|i: int| 0 <= i < events.len() ==> (#[trigger] events[i]).0 != p.slot->ticket,
    ensures
        after_completions(p, events) == p,
    decreases events.len(),
{
    if events.len() > 0 {
        let front = events.drop_last();
        assert forall|i: int| 0 <= i < front.len() implies (#[trigger] front[i]).0
            != p.slot->ticket by {
            assert(front[i] == events[i]);
        }
        law_pending_slot_waits(p, front);
        assert(events.last() == events[events.len() - 1]);
    }
}

/// A request on its way out: the ticket under which its outcome is to be
/// handed back, and the request itself.
#[derive(Debug)]
pub struct Dispatch {
    pub ticket: u64,
    pub request: WireRequest,
}

/// The single result slot with its ticket counter.
pub struct PendingSlot {
    slot: Slot,
    next_ticket: u64,
}

impl View for PendingSlot {
    type V = Progress;

    closed spec fn view(&self) -> Progress {
        Progress { slot: self.slot@, next_ticket: self.next_ticket }
    }
}

impl PendingSlot {
    /// A slot for which nothing has been submitted yet.
    pub fn new() -> (r: Self)
        ensures
            r@ == (Progress { slot: SlotView::NotStarted, next_ticket: 0 }),
    {
        PendingSlot { slot: Slot::NotStarted, next_ticket: 0 }
    }

    /// Marks the slot as pending under a fresh ticket, whatever it held, and
    /// returns the ticket.
    pub fn begin(&mut self) -> (ticket: u64)
        ensures
            ticket == old(self)@.next_ticket,
            final(self)@ == submitted(old(self)@),
    {
        let ticket = self.next_ticket;
        self.slot = Slot::Pending { ticket };
        self.next_ticket = if ticket == u64::MAX {
            0
        } else {
            ticket + 1
        };
        ticket
    }

    /// Takes the outcome of the request with `ticket`. It fills the slot where
    /// that request is the pending one; the outcome of a superseded request is
    /// dropped. Returns whether the slot took it.
    pub fn complete(&mut self, ticket: u64, outcome: Result<ClassifiedResponse, String>) -> (taken:
        bool)
        ensures
            final(self)@ == completed(old(self)@, ticket, outcome_view(outcome)),
            taken == (old(self)@.slot == (SlotView::Pending { ticket })),
    {
        let pending = match &self.slot {
            Slot::Pending { ticket: t } => *t == ticket,
            _ => false,
        };
        if pending {
            self.slot = Slot::Ready { outcome };
        }
        pending
    }

    /// Reports the slot. Nothing changes, so a poll after another reports the
    /// same.
    pub fn poll_result(&self) -> (r: Poll<'_>)
        ensures
            r@ == polled(self@.slot),
    {
        match &self.slot {
            Slot::NotStarted => Poll::NotStarted,
            Slot::Pending { ticket } => Poll::Pending,
            Slot::Ready { outcome } => Poll::Ready(outcome),
        }
    }
}

/// A request-composer session.
pub struct Session {
    /// The configuration, for the user interface to read and edit.
    pub config: RequestConfig,
    /// The result slot.
    pub pending: PendingSlot,
}

/// A session as plain values.
pub struct SessionView {
    pub config: RequestConfigView,
    pub progress: Progress,
}

impl View for Session {
    type V = SessionView;

    open spec fn view(&self) -> SessionView {
        SessionView { config: self.config@, progress: self.pending@ }
    }
}

impl Session {
    /// A session that has submitted nothing yet.
    pub fn new(config: RequestConfig) -> (r: Self)
        ensures
            r.config == config,
            r@.progress == (Progress { slot: SlotView::NotStarted, next_ticket: 0 }),
    {
        Session { config, pending: PendingSlot::new() }
    }

    /// Builds the request that the configuration describes and marks the slot
    /// as pending under a fresh ticket, whatever the slot held.
    pub fn submit(&mut self) -> (r: Result<Dispatch, ConstructionError>)
        ensures
            final(self).config == old(self).config,
            final(self)@.progress == submitted(old(self)@.progress),
            r matches Ok(dispatch) && dispatch.ticket == old(self)@.progress.next_ticket
                && dispatch.request@ == built(
                old(self)@.config,
                json_object_text(old(self)@.config.params),
            ),
    {
        match build(&self.config) {
            Ok(request) => {
                let ticket = self.pending.begin();
                Ok(Dispatch { ticket, request })
            },
            Err(e) => Err(e),
        }
    }

    /// Takes the outcome of the request with `ticket`: see
    /// [`PendingSlot::complete`].
    pub fn complete(&mut self, ticket: u64, outcome: Result<ClassifiedResponse, String>) -> (taken:
        bool)
        ensures
            final(self).config == old(self).config,
            final(self)@.progress == completed(old(self)@.progress, ticket, outcome_view(outcome)),
            taken == (old(self)@.progress.slot == (SlotView::Pending { ticket })),
    {
        self.pending.complete(ticket, outcome)
    }

    /// Reports the slot. Nothing changes, so a poll after another reports the
    /// same.
    pub fn poll_result(&self) -> (r: Poll<'_>)
        ensures
            r@ == polled(self@.progress.slot),
    {
        self.pending.poll_result()
    }
}

impl Default for Session {
    /// A session with the default configuration that has submitted nothing.
    fn default() -> (r: Self)
        ensures
            r@.config == default_config(),
            r@.progress == (Progress { slot: SlotView::NotStarted, next_ticket: 0 }),
    {
        Session::new(RequestConfig::default())
    }
}

/// Turns the transport's outcome into the value that the slot takes: a
/// response is classified, a failure keeps its message.
pub fn resolve(outcome: Result<RawResponse, String>) -> (r: Result<ClassifiedResponse, String>)
    ensures
        match outcome {
            Ok(raw) => r matches Ok(c) && c@ == classified(raw@, content_type_of(raw@.headers))
                && c.response == raw,
            Err(message) => r == Err::<ClassifiedResponse, String>(message),
        },
{
    match outcome {
        Ok(raw) => Ok(classify(raw)),
        Err(message) => Err(message),
    }
}

} // verus!
