//! What holds of the mediator as a whole: of the worker under every
//! interleaving of arrivals and completions, of the interface under every
//! timing of responses, and of the two together.

use crate::app::AppState;
use crate::event_handler::dispatch;
use crate::event_handler::response_to;
use crate::event_handler::EventResponseSpec;
use crate::event_handler::EventSpec;
use crate::event_handler::OperationSpec;
use crate::event_handler::ReplySpec;
use crate::event_handler::RequestSpec;
use crate::event_handler::WorkerState;
use crate::event_handler::PAGE_SIZE;
use crate::mail::EmailSpec;
use vstd::prelude::*;

verus! {

/// One thing that can happen to the worker.
pub enum Step {
    /// A command arrives.
    Accept(EventSpec),
    /// The worker looks for its next command.
    Listen,
    /// The network hands back a reply.
    Complete(ReplySpec),
    /// The oldest response is handed on.
    TakeResponse,
}

impl WorkerState {
    /// The worker with nothing received, nothing outstanding and nothing
    /// produced.
    pub open spec fn idle() -> WorkerState {
        WorkerState { pending: Seq::empty(), in_flight: None, responses: Seq::empty() }
    }

    /// The state after one step.
    pub open spec fn step(self, step: Step) -> WorkerState {
        match step {
            Step::Accept(event) => self.accept(event),
            Step::Listen => self.listen(),
            Step::Complete(reply) => self.complete(reply),
            Step::TakeResponse => self.take_response(),
        }
    }

    /// The state after the steps in `steps`, in order.
    pub open spec fn run(self, steps: Seq<Step>) -> WorkerState
        decreases steps.len(),
    {
        if steps.len() == 0 {
            self
        } else {
            self.run(steps.drop_last()).step(steps.last())
        }
    }

    /// Whether `step` makes the worker begin a network operation.
    pub open spec fn begins(self, step: Step) -> bool {
        step is Listen && self.ready()
    }

    /// Whether `step` ends the outstanding network operation.
    pub open spec fn ends(self, step: Step) -> bool {
        step is Complete && self.in_flight is Some
    }

    /// The number of network operations begun and not yet ended after the
    /// steps in `steps`, counted from a worker with nothing outstanding.
    pub open spec fn outstanding(self, steps: Seq<Step>) -> int
        decreases steps.len(),
    {
        if steps.len() == 0 {
            0
        } else {
            let before = self.run(steps.drop_last());
            self.outstanding(steps.drop_last()) + (if before.begins(steps.last()) {
                1int
            } else {
                0int
            }) - (if before.ends(steps.last()) {
                1int
            } else {
                0int
            })
        }
    }

    /// The network operations that the worker begins, in order, when it is
    /// run to the end of `replies`: for each reply it looks for its next
    /// command and then ends that command's operation with the reply.
    pub open spec fn served(self, replies: Seq<ReplySpec>) -> Seq<RequestSpec>
        decreases replies.len(),
    {
        if replies.len() == 0 {
            Seq::empty()
        } else {
            let rest = self.listen().complete(replies[0]).served(replies.drop_first());
            match self.begun() {
                Some(request) => seq![request] + rest,
                None => rest,
            }
        }
    }

    /// The state after the commands in `events` arrived, in order.
    pub open spec fn accept_all(self, events: Seq<EventSpec>) -> WorkerState
        decreases events.len(),
    {
        if events.len() == 0 {
            self
        } else {
            self.accept_all(events.drop_last()).accept(events.last())
        }
    }
}

/// Commands that arrive wait behind those that arrived before them, and
/// touch nothing else.
pub proof fn lemma_accept_all(worker: WorkerState, events: Seq<EventSpec>)
    ensures
        worker.accept_all(events) == (WorkerState {
            pending: worker.pending + events,
            ..worker
        }),
    decreases events.len(),
{
    if events.len() == 0 {
        assert(worker.pending + events =~= worker.pending);
    } else {
        lemma_accept_all(worker, events.drop_last());
        assert(worker.pending + events =~= (worker.pending + events.drop_last()).push(
            events.last(),
        ));
    }
}

/// A worker with nothing outstanding begins the operations of its waiting
/// commands in the order the commands arrived, one for each reply that ends
/// the operation before it, whatever the replies are.
pub proof fn lemma_served_in_order(worker: WorkerState, replies: Seq<ReplySpec>)
    requires
        worker.in_flight is None,
        replies.len() == worker.pending.len(),
    ensures
        worker.served(replies) == worker.pending.map_values(|event: EventSpec| dispatch(event)),
    decreases replies.len(),
{
    let expected = worker.pending.map_values(|event: EventSpec| dispatch(event));
    if replies.len() == 0 {
        assert(worker.served(replies) =~= expected);
    } else {
        let next = worker.listen().complete(replies[0]);
        assert(next.in_flight is None);
        assert(next.pending == worker.pending.drop_first());
        lemma_served_in_order(next, replies.drop_first());
        assert(worker.served(replies) =~= expected);
    }
}

/// First in, first out: when any commands arrive at a worker that has
/// nothing to do, the network operations it begins are those of the
/// commands, in the order the commands arrived.
pub proof fn lemma_commands_begin_in_order(events: Seq<EventSpec>, replies: Seq<ReplySpec>)
    requires
        replies.len() == events.len(),
    ensures
        WorkerState::idle().accept_all(events).served(replies) == events.map_values(
            |event: EventSpec| dispatch(event),
        ),
{
    lemma_accept_all(WorkerState::idle(), events);
    let worker = WorkerState::idle().accept_all(events);
    assert(worker.pending =~= events);
    lemma_served_in_order(worker, replies);
}

/// After any steps, the operations begun and not yet ended are exactly the
/// one that the worker holds as outstanding, if it holds one.
pub proof fn lemma_outstanding(worker: WorkerState, steps: Seq<Step>)
    requires
        worker.in_flight is None,
    ensures
        worker.outstanding(steps) == (if worker.run(steps).in_flight is Some {
            1int
        } else {
            0int
        }),
    decreases steps.len(),
{
    if steps.len() > 0 {
        lemma_outstanding(worker, steps.drop_last());
    }
}

/// Single flight: however arrivals, looks for the next command and replies
/// interleave, the worker never has more than one network operation
/// outstanding. While one is outstanding a look for the next command begins
/// nothing and changes nothing; the end of the operation, by success or by
/// failure, is what frees the worker for the next.
pub proof fn lemma_single_flight(worker: WorkerState, steps: Seq<Step>, reply: ReplySpec)
    requires
        worker.in_flight is None,
    ensures
        0 <= worker.outstanding(steps) <= 1,
        worker.run(steps).in_flight is Some ==> worker.run(steps).begun() is None
            && worker.run(steps).listen() == worker.run(steps),
        worker.run(steps).begun() is Some ==> worker.run(steps).listen().begun() is None,
        worker.run(steps).complete(reply).in_flight is None,
{
    lemma_outstanding(worker, steps);
}

/// The deletion of all messages is two commands, the deletion and then a
/// fresh listing of the same mailbox, and a worker with nothing else to do
/// serves them in that order: it begins the deletion, begins nothing more
/// while the deletion is outstanding, and begins the listing once the
/// deletion has ended, whatever its reply.
pub proof fn lemma_delete_all_then_list(app: AppState, address: Seq<char>, reply: ReplySpec)
    ensures
        app.request_delete_all(address).events == app.events.push(
            EventSpec::DeleteAllEmails(address),
        ).push(EventSpec::FetchEmails(address)),
        ({
            let worker = WorkerState::idle().accept(EventSpec::DeleteAllEmails(address)).accept(
                EventSpec::FetchEmails(address),
            );
            &&& worker.begun() == Some(
                RequestSpec { address, operation: OperationSpec::DeleteAllEmails },
            )
            &&& worker.listen().begun() is None
            &&& worker.listen().listen() == worker.listen()
            &&& worker.listen().complete(reply).begun() == Some(
                RequestSpec {
                    address,
                    operation: OperationSpec::ListEmails { limit: PAGE_SIZE as nat, offset: 0 },
                },
            )
        }),
{
    let worker = WorkerState::idle().accept(EventSpec::DeleteAllEmails(address)).accept(
        EventSpec::FetchEmails(address),
    );
    assert(worker.pending[0] == EventSpec::DeleteAllEmails(address));
    assert(worker.listen().complete(reply).pending[0] == EventSpec::FetchEmails(address));
}

/// A failed operation is silent: whatever the command, the worker produces
/// no response for it, only the report, and is free again. An interface to
/// which no response was delivered is left as it is by its poll: no message
/// leaves the list and a command is still believed outstanding.
pub proof fn lemma_failure_is_silent(
    app: AppState,
    worker: WorkerState,
    event: EventSpec,
    cause: Seq<char>,
)
    requires
        worker.in_flight == Some(event),
        app.responses.len() == 0,
    ensures
        response_to(event, ReplySpec::Failed(cause)) is None,
        worker.complete(ReplySpec::Failed(cause)).responses == worker.responses,
        worker.complete(ReplySpec::Failed(cause)).in_flight is None,
        worker.report(ReplySpec::Failed(cause)) is Some,
        app.handle_responses() == app,
{
}

/// The busy sign's round trip: asking for a listing sets it; a poll that
/// finds no response leaves it set; a poll that finds the listing clears it
/// and shows the listing.
pub proof fn lemma_busy_round_trip(app: AppState, address: Seq<char>, emails: Seq<EmailSpec>)
    requires
        app.responses.len() == 0,
    ensures
        app.request_list(address).fetching,
        app.request_list(address).handle_responses() == app.request_list(address),
        !app.request_list(address).deliver(
            EventResponseSpec::Emails(emails),
        ).handle_responses().fetching,
        app.request_list(address).deliver(
            EventResponseSpec::Emails(emails),
        ).handle_responses().emails == emails,
{
    let asked = app.request_list(address);
    let delivered = asked.deliver(EventResponseSpec::Emails(emails));
    assert(delivered.responses[0] == EventResponseSpec::Emails(emails));
}

/// A poll touches neither the commands issued nor the offset of the next
/// page, whatever response it merges.
pub proof fn lemma_poll_keeps_offset(app: AppState)
    ensures
        app.handle_responses().current_offset == app.current_offset,
        app.handle_responses().events == app.events,
{
}

/// The page offset advances by one with each request for a further page:
/// three requests in a row carry three successive offsets, whatever
/// responses the polls between them merge.
pub proof fn lemma_offsets_advance(app: AppState, address: Seq<char>)
    ensures
        ({
            let first = app.request_more(address);
            let second = first.handle_responses().request_more(address);
            let third = second.handle_responses().request_more(address);
            &&& third.current_offset == app.current_offset + 3
            &&& third.events == app.events.push(
                EventSpec::FetchMoreEmails(address, app.current_offset),
            ).push(EventSpec::FetchMoreEmails(address, app.current_offset + 1)).push(
                EventSpec::FetchMoreEmails(address, app.current_offset + 2),
            )
        }),
{
    let first = app.request_more(address);
    lemma_poll_keeps_offset(first);
    let second = first.handle_responses().request_more(address);
    lemma_poll_keeps_offset(second);
}

/// A picture is open at most once: asking twice for the window of one pair
/// of location and name does what asking once does, and leaves exactly one
/// window for the pair.
pub proof fn lemma_image_opened_once(app: AppState, locator: Seq<char>, name: Seq<char>)
    requires
        app.wf(),
    ensures
        app.open_image(locator, name).open_image(locator, name) == app.open_image(locator, name),
        app.open_image(locator, name).wf(),
        app.open_image(locator, name).images.contains((locator, name)),
        forall|i: int, j: int|
            #![trigger app.open_image(locator, name).images[i], app.open_image(locator, name).images[j]]
            0 <= i < app.open_image(locator, name).images.len() && 0 <= j < app.open_image(
                locator,
                name,
            ).images.len() && app.open_image(locator, name).images[i] == (locator, name)
                && app.open_image(locator, name).images[j] == (locator, name) ==> i == j,
{
    let once = app.open_image(locator, name);
    if !app.images.contains((locator, name)) {
        assert(once.images[app.images.len() as int] == (locator, name));
        assert forall|i: int, j: int|
            0 <= i < once.images.len() && 0 <= j < once.images.len() && i != j implies once.images[i]
            != once.images[j] by {
            if i < app.images.len() {
                assert(app.images[i] == once.images[i]);
            }
            if j < app.images.len() {
                assert(app.images[j] == once.images[j]);
            }
        }
    }
}

} // verus!
