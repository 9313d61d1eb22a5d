//! What holds of every run of the pipeline.
//!
//! A run is a sequence of [`Step`]s, each one atomic transition of a
//! [`PipelineState`]. Calls that arrive from several tasks at once are put in
//! some order by the lock around the manager; the laws hold of every order.

use vstd::prelude::*;

use crate::ai::model::ModelSelection;
use crate::ai::provider::ProviderReplyView;
use crate::ai::state::CompletionView;
use crate::ai::state::PipelineState;
use crate::ai::state::WorkerActionView;

verus! {

/// One call on the manager.
pub enum Step {
    /// The selector looks at a text.
    Select(Seq<char>),
    /// The provider's reply to a request arrives.
    Deliver(ProviderReplyView),
    /// A suspended caller tries again to queue its response.
    Resume(Seq<char>),
    /// The worker asks for work.
    WorkerNext,
    /// The worker is done with the text it held.
    Finish(Result<(), Seq<char>>),
    /// The last producer goes.
    ShutDown,
}

impl Step {
    /// The state after this step is taken in state `before`.
    pub open spec fn apply(self, before: PipelineState) -> PipelineState {
        match self {
            Step::Select(text) => before.select(text),
            Step::Deliver(reply) => before.deliver(reply).0,
            Step::Resume(response) => before.enqueue(response).0,
            Step::WorkerNext => before.worker_next().0,
            Step::Finish(outcome) => before.finish(outcome),
            Step::ShutDown => before.shut_down(),
        }
    }

    /// The texts that this step, taken in state `before`, puts into the queue.
    pub open spec fn queues(self, before: PipelineState) -> Seq<Seq<char>> {
        let completion = match self {
            Step::Deliver(reply) => Some(before.deliver(reply).1),
            Step::Resume(response) => Some(before.enqueue(response).1),
            _ => None,
        };
        match completion {
            Some(CompletionView::Returned(response)) => seq![response],
            _ => Seq::empty(),
        }
    }

    /// The texts that this step, taken in state `before`, hands to the worker.
    pub open spec fn hands_out(self, before: PipelineState) -> Seq<Seq<char>> {
        match self {
            Step::WorkerNext => match before.worker_next().1 {
                WorkerActionView::Process { text, .. } => seq![text],
                _ => Seq::empty(),
            },
            _ => Seq::empty(),
        }
    }
}

/// The state after `steps` are taken in order, starting in `start`.
pub open spec fn run(start: PipelineState, steps: Seq<Step>) -> PipelineState
    decreases steps.len(),
{
    if steps.len() == 0 {
        start
    } else {
        steps.last().apply(run(start, steps.drop_last()))
    }
}

/// The texts that were put into the queue in the course of `steps`, in the
/// order in which that happened.
pub open spec fn queued_during(start: PipelineState, steps: Seq<Step>) -> Seq<Seq<char>>
    decreases steps.len(),
{
    if steps.len() == 0 {
        Seq::empty()
    } else {
        queued_during(start, steps.drop_last()) + steps.last().queues(
            run(start, steps.drop_last()),
        )
    }
}

/// The texts that were handed to the worker in the course of `steps`, in the
/// order in which that happened.
pub open spec fn processed_during(start: PipelineState, steps: Seq<Step>) -> Seq<Seq<char>>
    decreases steps.len(),
{
    if steps.len() == 0 {
        Seq::empty()
    } else {
        processed_during(start, steps.drop_last()) + steps.last().hands_out(
            run(start, steps.drop_last()),
        )
    }
}

/// The text of the last `Select` among `steps`, if there is one.
pub open spec fn last_selected(steps: Seq<Step>) -> Option<Seq<char>>
    decreases steps.len(),
{
    if steps.len() == 0 {
        None
    } else {
        match steps.last() {
            Step::Select(text) => Some(text),
            _ => last_selected(steps.drop_last()),
        }
    }
}

/// No step makes a well-formed state ill-formed.
pub proof fn law_step_keeps_well_formed(before: PipelineState, step: Step)
    requires
        before.wf(),
    ensures
        step.apply(before).wf(),
{
}

/// A new manager is well-formed and stays so, whatever is done with it: the
/// queue never holds more than its capacity, and a worker that has stopped
/// has left nothing behind.
pub proof fn law_well_formed_throughout(steps: Seq<Step>)
    ensures
        run(PipelineState::initial(), steps).wf(),
    decreases steps.len(),
{
    if steps.len() > 0 {
        law_well_formed_throughout(steps.drop_last());
        law_step_keeps_well_formed(
            run(PipelineState::initial(), steps.drop_last()),
            steps.last(),
        );
    }
}

/// No step changes the capacity of the queue.
pub proof fn law_capacity_is_fixed(start: PipelineState, steps: Seq<Step>)
    ensures
        run(start, steps).capacity == start.capacity,
    decreases steps.len(),
{
    if steps.len() > 0 {
        law_capacity_is_fixed(start, steps.drop_last());
    }
}

/// After any run the current model is the one that the last selector call
/// picked, however that call was interleaved with requests and with the
/// worker; where the selector was not called, the model is what it was.
pub proof fn law_last_selection_wins(start: PipelineState, steps: Seq<Step>)
    ensures
        run(start, steps).model == match last_selected(steps) {
            Some(text) => ModelSelection::select(text),
            None => start.model,
        },
    decreases steps.len(),
{
    if steps.len() > 0 {
        law_last_selection_wins(start, steps.drop_last());
    }
}

/// The queue is first-in, first-out and loses nothing: what was waiting at
/// the start, followed by what was queued since, in the order of queueing, is
/// what the worker was handed, in the order of handing out, followed by what
/// still waits.
pub proof fn law_first_in_first_out(start: PipelineState, steps: Seq<Step>)
    ensures
        start.queue + queued_during(start, steps) == processed_during(start, steps) + run(
            start,
            steps,
        ).queue,
    decreases steps.len(),
{
    if steps.len() == 0 {
        assert(start.queue + Seq::<Seq<char>>::empty() =~= Seq::<Seq<char>>::empty()
            + start.queue);
    } else {
        let earlier = steps.drop_last();
        let before = run(start, earlier);
        law_first_in_first_out(start, earlier);
        let queued = steps.last().queues(before);
        let handed = steps.last().hands_out(before);
        let after = steps.last().apply(before);
        assert(handed + after.queue =~= before.queue + queued);
        assert(start.queue + (queued_during(start, earlier) + queued) =~= (start.queue
            + queued_during(start, earlier)) + queued);
        assert((processed_during(start, earlier) + handed) + after.queue =~= processed_during(
            start,
            earlier,
        ) + (handed + after.queue));
        assert((processed_during(start, earlier) + before.queue) + queued =~= processed_during(
            start,
            earlier,
        ) + (before.queue + queued));
    }
}

/// Of two responses that were queued in the course of a run, the one that
/// was queued first is handed to the worker first: the `i`-th text that the
/// worker is handed is the `i`-th of those that waited or were queued.
pub proof fn law_processing_order_is_queueing_order(
    start: PipelineState,
    steps: Seq<Step>,
    i: int,
)
    requires
        0 <= i < processed_during(start, steps).len(),
    ensures
        i < (start.queue + queued_during(start, steps)).len(),
        processed_during(start, steps)[i] == (start.queue + queued_during(start, steps))[i],
{
    law_first_in_first_out(start, steps);
}

/// While the queue is full, a caller with a response is suspended: it keeps
/// its response, and the queue is as it was.
pub proof fn law_full_queue_suspends(state: PipelineState, response: Seq<char>)
    requires
        state.full(),
        !state.stopped,
    ensures
        state.enqueue(response) == (state, CompletionView::Suspended(response)),
{
}

/// A response that found the queue full is queued only after the worker has
/// taken a text: if the queue is full at the start of a run and has room for
/// `response` at its end, the worker was handed a text in between.
pub proof fn law_room_comes_from_the_worker(
    start: PipelineState,
    steps: Seq<Step>,
    response: Seq<char>,
)
    requires
        start.full(),
        run(start, steps).enqueue(response).1 == CompletionView::Returned(response),
    ensures
        processed_during(start, steps).len() > 0,
{
    law_first_in_first_out(start, steps);
    law_capacity_is_fixed(start, steps);
    let end = run(start, steps);
    assert((start.queue + queued_during(start, steps)).len() == (processed_during(start, steps)
        + end.queue).len());
}

/// Once the worker has taken a text from a full queue, a suspended caller
/// that resumes gets its response queued.
pub proof fn law_worker_makes_room(state: PipelineState, response: Seq<char>)
    requires
        state.wf(),
        state.full(),
        !state.stopped,
        !state.processing,
    ensures
        state.worker_next().0.enqueue(response).1 == CompletionView::Returned(response),
        state.worker_next().0.enqueue(response).0.queue == state.queue.drop_first().push(
            response,
        ),
{
}

/// A failure of the worker on one text does not keep it from the next: when
/// it has finished with a text, whatever the outcome, it is handed the text
/// that was queued behind it.
pub proof fn law_worker_goes_on_after_failure(
    state: PipelineState,
    outcome: Result<(), Seq<char>>,
)
    requires
        !state.stopped,
        !state.processing,
        state.queue.len() >= 2,
    ensures
        state.worker_next().1 == (WorkerActionView::Process {
            text: state.queue[0],
            model: state.model,
        }),
        state.worker_next().0.finish(outcome).worker_next().1 == (WorkerActionView::Process {
            text: state.queue[1],
            model: state.model,
        }),
{
}

/// The worker ends only when no producer is left and the queue is drained.
pub proof fn law_worker_stops_only_when_drained(state: PipelineState)
    requires
        !state.stopped,
    ensures
        state.worker_next().1 == WorkerActionView::Stop <==> state.shutdown && !state.processing
            && state.queue.len() == 0,
{
}

} // verus!
