//! The pipeline as a transition system over mathematical values.
//!
//! Every operation of the manager is one atomic transition of a
//! [`PipelineState`]. Whatever runs the manager from several tasks puts each
//! call under one lock, so that a run of the system is a sequence of these
//! transitions.

use vstd::prelude::*;

use crate::ai::model::ModelSelection;
use crate::ai::provider::CompletionRequestView;
use crate::ai::provider::NetworkErrorView;
use crate::ai::provider::ProviderReplyView;

verus! {

/// The number of response texts that the work queue of a manager holds.
pub const QUEUE_CAPACITY: usize = 100;

/// Why a completion request failed, as a mathematical value.
pub enum PipelineErrorView {
    Provider(NetworkErrorView),
    QueueClosed,
}

/// How a completion request went on after the provider's reply, as a
/// mathematical value.
pub enum CompletionView {
    Returned(Seq<char>),
    Suspended(Seq<char>),
    Failed(PipelineErrorView),
}

/// What the worker is to do next, as a mathematical value.
pub enum WorkerActionView {
    Process { text: Seq<char>, model: ModelSelection },
    Idle,
    Stop,
}

/// The mathematical value of a manager.
pub struct PipelineState {
    /// The model that requests made from now on address.
    pub model: ModelSelection,
    /// The response texts that wait for the worker, oldest first.
    pub queue: Seq<Seq<char>>,
    /// How many texts the queue holds at most.
    pub capacity: nat,
    /// No producer is left: the worker stops once the queue is drained.
    pub shutdown: bool,
    /// The worker holds a text that it has not finished with.
    pub processing: bool,
    /// The worker has terminated for good.
    pub stopped: bool,
}

impl PipelineState {
    /// What holds of every state that a manager can be in.
    pub open spec fn wf(self) -> bool {
        &&& self.queue.len() <= self.capacity
        &&& self.capacity == QUEUE_CAPACITY
        &&& self.stopped ==> self.shutdown && !self.processing && self.queue.len() == 0
    }

    /// The state of a new manager.
    pub open spec fn initial() -> PipelineState {
        PipelineState {
            model: ModelSelection::Default,
            queue: Seq::empty(),
            capacity: QUEUE_CAPACITY as nat,
            shutdown: false,
            processing: false,
            stopped: false,
        }
    }

    /// The selector has looked at `text`.
    pub open spec fn select(self, text: Seq<char>) -> PipelineState {
        PipelineState { model: ModelSelection::select(text), ..self }
    }

    /// The request that is made for `prompt` in this state.
    pub open spec fn prepare(self, prompt: Seq<char>) -> CompletionRequestView {
        CompletionRequestView { prompt, model: self.model }
    }

    /// Whether the queue has no room.
    pub open spec fn full(self) -> bool {
        self.queue.len() >= self.capacity
    }

    /// A caller tries to hand `response` to the worker.
    pub open spec fn enqueue(self, response: Seq<char>) -> (PipelineState, CompletionView) {
        if self.stopped {
            (self, CompletionView::Failed(PipelineErrorView::QueueClosed))
        } else if self.full() {
            (self, CompletionView::Suspended(response))
        } else {
            (
                PipelineState { queue: self.queue.push(response), ..self },
                CompletionView::Returned(response),
            )
        }
    }

    /// The provider's reply to a request has arrived.
    pub open spec fn deliver(self, reply: ProviderReplyView) -> (PipelineState, CompletionView) {
        match reply.outcome() {
            Ok(response) => self.enqueue(response),
            Err(error) => (self, CompletionView::Failed(PipelineErrorView::Provider(error))),
        }
    }

    /// The worker asks for work.
    pub open spec fn worker_next(self) -> (PipelineState, WorkerActionView) {
        if self.stopped {
            (self, WorkerActionView::Stop)
        } else if self.processing {
            (self, WorkerActionView::Idle)
        } else if self.queue.len() > 0 {
            (
                PipelineState { queue: self.queue.drop_first(), processing: true, ..self },
                WorkerActionView::Process { text: self.queue[0], model: self.model },
            )
        } else if self.shutdown {
            (PipelineState { stopped: true, ..self }, WorkerActionView::Stop)
        } else {
            (self, WorkerActionView::Idle)
        }
    }

    /// The worker is done with the text it held, whether processing it
    /// succeeded or failed.
    pub open spec fn finish(self, outcome: Result<(), Seq<char>>) -> PipelineState {
        PipelineState { processing: false, ..self }
    }

    /// The last producer has gone.
    pub open spec fn shut_down(self) -> PipelineState {
        PipelineState { shutdown: true, ..self }
    }
}

} // verus!
