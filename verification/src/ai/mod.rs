//! The completion pipeline: the manager that the editor talks to.
//!
//! The manager is a state machine. It neither talks to the network nor runs
//! tasks; whoever drives it posts the request, waits where the manager says
//! to wait, and hands back what happened. Each call is one transition of
//! [`PipelineState`].

pub mod laws;
pub mod model;
pub mod provider;
pub mod queue;
pub mod state;

use vstd::prelude::*;
use vstd::string::StringExecFns;
use vstd::utf8::encode_utf8;

pub use self::model::ModelSelection;
pub use self::model::ModelType;
use self::model::SHORT_TEXT_LIMIT;
pub use self::provider::CompletionRequest;
pub use self::provider::NetworkError;
pub use self::provider::ProviderReply;
use self::queue::WorkQueue;
pub use self::state::CompletionView;
pub use self::state::PipelineErrorView;
pub use self::state::PipelineState;
pub use self::state::WorkerActionView;
pub use self::state::QUEUE_CAPACITY;
use crate::optional_text;

verus! {

/// Why a completion request failed.
#[derive(Debug, PartialEq, Eq)]
pub enum PipelineError {
    /// The provider call failed; nothing was queued.
    Provider(NetworkError),
    /// The worker has terminated, so the response cannot be queued.
    QueueClosed,
}

impl View for PipelineError {
    type V = PipelineErrorView;

    open spec fn view(&self) -> PipelineErrorView {
        match self {
            PipelineError::Provider(error) => PipelineErrorView::Provider(error@),
            PipelineError::QueueClosed => PipelineErrorView::QueueClosed,
        }
    }
}

/// How a completion request went on after the provider's reply.
#[derive(Debug, PartialEq, Eq)]
pub enum Completion {
    /// The response is queued for the worker; the caller gets this text.
    Returned(String),
    /// The queue is full. The caller keeps the response, waits until the
    /// worker has taken a text, and resumes with it.
    Suspended(String),
    /// The request failed.
    Failed(PipelineError),
}

impl View for Completion {
    type V = CompletionView;

    open spec fn view(&self) -> CompletionView {
        match self {
            Completion::Returned(text) => CompletionView::Returned(text@),
            Completion::Suspended(text) => CompletionView::Suspended(text@),
            Completion::Failed(error) => CompletionView::Failed(error@),
        }
    }
}

/// What the worker is to do next.
#[derive(Debug, PartialEq, Eq)]
pub enum WorkerAction {
    /// Process this text; `model` is the model that was current when the
    /// text left the queue.
    Process { text: String, model: ModelType },
    /// Nothing to do now: wait until a text is queued, then ask again.
    Idle,
    /// The queue is closed and drained: the worker ends.
    Stop,
}

impl View for WorkerAction {
    type V = WorkerActionView;

    open spec fn view(&self) -> WorkerActionView {
        match self {
            WorkerAction::Process { text, model } => WorkerActionView::Process {
                text: text@,
                model: model@,
            },
            WorkerAction::Idle => WorkerActionView::Idle,
            WorkerAction::Stop => WorkerActionView::Stop,
        }
    }
}

/// The line that the worker writes for `text`, tagged with the model.
pub open spec fn processing_line(text: Seq<char>, model: ModelSelection) -> Seq<char> {
    match model {
        ModelSelection::Default => "Processing with default model: "@ + text,
        ModelSelection::Custom(id) => "Processing with custom model "@ + id + ": "@ + text,
    }
}

/// The line that reports a failure of the worker on one text, if there was one.
pub open spec fn failure_line(outcome: Result<(), Seq<char>>) -> Option<Seq<char>> {
    match outcome {
        Ok(_) => None,
        Err(reason) => Some("Error processing completion: "@ + reason),
    }
}

/// The mathematical value of what processing one text came to.
pub open spec fn processing_outcome_view(outcome: Result<(), String>) -> Result<(), Seq<char>> {
    match outcome {
        Ok(_) => Ok(()),
        Err(reason) => Err(reason@),
    }
}

/// The completion pipeline: the model that is current, the work queue, and
/// where the worker stands.
pub struct AIManager {
    model_type: ModelType,
    queue: WorkQueue,
    shutdown: bool,
    processing: bool,
    stopped: bool,
}

impl View for AIManager {
    type V = PipelineState;

    closed spec fn view(&self) -> PipelineState {
        PipelineState {
            model: self.model_type@,
            queue: self.queue@,
            capacity: self.queue.spec_capacity(),
            shutdown: self.shutdown,
            processing: self.processing,
            stopped: self.stopped,
        }
    }
}

impl AIManager {
    /// A manager with the default model, an empty queue of
    /// [`QUEUE_CAPACITY`] places and a worker that has not yet asked for work.
    pub fn new() -> (manager: AIManager)
        ensures
            manager@ == PipelineState::initial(),
            manager@.wf(),
    {
        AIManager {
            model_type: ModelType::Default,
            queue: WorkQueue::new(QUEUE_CAPACITY),
            shutdown: false,
            processing: false,
            stopped: false,
        }
    }

    /// Makes the model that the heuristic picks for `text` the current one.
    /// Requests that were prepared before keep the model they were prepared with.
    pub fn auto_select_model(&mut self, text: &str)
        ensures
            final(self)@ == old(self)@.select(text@),
            encode_utf8(text@).len() < SHORT_TEXT_LIMIT ==> final(self)@.model
                == ModelSelection::Default,
            encode_utf8(text@).len() >= SHORT_TEXT_LIMIT ==> final(self)@.model
                == ModelSelection::Custom(text@),
    {
        self.model_type = ModelType::select(text);
    }

    /// A copy of the model that is current.
    pub fn current_model(&self) -> (model: ModelType)
        ensures
            model@ == self@.model,
    {
        self.model_type.clone()
    }

    /// The number of response texts that wait for the worker.
    pub fn queued(&self) -> (count: usize)
        ensures
            count == self@.queue.len(),
    {
        self.queue.len()
    }

    /// The request for `text`, addressed to the model that is current now.
    pub fn prepare_request(&self, text: &str) -> (request: CompletionRequest)
        ensures
            request@ == self@.prepare(text@),
    {
        CompletionRequest { prompt: String::from_str(text), model: self.model_type.clone() }
    }

    /// Takes the provider's reply to a request. A failed call fails the
    /// request and queues nothing; the text of a successful one goes to the
    /// worker's queue and back to the caller.
    pub fn request_completion(&mut self, reply: ProviderReply) -> (completion: Completion)
        ensures
            (final(self)@, completion@) == old(self)@.deliver(reply@),
            reply@.outcome() matches Err(error) ==> {
                &&& final(self)@ == old(self)@
                &&& completion@ == CompletionView::Failed(PipelineErrorView::Provider(error))
            },
    {
        match reply.into_outcome() {
            Ok(response) => self.resume_completion(response),
            Err(error) => Completion::Failed(PipelineError::Provider(error)),
        }
    }

    /// Tries to queue `response` for the worker: at once after a successful
    /// reply, and again whenever a suspended caller is woken.
    pub fn resume_completion(&mut self, response: String) -> (completion: Completion)
        ensures
            (final(self)@, completion@) == old(self)@.enqueue(response@),
    {
        if self.stopped {
            Completion::Failed(PipelineError::QueueClosed)
        } else {
            match self.queue.try_push(response.clone()) {
                None => Completion::Returned(response),
                Some(_) => Completion::Suspended(response),
            }
        }
    }

    /// Hands the worker the oldest queued text together with the model that
    /// is current, tells it to wait, or tells it to end.
    pub fn worker_next(&mut self) -> (action: WorkerAction)
        ensures
            (final(self)@, action@) == old(self)@.worker_next(),
    {
        if self.stopped {
            return WorkerAction::Stop;
        }
        if self.processing {
            return WorkerAction::Idle;
        }
        match self.queue.pop() {
            Some(text) => {
                self.processing = true;
                WorkerAction::Process { text, model: self.model_type.clone() }
            },
            None => {
                if self.shutdown {
                    self.stopped = true;
                    WorkerAction::Stop
                } else {
                    WorkerAction::Idle
                }
            },
        }
    }

    /// Takes note that the worker is done with the text it held. A failure
    /// is turned into a line to report and changes nothing else: the worker
    /// goes on with the next text.
    pub fn finish_processing(&mut self, outcome: Result<(), String>) -> (report: Option<String>)
        ensures
            final(self)@ == old(self)@.finish(processing_outcome_view(outcome)),
            optional_text(report) == failure_line(processing_outcome_view(outcome)),
    {
        self.processing = false;
        match outcome {
            Ok(_) => None,
            Err(reason) => Some(
                String::from_str("Error processing completion: ").concat(reason.as_str()),
            ),
        }
    }

    /// Takes note that no producer is left. The worker drains the queue and
    /// then ends.
    pub fn shut_down(&mut self)
        ensures
            final(self)@ == old(self)@.shut_down(),
    {
        self.shutdown = true;
    }

    /// The line that the worker writes when it processes `text` with `model`.
    pub fn process_completion(text: &str, model: &ModelType) -> (line: String)
        ensures
            line@ == processing_line(text@, model@),
    {
        match model {
            ModelType::Default => String::from_str("Processing with default model: ").concat(text),
            ModelType::Custom(id) => String::from_str("Processing with custom model ").concat(
                id.as_str(),
            ).concat(": ").concat(text),
        }
    }
}

} // verus!
