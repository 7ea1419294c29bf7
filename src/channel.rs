use crate::activity::SendActivityData;
use std::collections::VecDeque;
use vstd::prelude::*;

verus! {

/// Whether activities are dispatched inline by the submitter or queued for the
/// delivery worker. Fixed when the channel is made.
#[derive(Clone, Copy, Debug, PartialEq, Eq, Structural)]
pub enum ExecutionMode {
    /// Dispatch inline and hand the outcome to the submitter (deterministic, for tests).
    Synchronous,
    /// Enqueue and return at once; the delivery worker dispatches later.
    Asynchronous,
}

/// The errors of the activity funnel.
#[derive(Clone, Debug, PartialEq, Eq)]
pub enum ActivityError {
    /// A synchronous dispatch was asked for before a dispatch function was registered.
    NotRegistered,
    /// The dispatch function failed, with its cause.
    DispatchFailed(String),
    /// An activity was submitted after shutdown began; it was not enqueued.
    ChannelClosed,
    /// The delivery worker ended with an error, with its cause.
    WorkerTaskFailed(String),
    /// The delivery worker panicked.
    WorkerTaskPanicked,
}

/// The phase of the queue. Phases only move forward.
#[derive(Clone, Copy, Debug, PartialEq, Eq, Structural)]
pub enum QueueState {
    /// The keepalive handle is held: new producer handles can be derived.
    Open,
    /// The keepalive handle is released, but items or derived handles remain.
    Draining,
    /// Nothing is queued and no producer handle exists.
    Closed,
}

/// What the submitter has to do next with a submitted activity.
#[derive(Debug, PartialEq, Eq)]
pub enum Submission {
    /// Synchronous mode: run the dispatch function on this activity now and
    /// pass its outcome through [`ActivityChannel::dispatch_outcome`].
    DispatchNow(SendActivityData),
    /// Asynchronous mode: the activity is queued for the delivery worker.
    Enqueued,
}

/// What the consumer got from the queue.
#[derive(Debug, PartialEq, Eq)]
pub enum Retrieved {
    /// The oldest queued activity.
    Activity(SendActivityData),
    /// Nothing is queued yet, but more may come: wait for the next submission.
    Pending,
    /// Nothing is queued and nothing more can come: the consumer loop ends.
    Finished,
}

/// How the delivery worker task ended.
#[derive(Clone, Debug, PartialEq, Eq)]
pub enum WorkerExit {
    /// It observed the end of the queue and returned successfully.
    Completed,
    /// It returned an error, with its cause.
    Failed(String),
    /// It panicked.
    Panicked,
}

/// A producer handle derived from the keepalive handle. It may be used once,
/// by [`ActivityChannel::send`], or given back by [`ActivityChannel::release_sender`].
#[derive(Debug)]
pub struct SenderHandle {
    issued: (),
}

/// The abstract state of an [`ActivityChannel`].
pub ghost struct ChannelModel {
    pub mode: ExecutionMode,
    /// Whether a dispatch function has been registered.
    pub registered: bool,
    /// Queued activities, oldest first.
    pub queue: Seq<SendActivityData>,
    /// Whether the keepalive handle is still held.
    pub keepalive: bool,
    /// How many derived producer handles are outstanding.
    pub senders: nat,
}

impl ChannelModel {
    pub open spec fn state(self) -> QueueState {
        if self.keepalive {
            QueueState::Open
        } else if self.queue.len() > 0 || self.senders > 0 {
            QueueState::Draining
        } else {
            QueueState::Closed
        }
    }

    /// The fresh channel: open, empty, with no dispatch function registered.
    pub open spec fn initial(mode: ExecutionMode) -> ChannelModel {
        ChannelModel { mode, registered: false, queue: Seq::empty(), keepalive: true, senders: 0 }
    }

    /// What `submit_activity` answers.
    pub open spec fn submit_result(self, data: SendActivityData) -> Result<Submission, ActivityError> {
        match self.mode {
            ExecutionMode::Synchronous => if self.registered {
                Ok(Submission::DispatchNow(data))
            } else {
                Err(ActivityError::NotRegistered)
            },
            ExecutionMode::Asynchronous => if self.keepalive {
                Ok(Submission::Enqueued)
            } else {
                Err(ActivityError::ChannelClosed)
            },
        }
    }

    /// The state after `submit_activity`: only an asynchronous submission to an
    /// open channel changes it, by appending the activity.
    pub open spec fn after_submit(self, data: SendActivityData) -> ChannelModel {
        if self.mode == ExecutionMode::Asynchronous && self.keepalive {
            ChannelModel { queue: self.queue.push(data), ..self }
        } else {
            self
        }
    }

    /// What `retrieve_activity` answers.
    pub open spec fn retrieve_result(self) -> Retrieved {
        if self.queue.len() > 0 {
            Retrieved::Activity(self.queue[0])
        } else if self.state() == QueueState::Closed {
            Retrieved::Finished
        } else {
            Retrieved::Pending
        }
    }

    /// The state after `retrieve_activity`: the oldest activity, if any, is gone.
    pub open spec fn after_retrieve(self) -> ChannelModel {
        if self.queue.len() > 0 {
            ChannelModel { queue: self.queue.drop_first(), ..self }
        } else {
            self
        }
    }

    /// The state after `close`: the keepalive handle is released.
    pub open spec fn after_close(self) -> ChannelModel {
        ChannelModel { keepalive: false, ..self }
    }

    /// The state after a producer handle is derived (only while the keepalive
    /// handle is held).
    pub open spec fn after_derive(self) -> ChannelModel {
        if self.keepalive {
            ChannelModel { senders: self.senders + 1, ..self }
        } else {
            self
        }
    }

    /// The state after a derived handle is used to send an activity.
    pub open spec fn after_send(self, data: SendActivityData) -> ChannelModel {
        ChannelModel { queue: self.queue.push(data), senders: (self.senders - 1) as nat, ..self }
    }

    /// The state after a derived handle is given back unused.
    pub open spec fn after_release(self) -> ChannelModel {
        ChannelModel { senders: (self.senders - 1) as nat, ..self }
    }
}

/// The dispatch queue: an unbounded FIFO of activities with one keepalive
/// producer handle, derived producer handles, and a single consumer. A caller
/// that shares it between tasks holds it under one lock, which also serialises
/// the consumer side.
pub struct ActivityChannel {
    mode: ExecutionMode,
    registered: bool,
    queue: VecDeque<SendActivityData>,
    keepalive: bool,
    senders: u64,
}

impl View for ActivityChannel {
    type V = ChannelModel;

    closed spec fn view(&self) -> ChannelModel {
        ChannelModel {
            mode: self.mode,
            registered: self.registered,
            queue: self.queue@,
            keepalive: self.keepalive,
            senders: self.senders as nat,
        }
    }
}

impl ActivityChannel {
    /// A fresh channel in the given mode: open, empty, with no dispatch
    /// function registered yet.
    pub fn new(mode: ExecutionMode) -> (r: ActivityChannel)
        ensures
            r@ == ChannelModel::initial(mode),
    {
        ActivityChannel { mode, registered: false, queue: VecDeque::new(), keepalive: true, senders: 0 }
    }

    /// Records that the dispatch function has been bound. Binding it twice is
    /// a programming error, so a second registration is not allowed.
    pub fn register_dispatch(&mut self)
        requires
            !old(self)@.registered,
        ensures
            final(self)@ == (ChannelModel { registered: true, ..old(self)@ }),
    {
        self.registered = true;
    }

    /// Submits one activity. In synchronous mode the activity is handed back to
    /// be dispatched inline (or `NotRegistered` if no dispatch function is
    /// bound); the queue is untouched. In asynchronous mode it is appended to
    /// the queue while the keepalive handle is held; after shutdown began it is
    /// not enqueued and `ChannelClosed` is returned.
    pub fn submit_activity(&mut self, data: SendActivityData) -> (r: Result<Submission, ActivityError>)
        ensures
            r == old(self)@.submit_result(data),
            final(self)@ == old(self)@.after_submit(data),
    {
        match self.mode {
            ExecutionMode::Synchronous => {
                if self.registered {
                    Ok(Submission::DispatchNow(data))
                } else {
                    Err(ActivityError::NotRegistered)
                }
            },
            ExecutionMode::Asynchronous => {
                if self.keepalive {
                    self.queue.push_back(data);
                    Ok(Submission::Enqueued)
                } else {
                    Err(ActivityError::ChannelClosed)
                }
            },
        }
    }

    /// Takes the oldest queued activity. With nothing queued, answers
    /// `Finished` once no producer can add more, and `Pending` before that.
    pub fn retrieve_activity(&mut self) -> (r: Retrieved)
        ensures
            r == old(self)@.retrieve_result(),
            final(self)@ == old(self)@.after_retrieve(),
    {
        match self.queue.pop_front() {
            Some(data) => Retrieved::Activity(data),
            None => {
                if !self.keepalive && self.senders == 0 {
                    Retrieved::Finished
                } else {
                    Retrieved::Pending
                }
            },
        }
    }

    /// Releases the keepalive handle, the first step of shutdown. Answers
    /// whether it was still held: releasing it again changes nothing.
    pub fn close(&mut self) -> (released: bool)
        ensures
            released == old(self)@.keepalive,
            final(self)@ == old(self)@.after_close(),
    {
        let released = self.keepalive;
        self.keepalive = false;
        released
    }

    /// Derives a producer handle from the keepalive handle; there is none once
    /// the keepalive handle is released.
    pub fn derive_sender(&mut self) -> (r: Option<SenderHandle>)
        requires
            old(self)@.senders < u64::MAX,
        ensures
            r is Some <==> old(self)@.keepalive,
            final(self)@ == old(self)@.after_derive(),
    {
        if self.keepalive {
            self.senders = self.senders + 1;
            Some(SenderHandle { issued: () })
        } else {
            None
        }
    }

    /// Uses a derived handle once: the activity is appended to the queue, also
    /// after the keepalive handle was released.
    pub fn send(&mut self, handle: SenderHandle, data: SendActivityData)
        requires
            old(self)@.senders > 0,
        ensures
            final(self)@ == old(self)@.after_send(data),
    {
        let SenderHandle { issued: () } = handle;
        self.queue.push_back(data);
        self.senders = self.senders - 1;
    }

    /// Gives back a derived handle without using it.
    pub fn release_sender(&mut self, handle: SenderHandle)
        requires
            old(self)@.senders > 0,
        ensures
            final(self)@ == old(self)@.after_release(),
    {
        let SenderHandle { issued: () } = handle;
        self.senders = self.senders - 1;
    }

    /// Turns the outcome of an inline dispatch into the submitter's outcome:
    /// success stays success, and a failure carries its cause unchanged.
    pub fn dispatch_outcome(result: Result<(), String>) -> (r: Result<(), ActivityError>)
        ensures
            result is Ok ==> r is Ok,
            result is Err ==> r == Err::<(), ActivityError>(ActivityError::DispatchFailed(result->Err_0)),
    {
        match result {
            Ok(()) => Ok(()),
            Err(cause) => Err(ActivityError::DispatchFailed(cause)),
        }
    }

    /// Turns the way the delivery worker ended into the outcome of shutdown.
    pub fn worker_outcome(exit: WorkerExit) -> (r: Result<(), ActivityError>)
        ensures
            exit is Completed ==> r is Ok,
            exit is Failed ==> r == Err::<(), ActivityError>(ActivityError::WorkerTaskFailed(exit->Failed_0)),
            exit is Panicked ==> r == Err::<(), ActivityError>(ActivityError::WorkerTaskPanicked),
    {
        match exit {
            WorkerExit::Completed => Ok(()),
            WorkerExit::Failed(cause) => Err(ActivityError::WorkerTaskFailed(cause)),
            WorkerExit::Panicked => Err(ActivityError::WorkerTaskPanicked),
        }
    }

    pub fn mode(&self) -> (r: ExecutionMode)
        ensures
            r == self@.mode,
    {
        self.mode
    }

    pub fn is_registered(&self) -> (r: bool)
        ensures
            r == self@.registered,
    {
        self.registered
    }

    /// How many activities are queued.
    pub fn pending_count(&self) -> (r: usize)
        ensures
            r == self@.queue.len(),
    {
        self.queue.len()
    }

    /// The current phase of the queue.
    pub fn state(&self) -> (r: QueueState)
        ensures
            r == self@.state(),
    {
        if self.keepalive {
            QueueState::Open
        } else if self.queue.len() > 0 || self.senders > 0 {
            QueueState::Draining
        } else {
            QueueState::Closed
        }
    }
}

} // verus!
