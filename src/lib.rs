//! The outbound activity funnel of a federated server: every state change that
//! must reach remote peers passes through an [`ActivityChannel`], which either
//! hands it straight to the dispatch function (synchronous mode) or queues it
//! for the delivery worker (asynchronous mode), and which shuts down without
//! losing what was queued.
pub mod activity;
pub mod channel;
pub mod laws;

pub use activity::{CommentId, CommunityId, PersonId, PostId, PrivateMessageId, SendActivityData};
pub use channel::{
    ActivityChannel, ActivityError, ChannelModel, ExecutionMode, QueueState, Retrieved,
    SenderHandle, Submission, WorkerExit,
};
