use send_activity::{
    ActivityChannel, ActivityError, CommunityId, ExecutionMode, PersonId, PostId, QueueState,
    Retrieved, SendActivityData, Submission, WorkerExit,
};

fn drain_all(channel: &mut ActivityChannel) -> Vec<SendActivityData> {
    let mut got = Vec::new();
    loop {
        match channel.retrieve_activity() {
            Retrieved::Activity(d) => got.push(d),
            Retrieved::Finished => return got,
            Retrieved::Pending => panic!("consumer would wait forever"),
        }
    }
}

#[test]
fn async_submissions_are_dispatched_in_order() {
    let mut channel = ActivityChannel::new(ExecutionMode::Asynchronous);
    channel.register_dispatch();
    let r1 = channel.submit_activity(SendActivityData::CreatePost(PostId(1)));
    let r2 = channel.submit_activity(SendActivityData::CreatePost(PostId(2)));
    assert_eq!(r1, Ok(Submission::Enqueued));
    assert_eq!(r2, Ok(Submission::Enqueued));
    assert!(channel.close());
    let mut recorded = Vec::new();
    for activity in drain_all(&mut channel) {
        if let SendActivityData::CreatePost(id) = activity {
            recorded.push(id);
        }
    }
    assert_eq!(recorded, vec![PostId(1), PostId(2)]);
}

#[test]
fn sync_dispatch_failure_is_returned_and_nothing_is_queued() {
    let mut channel = ActivityChannel::new(ExecutionMode::Synchronous);
    channel.register_dispatch();
    let user = PersonId(7);
    let r = channel.submit_activity(SendActivityData::DeleteUser(user));
    let dispatched = match r {
        Ok(Submission::DispatchNow(d)) => d,
        other => panic!("expected inline dispatch, got {:?}", other),
    };
    assert_eq!(dispatched, SendActivityData::DeleteUser(user));
    let failing = |_d: SendActivityData| -> Result<(), String> { Err("federation disabled".to_string()) };
    let outcome = ActivityChannel::dispatch_outcome(failing(dispatched));
    assert_eq!(
        outcome,
        Err(ActivityError::DispatchFailed("federation disabled".to_string()))
    );
    assert_eq!(channel.pending_count(), 0);
    assert!(channel.close());
    assert_eq!(channel.retrieve_activity(), Retrieved::Finished);
}

#[test]
fn close_with_three_pending_drains_them_all() {
    let mut channel = ActivityChannel::new(ExecutionMode::Asynchronous);
    for i in 0..3 {
        assert_eq!(
            channel.submit_activity(SendActivityData::CreatePost(PostId(i))),
            Ok(Submission::Enqueued)
        );
    }
    assert!(channel.close());
    assert_eq!(channel.state(), QueueState::Draining);
    assert_eq!(channel.pending_count(), 3);
    let got = drain_all(&mut channel);
    assert_eq!(
        got,
        vec![
            SendActivityData::CreatePost(PostId(0)),
            SendActivityData::CreatePost(PostId(1)),
            SendActivityData::CreatePost(PostId(2)),
        ]
    );
    assert_eq!(channel.state(), QueueState::Closed);
    assert_eq!(ActivityChannel::worker_outcome(WorkerExit::Completed), Ok(()));
}

#[test]
fn submit_after_close_is_refused_and_not_queued() {
    let mut channel = ActivityChannel::new(ExecutionMode::Asynchronous);
    assert!(channel.close());
    let r = channel.submit_activity(SendActivityData::CreatePost(PostId(9)));
    assert_eq!(r, Err(ActivityError::ChannelClosed));
    assert_eq!(channel.pending_count(), 0);
    assert_eq!(channel.retrieve_activity(), Retrieved::Finished);
    assert_eq!(channel.retrieve_activity(), Retrieved::Finished);
}

#[test]
fn second_close_changes_nothing() {
    let mut channel = ActivityChannel::new(ExecutionMode::Asynchronous);
    assert!(channel.close());
    assert!(!channel.close());
    assert_eq!(channel.state(), QueueState::Closed);
}

#[test]
fn empty_open_queue_is_pending() {
    let mut channel = ActivityChannel::new(ExecutionMode::Asynchronous);
    assert_eq!(channel.state(), QueueState::Open);
    assert_eq!(channel.retrieve_activity(), Retrieved::Pending);
}

#[test]
fn sync_without_registration_is_not_registered() {
    let mut channel = ActivityChannel::new(ExecutionMode::Synchronous);
    assert!(!channel.is_registered());
    let r = channel.submit_activity(SendActivityData::DeleteUser(PersonId(1)));
    assert_eq!(r, Err(ActivityError::NotRegistered));
    assert_eq!(channel.pending_count(), 0);
}

#[test]
fn sync_success_is_ok() {
    assert_eq!(ActivityChannel::dispatch_outcome(Ok(())), Ok(()));
}

#[test]
fn sync_mode_still_dispatches_after_close() {
    let mut channel = ActivityChannel::new(ExecutionMode::Synchronous);
    channel.register_dispatch();
    channel.close();
    let r = channel.submit_activity(SendActivityData::UpdatePost(PostId(3)));
    assert_eq!(r, Ok(Submission::DispatchNow(SendActivityData::UpdatePost(PostId(3)))));
    assert_eq!(channel.mode(), ExecutionMode::Synchronous);
}

#[test]
fn derived_handle_stays_usable_after_close() {
    let mut channel = ActivityChannel::new(ExecutionMode::Asynchronous);
    let handle = channel.derive_sender().expect("open channel gives a handle");
    assert!(channel.close());
    assert!(channel.derive_sender().is_none());
    assert_eq!(channel.retrieve_activity(), Retrieved::Pending);
    let report = || {
        SendActivityData::CreateReport(
            "https://example.org/post/1".to_string(),
            PersonId(4),
            CommunityId(5),
            "spam".to_string(),
        )
    };
    channel.send(handle, report());
    assert_eq!(channel.retrieve_activity(), Retrieved::Activity(report()));
    assert_eq!(channel.retrieve_activity(), Retrieved::Finished);
}

#[test]
fn released_handle_lets_the_queue_close() {
    let mut channel = ActivityChannel::new(ExecutionMode::Asynchronous);
    let handle = channel.derive_sender().expect("open channel gives a handle");
    channel.close();
    assert_eq!(channel.state(), QueueState::Draining);
    channel.release_sender(handle);
    assert_eq!(channel.state(), QueueState::Closed);
    assert_eq!(channel.retrieve_activity(), Retrieved::Finished);
}

#[test]
fn worker_failures_are_reported() {
    assert_eq!(
        ActivityChannel::worker_outcome(WorkerExit::Failed("db gone".to_string())),
        Err(ActivityError::WorkerTaskFailed("db gone".to_string()))
    );
    assert_eq!(
        ActivityChannel::worker_outcome(WorkerExit::Panicked),
        Err(ActivityError::WorkerTaskPanicked)
    );
}
