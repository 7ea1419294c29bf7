//! Properties of the activity channel that span several operations, stated
//! over [`ChannelModel`] and proved.
use crate::activity::SendActivityData;
use crate::channel::{ChannelModel, ExecutionMode, QueueState, Retrieved, Submission, ActivityError};
use vstd::prelude::*;

verus! {

/// The state after submitting each activity of `s`, first to last.
pub open spec fn submit_all(m: ChannelModel, s: Seq<SendActivityData>) -> ChannelModel
    decreases s.len(),
{
    if s.len() == 0 {
        m
    } else {
        submit_all(m.after_submit(s[0]), s.drop_first())
    }
}

/// Retrieving `n` times: the activities obtained, in order, and the state after.
pub open spec fn drain(m: ChannelModel, n: nat) -> (Seq<SendActivityData>, ChannelModel)
    decreases n,
{
    if n == 0 {
        (Seq::empty(), m)
    } else {
        let rest = drain(m.after_retrieve(), (n - 1) as nat);
        let got = match m.retrieve_result() {
            Retrieved::Activity(d) => seq![d],
            _ => Seq::empty(),
        };
        (got + rest.0, rest.1)
    }
}

/// How far along a phase is: phases never go back.
pub open spec fn phase_rank(q: QueueState) -> nat {
    match q {
        QueueState::Open => 0,
        QueueState::Draining => 1,
        QueueState::Closed => 2,
    }
}

proof fn lemma_submit_all_appends(m: ChannelModel, s: Seq<SendActivityData>)
    requires
        m.mode == ExecutionMode::Asynchronous,
        m.keepalive,
    ensures
        submit_all(m, s) == (ChannelModel { queue: m.queue + s, ..m }),
    decreases s.len(),
{
    if s.len() > 0 {
        let m1 = m.after_submit(s[0]);
        lemma_submit_all_appends(m1, s.drop_first());
        assert(m.queue.push(s[0]) + s.drop_first() =~= m.queue + s);
    } else {
        assert(m.queue + s =~= m.queue);
    }
}

proof fn lemma_drain_yields_queue(m: ChannelModel)
    ensures
        drain(m, m.queue.len()) == (m.queue, ChannelModel { queue: Seq::empty(), ..m }),
    decreases m.queue.len(),
{
    if m.queue.len() > 0 {
        let m1 = m.after_retrieve();
        lemma_drain_yields_queue(m1);
        assert(seq![m.queue[0]] + m.queue.drop_first() =~= m.queue);
    } else {
        assert(m.queue =~= Seq::<SendActivityData>::empty());
    }
}

/// Once shutdown has begun and no derived handle is outstanding, draining
/// what is queued yields it in order, after which every retrieval answers
/// `Finished` and the queue is closed: the consumer never waits forever.
pub proof fn lemma_drained_after_close_finishes(m: ChannelModel)
    requires
        !m.keepalive,
        m.senders == 0,
    ensures
        drain(m, m.queue.len()).0 == m.queue,
        drain(m, m.queue.len()).1.retrieve_result() == Retrieved::Finished,
        drain(m, m.queue.len()).1.state() == QueueState::Closed,
        drain(m, m.queue.len()).1.after_retrieve() == drain(m, m.queue.len()).1,
{
    lemma_drain_yields_queue(m);
}

/// In asynchronous mode, activities submitted to an open, empty channel and
/// then drained after `close` come out exactly once each, in the order they
/// were submitted; with no derived handle outstanding, the next retrieval
/// answers `Finished`.
pub proof fn lemma_async_submissions_retrieved_in_order(m: ChannelModel, s: Seq<SendActivityData>)
    requires
        m.mode == ExecutionMode::Asynchronous,
        m.keepalive,
        m.queue.len() == 0,
    ensures
        drain(submit_all(m, s).after_close(), s.len()).0 == s,
        m.senders == 0 ==> drain(submit_all(m, s).after_close(), s.len()).1.retrieve_result()
            == Retrieved::Finished,
{
    lemma_submit_all_appends(m, s);
    let c = submit_all(m, s).after_close();
    assert(c.queue =~= s);
    lemma_drain_yields_queue(c);
}

/// Submitting after the keepalive handle was released never enqueues: the
/// state is unchanged, and in asynchronous mode the answer is `ChannelClosed`.
pub proof fn lemma_submit_after_close_never_enqueues(m: ChannelModel, data: SendActivityData)
    requires
        !m.keepalive,
    ensures
        m.after_submit(data) == m,
        m.mode == ExecutionMode::Asynchronous ==> m.submit_result(data) == Err::<Submission, ActivityError>(
            ActivityError::ChannelClosed,
        ),
{
}

/// In synchronous mode a submission never touches the queue; with a dispatch
/// function registered, the very activity is handed back for inline dispatch.
pub proof fn lemma_sync_submission_bypasses_queue(m: ChannelModel, data: SendActivityData)
    requires
        m.mode == ExecutionMode::Synchronous,
    ensures
        m.after_submit(data) == m,
        m.registered ==> m.submit_result(data) == Ok::<Submission, ActivityError>(Submission::DispatchNow(data)),
        !m.registered ==> m.submit_result(data) == Err::<Submission, ActivityError>(ActivityError::NotRegistered),
{
}

/// No operation moves the queue back to an earlier phase: once the keepalive
/// handle is released it stays released, and a closed queue stays closed.
pub proof fn lemma_phases_move_forward(m: ChannelModel, data: SendActivityData)
    ensures
        phase_rank(m.state()) <= phase_rank(m.after_submit(data).state()),
        phase_rank(m.state()) <= phase_rank(m.after_retrieve().state()),
        phase_rank(m.state()) <= phase_rank(m.after_close().state()),
        phase_rank(m.state()) <= phase_rank(m.after_derive().state()),
        m.senders > 0 ==> phase_rank(m.state()) <= phase_rank(m.after_send(data).state()),
        m.senders > 0 ==> phase_rank(m.state()) <= phase_rank(m.after_release().state()),
{
}

} // verus!
