use vstd::prelude::*;
use vstd::string::*;

use crate::status::{ExitInfo, StatusView, StreamStatus, unknown_exit_message};

verus! {

/// What one non-blocking receive from the line queue gave.
#[derive(Debug)]
pub enum Received {
    /// The worker sent a line.
    Line(String),
    /// No line is queued, and the worker may still send one.
    Empty,
    /// No line is queued, and the worker has closed its end of the queue.
    Disconnected,
}

/// What a poll asks of its caller after one receive.
#[derive(Debug)]
pub enum PollStep {
    /// Hand this status to the caller of the poll.
    Report(StreamStatus),
    /// Join the worker, and hand its result to [`StreamState::on_joined`].
    Join,
}

/// The polling side of an output stream: whether the background worker
/// has been joined, and the exit it left if so.
#[derive(Debug)]
pub struct StreamState {
    pub joined: bool,
    pub result: Option<ExitInfo>,
}

impl StreamState {
    /// No result is held before the worker is joined.
    pub open spec fn wf(self) -> bool {
        !self.joined ==> self.result.is_none()
    }

    /// What a receive gives at once, without joining: `None` where the
    /// worker must be joined first.
    pub open spec fn immediate(self, r: Received) -> Option<StatusView> {
        match r {
            Received::Line(l) => Some(StatusView::Line(l@)),
            Received::Empty => Some(StatusView::Wait),
            Received::Disconnected => if self.joined {
                Some(StatusView::terminal_of(self.result))
            } else {
                None
            },
        }
    }

    /// One whole poll: the receive `r`, and where it calls for it, the join
    /// of a worker whose result is `worker`. Gives the next state and the
    /// status reported.
    pub open spec fn poll(self, r: Received, worker: Option<ExitInfo>) -> (StreamState, StatusView) {
        match self.immediate(r) {
            Some(v) => (self, v),
            None => (StreamState { joined: true, result: worker }, StatusView::terminal_of(worker)),
        }
    }

    /// The statuses reported by polling from this state through the receives
    /// `events`, against a worker whose result is `worker`.
    pub open spec fn trace(self, events: Seq<Received>, worker: Option<ExitInfo>) -> Seq<StatusView>
        decreases events.len(),
    {
        if events.len() == 0 {
            Seq::empty()
        } else {
            let (next, v) = self.poll(events[0], worker);
            seq![v] + next.trace(events.drop_first(), worker)
        }
    }

    /// A stream whose worker has not been joined.
    pub fn new() -> (s: StreamState)
        ensures
            s == initial_state(),
            s.wf(),
    {
        StreamState { joined: false, result: None }
    }

    /// The terminal status of a stream whose worker has been joined.
    pub fn outcome(&self) -> (r: StreamStatus)
        requires
            self.joined,
        ensures
            r@ == StatusView::terminal_of(self.result),
            r@.is_terminal(),
    {
        match self.result {
            Some(exit) => StreamStatus::from_status(&exit),
            None => {
                let m = String::from_str("Cannot determine exit status");
                proof {
                    reveal_strlit("Cannot determine exit status");
                    assert(m@ =~= unknown_exit_message());
                }
                StreamStatus::Error(m)
            },
        }
    }

    /// Decides a poll from one receive: a line or a wait is reported as it
    /// came; a closed queue reports the terminal status, or asks for the
    /// join where the worker has not yet been joined.
    pub fn on_receive(&self, r: Received) -> (step: PollStep)
        ensures
            match step {
                PollStep::Report(s) => self.immediate(r) == Some(s@),
                PollStep::Join => self.immediate(r).is_none(),
            },
    {
        match r {
            Received::Line(l) => PollStep::Report(StreamStatus::Line(l)),
            Received::Empty => PollStep::Report(StreamStatus::Wait),
            Received::Disconnected => if self.joined {
                PollStep::Report(self.outcome())
            } else {
                PollStep::Join
            },
        }
    }

    /// Records the result of the one join of the worker (`None` where the
    /// join failed or the process's exit could not be had), and reports the
    /// terminal status.
    pub fn on_joined(&mut self, worker: Option<ExitInfo>) -> (r: StreamStatus)
        requires
            !old(self).joined,
        ensures
            final(self).joined,
            final(self).result == worker,
            final(self).wf(),
            r@ == StatusView::terminal_of(worker),
            (*final(self), r@) == old(self).poll(Received::Disconnected, worker),
    {
        self.joined = true;
        self.result = worker;
        self.outcome()
    }
}

/// A stream whose worker has not been joined, as `new` makes it.
pub open spec fn initial_state() -> StreamState {
    StreamState { joined: false, result: None }
}

/// The worker's result for a process that exited with `code`.
pub open spec fn exit_with(code: i32) -> Option<ExitInfo> {
    Some(ExitInfo { code: Some(code) })
}

/// The status reported for a receive from a queue that is still open.
pub open spec fn reported(r: Received) -> StatusView {
    match r {
        Received::Line(l) => StatusView::Line(l@),
        _ => StatusView::Wait,
    }
}

/// The queue is still open at this receive.
pub open spec fn is_open(r: Received) -> bool {
    !(r is Disconnected)
}

/// `n` receives from the closed queue.
pub open spec fn closed_receives(n: nat) -> Seq<Received> {
    Seq::new(n, |i: int| Received::Disconnected)
}

/// Receives from the open queue report each line as it came and change nothing.
proof fn lemma_trace_open(s: StreamState, pre: Seq<Received>, tail: Seq<Received>, worker: Option<ExitInfo>)
    requires
        forall|i: int| 0 <= i < pre.len() ==> is_open(#[trigger] pre[i]),
    ensures
        s.trace(pre + tail, worker) == pre.map_values(|r: Received| reported(r)) + s.trace(tail, worker),
    decreases pre.len(),
{
    if pre.len() == 0 {
        assert(pre + tail =~= tail);
        assert(pre.map_values(|r: Received| reported(r)) =~= Seq::<StatusView>::empty());
    } else {
        let rest = pre.drop_first();
        assert(is_open(pre[0]));
        assert forall|i: int| 0 <= i < rest.len() implies is_open(#[trigger] rest[i]) by {
            assert(rest[i] == pre[i + 1]);
        }
        lemma_trace_open(s, rest, tail, worker);
        assert((pre + tail).drop_first() =~= rest + tail);
        assert((pre + tail)[0] == pre[0]);
        assert(pre.map_values(|r: Received| reported(r)) =~= seq![reported(pre[0])]
            + rest.map_values(|r: Received| reported(r)));
    }
}

/// Receives from the closed queue, once the worker is joined, all report the
/// terminal status of what it left.
proof fn lemma_trace_closed_joined(s: StreamState, n: nat, worker: Option<ExitInfo>)
    requires
        s.joined,
    ensures
        s.trace(closed_receives(n), worker) == Seq::new(n, |i: int| StatusView::terminal_of(s.result)),
    decreases n,
{
    if n == 0 {
        assert(closed_receives(0) =~= Seq::<Received>::empty());
    } else {
        lemma_trace_closed_joined(s, (n - 1) as nat, worker);
        assert(closed_receives(n).drop_first() =~= closed_receives((n - 1) as nat));
        assert(Seq::new(n, |i: int| StatusView::terminal_of(s.result)) =~= seq![StatusView::terminal_of(s.result)]
            + Seq::new((n - 1) as nat, |i: int| StatusView::terminal_of(s.result)));
    }
}

/// Polling a fresh stream through receives from the open queue, then through
/// `n` receives from the closed queue, reports one status per receive: each
/// line as it came, in the order it came, and a wait for each empty receive;
/// then, from the close on, only the terminal status of the worker's result.
/// So no line is lost, doubled or reordered, and none follows a terminal status.
pub proof fn lemma_lines_then_outcome(pre: Seq<Received>, n: nat, worker: Option<ExitInfo>)
    requires
        forall|i: int| 0 <= i < pre.len() ==> is_open(#[trigger] pre[i]),
    ensures
        ({
            let out = initial_state().trace(pre + closed_receives(n), worker);
            &&& out.len() == pre.len() + n
            &&& forall|i: int| 0 <= i < pre.len() ==> out[i] == reported(#[trigger] pre[i])
            &&& forall|i: int| pre.len() <= i < out.len() ==> #[trigger] out[i] == StatusView::terminal_of(worker)
            &&& forall|i: int| pre.len() <= i < out.len() ==> (#[trigger] out[i]).is_terminal()
        }),
{
    let s = StreamState { joined: false, result: None };
    let j = StreamState { joined: true, result: worker };
    lemma_trace_open(s, pre, closed_receives(n), worker);
    let tail = s.trace(closed_receives(n), worker);
    let t = StatusView::terminal_of(worker);
    assert(tail =~= Seq::new(n, |i: int| t)) by {
        if n > 0 {
            assert(closed_receives(n)[0] == Received::Disconnected);
            assert(closed_receives(n).drop_first() =~= closed_receives((n - 1) as nat));
            lemma_trace_closed_joined(j, (n - 1) as nat, worker);
        } else {
            assert(closed_receives(0) =~= Seq::<Received>::empty());
        }
    }
    lemma_terminal_of_is_terminal(worker);
}

/// Every terminal status is terminal.
proof fn lemma_terminal_of_is_terminal(worker: Option<ExitInfo>)
    ensures
        StatusView::terminal_of(worker).is_terminal(),
{
}

/// A process that writes lines and exits with code zero: polling through
/// its lines, interleaved with empty receives, and one receive from the
/// closed queue reports exactly those lines in order, the waits, then
/// `Complete`.
pub proof fn lemma_success_completes(pre: Seq<Received>)
    requires
        forall|i: int| 0 <= i < pre.len() ==> is_open(#[trigger] pre[i]),
    ensures
        initial_state().trace(
            pre + closed_receives(1),
            exit_with(0i32),
        ) == pre.map_values(|r: Received| reported(r)).push(StatusView::Complete),
{
    let worker = exit_with(0i32);
    lemma_lines_then_outcome(pre, 1, worker);
    let out = initial_state().trace(pre + closed_receives(1), worker);
    assert(out =~= pre.map_values(|r: Received| reported(r)).push(StatusView::Complete));
}

/// A process that writes nothing and exits with code `k`, not zero: polling
/// reports only waits, then `Failed(k)`.
pub proof fn lemma_silent_failure_reports_code(waits: nat, k: i32)
    requires
        k != 0,
    ensures
        initial_state().trace(
            Seq::new(waits, |i: int| Received::Empty) + closed_receives(1),
            exit_with(k),
        ) == Seq::new(waits, |i: int| StatusView::Wait).push(StatusView::Failed(k)),
{
    let worker = exit_with(k);
    let pre = Seq::new(waits, |i: int| Received::Empty);
    assert forall|i: int| 0 <= i < pre.len() implies is_open(#[trigger] pre[i]) by {
        assert(pre[i] == Received::Empty);
    }
    lemma_lines_then_outcome(pre, 1, worker);
    let out = initial_state().trace(pre + closed_receives(1), worker);
    assert forall|i: int| 0 <= i < waits implies out[i] == StatusView::Wait by {
        assert(pre[i] == Received::Empty);
    }
    assert(out[waits as int] == StatusView::terminal_of(worker));
    assert(out =~= Seq::new(waits, |i: int| StatusView::Wait).push(StatusView::Failed(k)));
}

/// Once a poll of the closed queue has reported a terminal status, every
/// later poll reports the same status and leaves the state as it is: the
/// worker is joined at most once, whatever a second join would give.
pub proof fn lemma_terminal_is_kept(s: StreamState, first: Option<ExitInfo>, second: Option<ExitInfo>)
    requires
        s.wf(),
    ensures
        ({
            let (s1, v1) = s.poll(Received::Disconnected, first);
            let (s2, v2) = s1.poll(Received::Disconnected, second);
            &&& v1.is_terminal()
            &&& s1.joined
            &&& v2 == v1
            &&& s2 == s1
        }),
{
    lemma_terminal_of_is_terminal(first);
    lemma_terminal_of_is_terminal(s.result);
}

} // verus!
