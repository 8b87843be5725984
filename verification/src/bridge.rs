//! The blocking-wait bridge: one bounded run of the GUI event loop in place of
//! the host's multiplexed wait on file descriptors.
//!
//! The process that owns the event loop asks [`SelectBridge::begin`] what to
//! do. When the window system is inhibited it calls the real primitive and
//! hands its result back unchanged. Otherwise it runs the loop, gives every
//! notification to [`SelectBridge::step`], does what the returned
//! [`Reaction`] says, and after the loop asks [`SelectBridge::finish`] for the
//! value to return, or for the non-blocking check to make first.
use vstd::prelude::*;
use crate::buffer::EventBuffer;
use crate::clock::{Deadline, Timeout, Timestamp};
use crate::event::GuiEvent;

verus! {

/// What a blocking wait returns when a signal cut it short.
pub const INTERRUPTED: i32 = -1;

/// How long the non-blocking check is held back, in milliseconds, on hosts
/// that spin when it is made again and again with nothing to do.
pub const ANTI_SPIN_PAUSE_MS: u64 = 16;

/// What the event loop tells its callback.
#[derive(Clone, Copy, Debug, PartialEq, Eq, Structural)]
pub enum LoopSignal {
    /// The loop has started.
    Started,
    /// The time that the loop was told to wait for has come.
    DeadlineReached,
    /// An event arrived.
    Event(GuiEvent),
    /// The loop has handed out everything that was pending.
    EventsCleared,
}

impl LoopSignal {
    /// Whether the signal is GUI activity or a wake request: what ends the
    /// wait with something to report.
    pub open spec fn is_activity(self) -> bool {
        match self {
            LoopSignal::Event(e) => e.spec_is_relevant() || e is WakeNotification,
            _ => false,
        }
    }

    /// Whether a running bridge leaves the loop on this signal.
    pub open spec fn is_terminal(self) -> bool {
        self is DeadlineReached || self is EventsCleared || self.is_activity()
    }
}

/// What the event loop is to do next.
#[derive(Clone, Copy, Debug, PartialEq, Eq, Structural)]
pub enum ControlFlow {
    /// Sleep until an event arrives or the deadline comes.
    WaitUntil(Deadline),
    /// Leave the loop.
    Exit,
}

/// What the callback is to do for one signal.
#[derive(Clone, Copy, Debug, PartialEq, Eq, Structural)]
pub struct Reaction {
    /// The policy to hand to the event loop.
    pub flow: ControlFlow,
    /// Whether to tell the host that input is pending: raise its
    /// asynchronous-I/O signal and set the calling thread's error state to
    /// "interrupted system call".
    pub interrupt: bool,
}

/// How a run of the event loop ended.
#[derive(Clone, Copy, Debug, PartialEq, Eq, Structural)]
pub enum Outcome {
    /// Nothing happened.
    Neutral,
    /// A window event was captured.
    Interrupted,
    /// A wake request came in with this count of ready descriptors.
    Woken(i32),
}

/// Where a bridge call stands.
#[derive(Clone, Copy, Debug, PartialEq, Eq, Structural)]
pub enum Phase {
    Running,
    Exited(Outcome),
}

/// What to do once the event loop has returned.
#[derive(Clone, Copy, Debug, PartialEq, Eq, Structural)]
pub enum Completion {
    /// Return this value.
    Return(i32),
    /// Sleep for `pause_ms` milliseconds, make the real check on the caller's
    /// descriptor sets with a timeout of zero, and return what it gives.
    Poll { pause_ms: u64 },
}

/// The state of one bridge call.
#[derive(Clone, Copy, Debug, PartialEq, Eq, Structural)]
pub struct SelectBridge {
    pub deadline: Deadline,
    pub phase: Phase,
}

/// How a bridge call is to proceed.
#[derive(Clone, Copy, Debug, PartialEq, Eq, Structural)]
pub enum Plan {
    /// Call the real primitive with all arguments unchanged and return its
    /// result as it is. The event loop is not run.
    Bypass,
    /// Run the event loop under this bridge.
    Drive(SelectBridge),
}

impl SelectBridge {
    /// The plan for a call made at `now` with `timeout`.
    pub open spec fn spec_begin(inhibited: bool, now: Timestamp, timeout: Timeout) -> Plan {
        if inhibited {
            Plan::Bypass
        } else {
            Plan::Drive(
                SelectBridge {
                    deadline: Deadline {
                        at: Timestamp { nanos: (now.nanos + timeout.spec_total_nanos()) as u128 },
                    },
                    phase: Phase::Running,
                },
            )
        }
    }

    /// The bridge, the buffer and the reaction after one signal.
    ///
    /// A running bridge arms the wait on `Started`, leaves with nothing to
    /// report when the deadline comes or the loop runs dry, captures a
    /// relevant window event and leaves interrupted, leaves with the count of
    /// a wake request, and lets everything else pass. A bridge that has left
    /// the loop changes nothing any more.
    pub open spec fn spec_step(self, buf: Seq<GuiEvent>, signal: LoopSignal) -> (
        SelectBridge,
        Seq<GuiEvent>,
        Reaction,
    ) {
        let wait = Reaction { flow: ControlFlow::WaitUntil(self.deadline), interrupt: false };
        let leave = Reaction { flow: ControlFlow::Exit, interrupt: false };
        match self.phase {
            Phase::Exited(_) => (self, buf, leave),
            Phase::Running => match signal {
                LoopSignal::Started => (self, buf, wait),
                LoopSignal::DeadlineReached => (self.exited(Outcome::Neutral), buf, leave),
                LoopSignal::EventsCleared => (self.exited(Outcome::Neutral), buf, leave),
                LoopSignal::Event(e) => if e.spec_is_relevant() {
                    (
                        self.exited(Outcome::Interrupted),
                        buf.push(e),
                        Reaction { flow: ControlFlow::Exit, interrupt: true },
                    )
                } else {
                    match e {
                        GuiEvent::WakeNotification(n) => (self.exited(Outcome::Woken(n)), buf, leave),
                        _ => (self, buf, wait),
                    }
                },
            },
        }
    }

    /// This bridge after it has left the loop with `outcome`.
    pub open spec fn exited(self, outcome: Outcome) -> SelectBridge {
        SelectBridge { deadline: self.deadline, phase: Phase::Exited(outcome) }
    }

    /// The bridge and the buffer after the signals of `signals`, in order.
    pub open spec fn spec_run(self, buf: Seq<GuiEvent>, signals: Seq<LoopSignal>) -> (
        SelectBridge,
        Seq<GuiEvent>,
    )
        decreases signals.len(),
    {
        if signals.len() == 0 {
            (self, buf)
        } else {
            let next = self.spec_step(buf, signals[0]);
            next.0.spec_run(next.1, signals.drop_first())
        }
    }

    /// What is left to do after the loop.
    pub open spec fn spec_finish(self, spin_prone: bool) -> Completion {
        match self.phase {
            Phase::Exited(Outcome::Interrupted) => Completion::Return(INTERRUPTED),
            Phase::Exited(Outcome::Woken(n)) => Completion::Return(n),
            _ => Completion::Poll { pause_ms: if spin_prone { ANTI_SPIN_PAUSE_MS } else { 0 } },
        }
    }

    /// The value that the call returns, where `fallback` is what the
    /// non-blocking check gives.
    pub open spec fn spec_conclude(self, fallback: i32) -> i32 {
        match self.phase {
            Phase::Exited(Outcome::Interrupted) => INTERRUPTED,
            Phase::Exited(Outcome::Woken(n)) => n,
            _ => fallback,
        }
    }

    /// Plans a bridge call. With the window system inhibited the answer is
    /// to bypass the event loop altogether; otherwise it is a running bridge
    /// whose deadline is `timeout` after `now`.
    pub fn begin(inhibited: bool, now: Timestamp, timeout: Timeout) -> (plan: Plan)
        requires
            inhibited || Deadline::fits(now, timeout),
        ensures
            plan == SelectBridge::spec_begin(inhibited, now, timeout),
            inhibited <==> plan is Bypass,
    {
        if inhibited {
            Plan::Bypass
        } else {
            let at = Timestamp { nanos: now.nanos + timeout.total_nanos() };
            Plan::Drive(SelectBridge { deadline: Deadline { at }, phase: Phase::Running })
        }
    }

    /// Handles one signal of the event loop: updates the bridge, appends to
    /// `buffer` what is to be captured, and says what the callback is to do.
    pub fn step(&mut self, signal: LoopSignal, buffer: &mut EventBuffer) -> (reaction: Reaction)
        ensures
            (*final(self), final(buffer)@, reaction) == old(self).spec_step(old(buffer)@, signal),
    {
        let wait = Reaction { flow: ControlFlow::WaitUntil(self.deadline), interrupt: false };
        let leave = Reaction { flow: ControlFlow::Exit, interrupt: false };
        match self.phase {
            Phase::Exited(_) => leave,
            Phase::Running => match signal {
                LoopSignal::Started => wait,
                LoopSignal::DeadlineReached => {
                    self.phase = Phase::Exited(Outcome::Neutral);
                    leave
                },
                LoopSignal::EventsCleared => {
                    self.phase = Phase::Exited(Outcome::Neutral);
                    leave
                },
                LoopSignal::Event(e) => {
                    if e.is_relevant() {
                        buffer.push(e);
                        self.phase = Phase::Exited(Outcome::Interrupted);
                        Reaction { flow: ControlFlow::Exit, interrupt: true }
                    } else {
                        match e {
                            GuiEvent::WakeNotification(n) => {
                                self.phase = Phase::Exited(Outcome::Woken(n));
                                leave
                            },
                            _ => wait,
                        }
                    }
                },
            },
        }
    }

    /// Says what is left to do after the event loop has returned: return the
    /// interrupted sentinel or the wake count at once, or, where nothing
    /// happened, make the non-blocking check, after a short pause on hosts
    /// that are prone to spinning.
    pub fn finish(&self, spin_prone: bool) -> (completion: Completion)
        ensures
            completion == self.spec_finish(spin_prone),
    {
        match self.phase {
            Phase::Exited(Outcome::Interrupted) => Completion::Return(INTERRUPTED),
            Phase::Exited(Outcome::Woken(n)) => Completion::Return(n),
            _ => Completion::Poll { pause_ms: if spin_prone { ANTI_SPIN_PAUSE_MS } else { 0 } },
        }
    }

    /// The value that the call returns once the non-blocking check, where one
    /// was due, has given `fallback`.
    pub fn conclude(&self, fallback: i32) -> (result: i32)
        ensures
            result == self.spec_conclude(fallback),
            self.spec_finish(false) matches Completion::Return(v) ==> result == v,
            self.spec_finish(false) is Poll ==> result == fallback,
    {
        match self.phase {
            Phase::Exited(Outcome::Interrupted) => INTERRUPTED,
            Phase::Exited(Outcome::Woken(n)) => n,
            _ => fallback,
        }
    }
}

/// One bridge call as the host sees it: whether the window system was
/// inhibited, when the call was made and with what timeout, the signals that
/// the event loop delivered, in order, and what the real primitive returned
/// on the one occasion on which the call invoked it.
pub struct Call {
    pub inhibited: bool,
    pub now: Timestamp,
    pub timeout: Timeout,
    pub signals: Seq<LoopSignal>,
    pub primitive: i32,
}

/// The buffer after a call, and the value that the call returns.
pub open spec fn spec_call(buf: Seq<GuiEvent>, call: Call) -> (Seq<GuiEvent>, i32) {
    match SelectBridge::spec_begin(call.inhibited, call.now, call.timeout) {
        Plan::Bypass => (buf, call.primitive),
        Plan::Drive(bridge) => {
            let end = bridge.spec_run(buf, call.signals);
            (end.1, end.0.spec_conclude(call.primitive))
        },
    }
}

/// The buffer after the calls of `calls`, one after the other, with no drain
/// in between.
pub open spec fn spec_calls(buf: Seq<GuiEvent>, calls: Seq<Call>) -> Seq<GuiEvent>
    decreases calls.len(),
{
    if calls.len() == 0 {
        buf
    } else {
        spec_call(spec_calls(buf, calls.drop_last()), calls.last()).0
    }
}

/// How many of `signals` a running bridge handles before it leaves the loop:
/// all up to and including the first that is terminal.
pub open spec fn observed_len(signals: Seq<LoopSignal>) -> nat
    decreases signals.len(),
{
    if signals.len() == 0 {
        0
    } else if signals[0].is_terminal() {
        1
    } else {
        1 + observed_len(signals.drop_first())
    }
}

/// The relevant window events among `signals`, in order.
pub open spec fn qualifying(signals: Seq<LoopSignal>) -> Seq<GuiEvent>
    decreases signals.len(),
{
    if signals.len() == 0 {
        Seq::empty()
    } else {
        let rest = qualifying(signals.drop_last());
        match signals.last() {
            LoopSignal::Event(e) => if e.spec_is_relevant() {
                rest.push(e)
            } else {
                rest
            },
            _ => rest,
        }
    }
}

/// The relevant window events that a call observes: none where the event
/// loop is bypassed, else those among the signals handled before the exit.
pub open spec fn observed_events(call: Call) -> Seq<GuiEvent> {
    if call.inhibited {
        Seq::empty()
    } else {
        qualifying(call.signals.take(observed_len(call.signals) as int))
    }
}

/// The relevant window events that the calls of `calls` observe, in order.
pub open spec fn observed_over(calls: Seq<Call>) -> Seq<GuiEvent>
    decreases calls.len(),
{
    if calls.len() == 0 {
        Seq::empty()
    } else {
        observed_over(calls.drop_last()) + observed_events(calls.last())
    }
}

/// A bridge that has left the loop ignores whatever else is delivered.
pub proof fn lemma_exited_bridge_is_inert(
    bridge: SelectBridge,
    buf: Seq<GuiEvent>,
    signals: Seq<LoopSignal>,
)
    requires
        bridge.phase is Exited,
    ensures
        bridge.spec_run(buf, signals) == (bridge, buf),
    decreases signals.len(),
{
    if signals.len() > 0 {
        lemma_exited_bridge_is_inert(bridge, buf, signals.drop_first());
    }
}

/// A running bridge passes over everything that is not terminal, and what
/// the run comes to is decided by the first terminal signal alone.
pub proof fn lemma_first_terminal_decides(
    bridge: SelectBridge,
    buf: Seq<GuiEvent>,
    signals: Seq<LoopSignal>,
    k: int,
)
    requires
        bridge.phase is Running,
        0 <= k < signals.len(),
        signals[k].is_terminal(),
        forall|j: int| 0 <= j < k ==> !(#[trigger] signals[j]).is_terminal(),
    ensures
        bridge.spec_run(buf, signals) == (
            bridge.spec_step(buf, signals[k]).0,
            bridge.spec_step(buf, signals[k]).1,
        ),
        bridge.spec_step(buf, signals[k]).0.phase is Exited,
    decreases k,
{
    let rest = signals.drop_first();
    if k == 0 {
        let next = bridge.spec_step(buf, signals[0]);
        lemma_exited_bridge_is_inert(next.0, next.1, rest);
    } else {
        assert(!signals[0].is_terminal());
        assert(bridge.spec_step(buf, signals[0]).0 == bridge);
        assert(bridge.spec_step(buf, signals[0]).1 == buf);
        assert forall|j: int| 0 <= j < k - 1 implies !(#[trigger] rest[j]).is_terminal() by {
            assert(rest[j] == signals[j + 1]);
        }
        assert(rest[k - 1] == signals[k]);
        lemma_first_terminal_decides(bridge, buf, rest, k - 1);
    }
}

/// With the window system not inhibited and neither GUI activity nor a wake
/// request among the signals, the call returns what the non-blocking check
/// gave, and the buffer is as it was. The loop was told to wait for exactly
/// `timeout` after `now`.
pub proof fn lemma_quiet_call_returns_fallback(buf: Seq<GuiEvent>, call: Call)
    requires
        !call.inhibited,
        forall|j: int| 0 <= j < call.signals.len() ==> !(#[trigger] call.signals[j]).is_activity(),
    ensures
        spec_call(buf, call) == (buf, call.primitive),
        SelectBridge::spec_begin(call.inhibited, call.now, call.timeout) matches Plan::Drive(bridge)
            && bridge.spec_step(buf, LoopSignal::Started).2.flow == ControlFlow::WaitUntil(
            Deadline {
                at: Timestamp { nanos: (call.now.nanos + call.timeout.spec_total_nanos()) as u128 },
            },
        ),
{
    let bridge = SelectBridge::spec_begin(call.inhibited, call.now, call.timeout)->Drive_0;
    lemma_quiet_run(bridge, buf, call.signals);
}

/// A run without activity never captures anything and never ends other than
/// with nothing to report.
pub proof fn lemma_quiet_run(bridge: SelectBridge, buf: Seq<GuiEvent>, signals: Seq<LoopSignal>)
    requires
        !(bridge.phase is Exited) || bridge.phase == Phase::Exited(Outcome::Neutral),
        forall|j: int| 0 <= j < signals.len() ==> !(#[trigger] signals[j]).is_activity(),
    ensures
        bridge.spec_run(buf, signals).1 == buf,
        forall|fallback: i32| #[trigger]
            bridge.spec_run(buf, signals).0.spec_conclude(fallback) == fallback,
    decreases signals.len(),
{
    if signals.len() > 0 {
        let rest = signals.drop_first();
        let next = bridge.spec_step(buf, signals[0]);
        assert(!signals[0].is_activity());
        assert forall|j: int| 0 <= j < rest.len() implies !(#[trigger] rest[j]).is_activity() by {
            assert(rest[j] == signals[j + 1]);
        }
        lemma_quiet_run(next.0, next.1, rest);
    }
}

/// A relevant window event that arrives while the bridge is still in the
/// loop makes the call return the interrupted sentinel, makes the callback
/// raise the host's interrupt, and puts exactly that event at the tail of the
/// buffer.
pub proof fn lemma_event_interrupts(buf: Seq<GuiEvent>, call: Call, k: int, event: GuiEvent)
    requires
        !call.inhibited,
        0 <= k < call.signals.len(),
        call.signals[k] == LoopSignal::Event(event),
        event.spec_is_relevant(),
        forall|j: int| 0 <= j < k ==> !(#[trigger] call.signals[j]).is_terminal(),
    ensures
        spec_call(buf, call) == (buf.push(event), INTERRUPTED),
        SelectBridge::spec_begin(call.inhibited, call.now, call.timeout) matches Plan::Drive(bridge)
            && bridge.spec_step(buf, call.signals[k]).2 == (Reaction {
            flow: ControlFlow::Exit,
            interrupt: true,
        }),
{
    let bridge = SelectBridge::spec_begin(call.inhibited, call.now, call.timeout)->Drive_0;
    lemma_first_terminal_decides(bridge, buf, call.signals, k);
}

/// With the window system inhibited the call returns what the real primitive
/// returned, whatever that is, and the buffer is as it was.
pub proof fn lemma_inhibited_call_is_transparent(buf: Seq<GuiEvent>, call: Call)
    requires
        call.inhibited,
    ensures
        spec_call(buf, call) == (buf, call.primitive),
{
}

/// A wake request with count `n` that arrives while the bridge is still in
/// the loop makes the call return exactly `n`, and the buffer is as it was.
pub proof fn lemma_wake_returns_count(buf: Seq<GuiEvent>, call: Call, k: int, n: i32)
    requires
        !call.inhibited,
        0 <= k < call.signals.len(),
        call.signals[k] == LoopSignal::Event(GuiEvent::WakeNotification(n)),
        forall|j: int| 0 <= j < k ==> !(#[trigger] call.signals[j]).is_terminal(),
    ensures
        spec_call(buf, call) == (buf, n),
{
    let bridge = SelectBridge::spec_begin(call.inhibited, call.now, call.timeout)->Drive_0;
    lemma_first_terminal_decides(bridge, buf, call.signals, k);
}

/// Signals that are not terminal hold no relevant window event.
proof fn lemma_nothing_qualifies_before_exit(signals: Seq<LoopSignal>)
    requires
        forall|j: int| 0 <= j < signals.len() ==> !(#[trigger] signals[j]).is_terminal(),
    ensures
        qualifying(signals) == Seq::<GuiEvent>::empty(),
    decreases signals.len(),
{
    if signals.len() > 0 {
        assert(!signals[signals.len() - 1].is_terminal());
        lemma_nothing_qualifies_before_exit(signals.drop_last());
    }
}

/// The signals handled before the exit are all but the last not terminal.
proof fn lemma_observed_prefix(signals: Seq<LoopSignal>)
    ensures
        observed_len(signals) <= signals.len(),
        forall|j: int| 0 <= j < observed_len(signals) - 1 ==> !(#[trigger] signals[j]).is_terminal(),
        observed_len(signals) > 0 ==> (signals[observed_len(signals) - 1].is_terminal()
            || observed_len(signals) == signals.len()),
        observed_len(signals) == 0 <==> signals.len() == 0,
    decreases signals.len(),
{
    if signals.len() > 0 && !signals[0].is_terminal() {
        let rest = signals.drop_first();
        lemma_observed_prefix(rest);
        assert forall|j: int| 0 <= j < observed_len(signals) - 1 implies !(#[trigger] signals[
            j
        ]).is_terminal() by {
            if j > 0 {
                assert(signals[j] == rest[j - 1]);
            }
        }
        if observed_len(rest) > 0 {
            assert(signals[observed_len(signals) - 1] == rest[observed_len(rest) - 1]);
        }
    }
}

/// One run of the event loop appends to the buffer exactly the relevant
/// window events among the signals that it handled before it left the loop,
/// and that is one event at most.
pub proof fn lemma_run_captures_observed(
    bridge: SelectBridge,
    buf: Seq<GuiEvent>,
    signals: Seq<LoopSignal>,
)
    requires
        bridge.phase is Running,
    ensures
        bridge.spec_run(buf, signals).1 == buf + qualifying(
            signals.take(observed_len(signals) as int),
        ),
        qualifying(signals.take(observed_len(signals) as int)).len() <= 1,
{
    lemma_observed_prefix(signals);
    let n = observed_len(signals) as int;
    let seen = signals.take(n);
    if n == 0 {
        assert(buf + Seq::<GuiEvent>::empty() == buf);
    } else {
        let before = seen.drop_last();
        assert forall|j: int| 0 <= j < before.len() implies !(#[trigger] before[j]).is_terminal() by {
            assert(before[j] == signals[j]);
        }
        lemma_nothing_qualifies_before_exit(before);
        assert(seen.last() == signals[n - 1]);
        if signals[n - 1].is_terminal() {
            lemma_first_terminal_decides(bridge, buf, signals, n - 1);
            match signals[n - 1] {
                LoopSignal::Event(e) => {
                    if e.spec_is_relevant() {
                        assert(qualifying(seen) == Seq::<GuiEvent>::empty().push(e));
                        assert(buf + Seq::<GuiEvent>::empty().push(e) == buf.push(e));
                    } else {
                        assert(buf + Seq::<GuiEvent>::empty() == buf);
                    }
                },
                _ => {
                    assert(buf + Seq::<GuiEvent>::empty() == buf);
                },
            }
        } else {
            assert(n == signals.len());
            assert forall|j: int| 0 <= j < signals.len() implies !(#[trigger] signals[j]).is_activity() by {
                assert(!signals[j].is_terminal());
            }
            lemma_quiet_run(bridge, buf, signals);
            assert(qualifying(seen) == Seq::<GuiEvent>::empty());
            assert(buf + Seq::<GuiEvent>::empty() == buf);
        }
    }
}

/// Over any number of bridge calls without a drain in between, the buffer
/// holds what it held before, followed by the relevant window events that
/// the calls observed, call by call and in the order of their arrival.
pub proof fn lemma_buffer_is_concatenation(buf: Seq<GuiEvent>, calls: Seq<Call>)
    ensures
        spec_calls(buf, calls) == buf + observed_over(calls),
    decreases calls.len(),
{
    if calls.len() == 0 {
        assert(buf + Seq::<GuiEvent>::empty() == buf);
    } else {
        let earlier = calls.drop_last();
        let call = calls.last();
        lemma_buffer_is_concatenation(buf, earlier);
        let mid = spec_calls(buf, earlier);
        if !call.inhibited {
            let bridge = SelectBridge::spec_begin(call.inhibited, call.now, call.timeout)->Drive_0;
            lemma_run_captures_observed(bridge, mid, call.signals);
        } else {
            assert(mid + Seq::<GuiEvent>::empty() == mid);
        }
        assert((buf + observed_over(earlier)) + observed_events(call) == buf + (observed_over(
            earlier,
        ) + observed_events(call)));
    }
}

} // verus!
