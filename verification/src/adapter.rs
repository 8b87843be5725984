//! What the owner of the GUI event loop decides outside the bridge: the
//! display connection that is opened once, the wait for a window's first
//! resize, the choice of a monitor and of a clipboard.
use vstd::prelude::*;
use crate::bridge::{ControlFlow, LoopSignal};
use crate::clock::{Deadline, Timeout, Timestamp};
use crate::event::{GuiEvent, WindowId};

verus! {

/// A failure that leaves the process without a display to draw on. None of
/// them is retried: the process reports the message and stops.
#[derive(Clone, Copy, Debug, PartialEq, Eq, Structural)]
pub enum FatalError {
    /// The toolkit could not establish the native graphics connection.
    Connection,
    /// The connection gave no graphics adapter.
    Adapter,
    /// The connection gave no native widget for the window.
    NativeWidget,
    /// No renderable surface could be built.
    Surface,
    /// The event loop runs on Wayland but did not give its display.
    WaylandDisplay,
    /// The window system knows no monitor at all.
    NoMonitor,
}

impl FatalError {
    /// The message that goes with the failure.
    pub open spec fn spec_message(self) -> Seq<char> {
        match self {
            FatalError::Connection => "Failed to create connection"@,
            FatalError::Adapter => "Failed to create adapter"@,
            FatalError::NativeWidget => "Failed to create native widget"@,
            FatalError::Surface => "Failed to create WR surfman"@,
            FatalError::WaylandDisplay => "Fetch Wayland display failed"@,
            FatalError::NoMonitor => "No monitor available"@,
        }
    }

    /// The message that goes with the failure.
    pub fn message(self) -> (m: &'static str)
        ensures
            m@ == self.spec_message(),
    {
        match self {
            FatalError::Connection => "Failed to create connection",
            FatalError::Adapter => "Failed to create adapter",
            FatalError::NativeWidget => "Failed to create native widget",
            FatalError::Surface => "Failed to create WR surfman",
            FatalError::WaylandDisplay => "Fetch Wayland display failed",
            FatalError::NoMonitor => "No monitor available",
        }
    }
}

/// The family of operating systems that the host runs on.
#[derive(Clone, Copy, Debug, PartialEq, Eq, Structural)]
pub enum HostOs {
    /// A Unix other than macOS.
    Unix,
    MacOs,
    Windows,
}

/// The window system that the process talks to. `Wayland` carries the
/// address of the display that the event loop is connected to.
#[derive(Clone, Copy, Debug, PartialEq, Eq, Structural)]
pub enum Platform {
    X11,
    Wayland(usize),
    MacOS,
    Windows,
}

/// The platform whose clipboard the process is to use.
pub open spec fn spec_clipboard_platform(
    os: HostOs,
    on_wayland: bool,
    wayland_display: Option<usize>,
) -> Result<Platform, FatalError> {
    match os {
        HostOs::MacOs => Ok(Platform::MacOS),
        HostOs::Windows => Ok(Platform::Windows),
        HostOs::Unix => if on_wayland {
            match wayland_display {
                Some(display) => Ok(Platform::Wayland(display)),
                None => Err(FatalError::WaylandDisplay),
            }
        } else {
            Ok(Platform::X11)
        },
    }
}

/// Picks the clipboard for the host: the native one on macOS and Windows; on
/// other Unix systems the Wayland one, bound to the event loop's display,
/// where the event loop runs on Wayland, else the X11 one. On Wayland the
/// display is needed, and its absence is fatal.
pub fn clipboard_platform(os: HostOs, on_wayland: bool, wayland_display: Option<usize>) -> (r:
    Result<Platform, FatalError>)
    ensures
        r == spec_clipboard_platform(os, on_wayland, wayland_display),
{
    match os {
        HostOs::MacOs => Ok(Platform::MacOS),
        HostOs::Windows => Ok(Platform::Windows),
        HostOs::Unix => {
            if on_wayland {
                match wayland_display {
                    Some(display) => Ok(Platform::Wayland(display)),
                    None => Err(FatalError::WaylandDisplay),
                }
            } else {
                Ok(Platform::X11)
            }
        },
    }
}

/// The part of the event-loop adapter that holds the display connection.
///
/// The connection starts unset and is set exactly once, on the first demand;
/// from then on every demand sees the same connection. `C` is the toolkit's
/// connection type.
pub struct WrEventLoop<C> {
    connection: Option<C>,
}

/// The slot and the answer after a demand for the connection, where the
/// toolkit, if asked to open one, gives `opened`.
pub open spec fn spec_demand<C>(slot: Option<C>, opened: Option<C>) -> (
    Option<C>,
    Result<C, FatalError>,
) {
    match slot {
        Some(c) => (slot, Ok(c)),
        None => match opened {
            Some(c) => (Some(c), Ok(c)),
            None => (None, Err(FatalError::Connection)),
        },
    }
}

impl<C> WrEventLoop<C> {
    /// The connection, if it has been opened.
    pub closed spec fn slot(&self) -> Option<C> {
        self.connection
    }

    /// An adapter whose display connection is not open yet.
    pub fn new() -> (a: Self)
        ensures
            a.slot() is None,
    {
        WrEventLoop { connection: None }
    }

    /// The connection, if it has been opened.
    pub fn current(&self) -> (c: Option<&C>)
        ensures
            c is Some <==> self.slot() is Some,
            c matches Some(conn) ==> *conn == self.slot()->0,
    {
        self.connection.as_ref()
    }

    /// Opens the display connection unless it is open already. `open` is
    /// what asks the toolkit for a connection; it is called only where none
    /// is held, and what it gives is then kept for good. Where it gives
    /// nothing the failure is fatal and the slot stays unset.
    pub fn open_native_display<F: FnOnce() -> Option<C>>(&mut self, open: F) -> (r: Result<
        (),
        FatalError,
    >)
        requires
            open.requires(()),
        ensures
            old(self).slot() is Some ==> final(self).slot() == old(self).slot() && r is Ok,
            old(self).slot() is None ==> exists|opened: Option<C>|
                open.ensures((), opened) && final(self).slot() == spec_demand(None, opened).0,
            r is Ok <==> final(self).slot() is Some,
            r is Err ==> r == Err::<(), FatalError>(FatalError::Connection),
    {
        if self.connection.is_some() {
            return Ok(());
        }
        let opened = open();
        proof {
            assert(open.ensures((), opened));
            assert(spec_demand(None, opened).0 == opened);
        }
        match opened {
            Some(c) => {
                self.connection = Some(c);
                Ok(())
            },
            None => Err(FatalError::Connection),
        }
    }

    /// The display connection, opened on this demand if it was not open.
    /// Whatever `open` would give, a connection that is held already is the
    /// one returned, and it stays the one that is held.
    pub fn connection<F: FnOnce() -> Option<C>>(&mut self, open: F) -> (r: Result<&C, FatalError>)
        requires
            open.requires(()),
        ensures
            old(self).slot() is Some ==> (final(self).slot(), answer(r)) == spec_demand(
                old(self).slot(),
                None,
            ),
            old(self).slot() is None ==> exists|opened: Option<C>|
                open.ensures((), opened) && (final(self).slot(), answer(r)) == spec_demand(
                    None,
                    opened,
                ),
    {
        match self.open_native_display(open) {
            Ok(()) => match self.connection.as_ref() {
                Some(c) => Ok(c),
                None => Err(FatalError::Connection),
            },
            Err(e) => Err(e),
        }
    }

    /// The monitor to target: the one that the toolkit reports as primary,
    /// else the first of those available. That there is none at all is
    /// fatal.
    pub fn get_primary_monitor<M>(&self, primary: Option<M>, available: Vec<M>) -> (r: Result<
        M,
        FatalError,
    >)
        ensures
            r == spec_primary_monitor(primary, available@),
    {
        match primary {
            Some(monitor) => Ok(monitor),
            None => {
                let mut available = available;
                if available.len() > 0 {
                    Ok(available.swap_remove(0))
                } else {
                    Err(FatalError::NoMonitor)
                }
            },
        }
    }

    /// Starts the wait that lets the geometry of the window `target` settle:
    /// the state to run the event loop under, from `now` on.
    pub fn wait_for_window_resize(&self, target: WindowId, now: Timestamp) -> (wait: ResizeWait)
        requires
            now.nanos + RESIZE_WAIT_MS * 1_000_000 <= u128::MAX,
        ensures
            wait == ResizeWait::spec_begin(target, now),
    {
        ResizeWait::begin(target, now)
    }
}

/// The answer to a demand, with the connection by value.
pub open spec fn answer<C>(r: Result<&C, FatalError>) -> Result<C, FatalError> {
    match r {
        Ok(c) => Ok(*c),
        Err(e) => Err(e),
    }
}

/// The monitor to target, given the one that the toolkit reports as primary
/// and those that are available.
pub open spec fn spec_primary_monitor<M>(primary: Option<M>, available: Seq<M>) -> Result<
    M,
    FatalError,
> {
    match primary {
        Some(monitor) => Ok(monitor),
        None => if available.len() > 0 {
            Ok(available[0])
        } else {
            Err(FatalError::NoMonitor)
        },
    }
}

/// Once a demand has been answered with a connection, every later demand is
/// answered with that same connection and leaves it in place, whatever the
/// toolkit would give if it were asked again.
pub proof fn lemma_connection_is_stable<C>(slot: Option<C>, first: Option<C>, later: Option<C>)
    requires
        spec_demand(slot, first).1 is Ok,
    ensures
        spec_demand(spec_demand(slot, first).0, later) == spec_demand(slot, first),
        spec_demand(slot, first).0 == Some(spec_demand(slot, first).1->Ok_0),
{
}

/// How long a wait for a window's resize lasts at most, in milliseconds.
pub const RESIZE_WAIT_MS: u64 = 100;

/// How a wait for a resize ended. Both ends are normal.
#[derive(Clone, Copy, Debug, PartialEq, Eq, Structural)]
pub enum ResizeOutcome {
    /// The window was resized.
    Resized,
    /// The deadline came first.
    TimedOut,
}

/// A bounded wait for the resize of one window, which lets the geometry of
/// a new window settle before anything is drawn.
#[derive(Clone, Copy, Debug, PartialEq, Eq, Structural)]
pub struct ResizeWait {
    pub target: WindowId,
    pub deadline: Deadline,
    /// `None` while the wait goes on.
    pub outcome: Option<ResizeOutcome>,
}

impl LoopSignal {
    /// Whether a wait for the resize of `target` ends on this signal.
    pub open spec fn ends_resize_wait(self, target: WindowId) -> bool {
        match self {
            LoopSignal::DeadlineReached => true,
            LoopSignal::Event(GuiEvent::Resized { window, .. }) => window == target,
            _ => false,
        }
    }
}

impl ResizeWait {
    /// The wait for `target` that starts at `now`.
    pub open spec fn spec_begin(target: WindowId, now: Timestamp) -> ResizeWait {
        ResizeWait {
            target,
            deadline: Deadline {
                at: Timestamp { nanos: (now.nanos + RESIZE_WAIT_MS * 1_000_000) as u128 },
            },
            outcome: None,
        }
    }

    /// The wait and the policy for the event loop after one signal: the wait
    /// ends when the deadline comes or the target window is resized, and
    /// everything else leaves it waiting for the deadline.
    pub open spec fn spec_step(self, signal: LoopSignal) -> (ResizeWait, ControlFlow) {
        if self.outcome is Some {
            (self, ControlFlow::Exit)
        } else if signal.ends_resize_wait(self.target) {
            (
                ResizeWait {
                    target: self.target,
                    deadline: self.deadline,
                    outcome: Some(
                        if signal is DeadlineReached {
                            ResizeOutcome::TimedOut
                        } else {
                            ResizeOutcome::Resized
                        },
                    ),
                },
                ControlFlow::Exit,
            )
        } else {
            (self, ControlFlow::WaitUntil(self.deadline))
        }
    }

    /// The wait after the signals of `signals`, in order.
    pub open spec fn spec_run(self, signals: Seq<LoopSignal>) -> ResizeWait
        decreases signals.len(),
    {
        if signals.len() == 0 {
            self
        } else {
            self.spec_step(signals[0]).0.spec_run(signals.drop_first())
        }
    }

    /// Starts the wait for a resize of `target` at `now`; it lasts
    /// `RESIZE_WAIT_MS` milliseconds at most.
    pub fn begin(target: WindowId, now: Timestamp) -> (wait: ResizeWait)
        requires
            now.nanos + RESIZE_WAIT_MS * 1_000_000 <= u128::MAX,
        ensures
            wait == ResizeWait::spec_begin(target, now),
    {
        let at = Timestamp { nanos: now.nanos + Timeout::from_millis(RESIZE_WAIT_MS).total_nanos() };
        ResizeWait { target, deadline: Deadline { at }, outcome: None }
    }

    /// Handles one signal of the event loop and says what the loop is to do
    /// next.
    pub fn step(&mut self, signal: LoopSignal) -> (flow: ControlFlow)
        ensures
            (*final(self), flow) == old(self).spec_step(signal),
    {
        if self.outcome.is_some() {
            return ControlFlow::Exit;
        }
        match signal {
            LoopSignal::DeadlineReached => {
                self.outcome = Some(ResizeOutcome::TimedOut);
                ControlFlow::Exit
            },
            LoopSignal::Event(GuiEvent::Resized { window, .. }) => {
                if window == self.target {
                    self.outcome = Some(ResizeOutcome::Resized);
                    ControlFlow::Exit
                } else {
                    ControlFlow::WaitUntil(self.deadline)
                }
            },
            _ => ControlFlow::WaitUntil(self.deadline),
        }
    }
}

/// A wait that has ended stays as it is.
pub proof fn lemma_ended_wait_is_inert(wait: ResizeWait, signals: Seq<LoopSignal>)
    requires
        wait.outcome is Some,
    ensures
        wait.spec_run(signals) == wait,
    decreases signals.len(),
{
    if signals.len() > 0 {
        lemma_ended_wait_is_inert(wait, signals.drop_first());
    }
}

/// Whichever comes first decides how the wait ends: a resize of the target
/// window or the deadline. Resizes of other windows and all other signals
/// before it change nothing.
pub proof fn lemma_resize_wait_ends_on_first(wait: ResizeWait, signals: Seq<LoopSignal>, k: int)
    requires
        wait.outcome is None,
        0 <= k < signals.len(),
        signals[k].ends_resize_wait(wait.target),
        forall|j: int| 0 <= j < k ==> !(#[trigger] signals[j]).ends_resize_wait(wait.target),
    ensures
        wait.spec_run(signals).target == wait.target,
        wait.spec_run(signals).deadline == wait.deadline,
        wait.spec_run(signals).outcome == Some(
            if signals[k] is DeadlineReached {
                ResizeOutcome::TimedOut
            } else {
                ResizeOutcome::Resized
            },
        ),
    decreases k,
{
    let rest = signals.drop_first();
    if k == 0 {
        lemma_ended_wait_is_inert(wait.spec_step(signals[0]).0, rest);
    } else {
        assert(!signals[0].ends_resize_wait(wait.target));
        assert forall|j: int| 0 <= j < k - 1 implies !(#[trigger] rest[j]).ends_resize_wait(
            wait.target,
        ) by {
            assert(rest[j] == signals[j + 1]);
        }
        assert(rest[k - 1] == signals[k]);
        lemma_resize_wait_ends_on_first(wait, rest, k - 1);
    }
}

} // verus!
