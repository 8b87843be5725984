//! GUI events as owned values, independent of the toolkit that produced them.
use vstd::prelude::*;

verus! {

/// Identifier of a toolkit window, as the window system reports it.
pub type WindowId = u64;

/// A pointer button.
#[derive(Clone, Copy, Debug, PartialEq, Eq, Structural)]
pub enum PointerButton {
    Left,
    Right,
    Middle,
    Other(u16),
}

/// The kind of a GUI event, without what it carries.
#[derive(Clone, Copy, Debug, PartialEq, Eq, Structural)]
pub enum EventKind {
    Resized,
    KeyboardInput,
    TextInput,
    ModifiersChanged,
    MouseButton,
    CursorMoved,
    FocusChanged,
    MouseWheel,
    CloseRequested,
    WindowSystemOther,
    WakeNotification,
}

/// A GUI event, captured by value.
///
/// Positions and scroll amounts are kept as the bit patterns of the
/// floating-point numbers that the window system reported, so that nothing is
/// lost on the way to the host's input layer.
#[derive(Clone, Copy, Debug, PartialEq, Eq, Structural)]
pub enum GuiEvent {
    /// The window's surface changed size, in physical pixels.
    Resized { window: WindowId, width: u32, height: u32 },
    /// A key went down or up.
    KeyboardInput { window: WindowId, scancode: u32, keycode: Option<u32>, pressed: bool, synthetic: bool },
    /// The window received a character of text.
    TextInput { window: WindowId, ch: char },
    /// The set of held modifier keys changed.
    ModifiersChanged { window: WindowId, modifiers: u32 },
    /// A pointer button went down or up.
    MouseButton { window: WindowId, button: PointerButton, pressed: bool },
    /// The pointer moved inside the window.
    CursorMoved { window: WindowId, x_bits: u64, y_bits: u64 },
    /// The window gained or lost the input focus.
    FocusChanged { window: WindowId, focused: bool },
    /// The wheel or touchpad scrolled; `in_pixels` tells the unit.
    MouseWheel { window: WindowId, in_pixels: bool, dx_bits: u64, dy_bits: u64 },
    /// The user asked to close the window.
    CloseRequested { window: WindowId },
    /// Anything else the window system reports.
    WindowSystemOther,
    /// A request, sent through a wake channel, to end the wait with this
    /// count of ready descriptors.
    WakeNotification(i32),
}

impl GuiEvent {
    /// The kind of the event.
    pub open spec fn spec_kind(self) -> EventKind {
        match self {
            GuiEvent::Resized { .. } => EventKind::Resized,
            GuiEvent::KeyboardInput { .. } => EventKind::KeyboardInput,
            GuiEvent::TextInput { .. } => EventKind::TextInput,
            GuiEvent::ModifiersChanged { .. } => EventKind::ModifiersChanged,
            GuiEvent::MouseButton { .. } => EventKind::MouseButton,
            GuiEvent::CursorMoved { .. } => EventKind::CursorMoved,
            GuiEvent::FocusChanged { .. } => EventKind::FocusChanged,
            GuiEvent::MouseWheel { .. } => EventKind::MouseWheel,
            GuiEvent::CloseRequested { .. } => EventKind::CloseRequested,
            GuiEvent::WindowSystemOther => EventKind::WindowSystemOther,
            GuiEvent::WakeNotification(_) => EventKind::WakeNotification,
        }
    }

    /// The window that the event came from, where it came from one.
    pub open spec fn spec_window(self) -> Option<WindowId> {
        match self {
            GuiEvent::Resized { window, .. } => Some(window),
            GuiEvent::KeyboardInput { window, .. } => Some(window),
            GuiEvent::TextInput { window, .. } => Some(window),
            GuiEvent::ModifiersChanged { window, .. } => Some(window),
            GuiEvent::MouseButton { window, .. } => Some(window),
            GuiEvent::CursorMoved { window, .. } => Some(window),
            GuiEvent::FocusChanged { window, .. } => Some(window),
            GuiEvent::MouseWheel { window, .. } => Some(window),
            GuiEvent::CloseRequested { window } => Some(window),
            GuiEvent::WindowSystemOther => None,
            GuiEvent::WakeNotification(_) => None,
        }
    }

    /// Whether the host's input layer wants to see the event: the window
    /// events that stand for input or for a change the host must redraw for.
    pub open spec fn spec_is_relevant(self) -> bool {
        self.spec_kind() != EventKind::WindowSystemOther && self.spec_kind()
            != EventKind::WakeNotification
    }

    #[verifier::when_used_as_spec(spec_kind)]
    pub fn kind(self) -> (k: EventKind)
        ensures
            k == self.spec_kind(),
    {
        match self {
            GuiEvent::Resized { .. } => EventKind::Resized,
            GuiEvent::KeyboardInput { .. } => EventKind::KeyboardInput,
            GuiEvent::TextInput { .. } => EventKind::TextInput,
            GuiEvent::ModifiersChanged { .. } => EventKind::ModifiersChanged,
            GuiEvent::MouseButton { .. } => EventKind::MouseButton,
            GuiEvent::CursorMoved { .. } => EventKind::CursorMoved,
            GuiEvent::FocusChanged { .. } => EventKind::FocusChanged,
            GuiEvent::MouseWheel { .. } => EventKind::MouseWheel,
            GuiEvent::CloseRequested { .. } => EventKind::CloseRequested,
            GuiEvent::WindowSystemOther => EventKind::WindowSystemOther,
            GuiEvent::WakeNotification(_) => EventKind::WakeNotification,
        }
    }

    #[verifier::when_used_as_spec(spec_window)]
    pub fn window(self) -> (w: Option<WindowId>)
        ensures
            w == self.spec_window(),
    {
        match self {
            GuiEvent::Resized { window, .. } => Some(window),
            GuiEvent::KeyboardInput { window, .. } => Some(window),
            GuiEvent::TextInput { window, .. } => Some(window),
            GuiEvent::ModifiersChanged { window, .. } => Some(window),
            GuiEvent::MouseButton { window, .. } => Some(window),
            GuiEvent::CursorMoved { window, .. } => Some(window),
            GuiEvent::FocusChanged { window, .. } => Some(window),
            GuiEvent::MouseWheel { window, .. } => Some(window),
            GuiEvent::CloseRequested { window } => Some(window),
            GuiEvent::WindowSystemOther => None,
            GuiEvent::WakeNotification(_) => None,
        }
    }

    #[verifier::when_used_as_spec(spec_is_relevant)]
    pub fn is_relevant(self) -> (r: bool)
        ensures
            r == self.spec_is_relevant(),
            r ==> self.spec_window() is Some,
    {
        match self {
            GuiEvent::WindowSystemOther => false,
            GuiEvent::WakeNotification(_) => false,
            _ => true,
        }
    }
}

} // verus!
