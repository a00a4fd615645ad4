//! The native boundary as data: each call that a handle sends to the native
//! layer, with its arguments as they cross the boundary, and each answer that
//! comes back.
use vstd::prelude::*;

verus! {

/// One call into the native layer, ready to be performed.
///
/// Resources and sources are named by their identity tokens, categories,
/// buttons and tap locations by their codes, flags by their mask and
/// coordinates by their bit patterns.
#[derive(Debug)]
pub enum NativeCall {
    /// Ask for the type identifier of event resources.
    GetTypeId,
    /// Create an event of the null category.
    Create { source: usize },
    /// Create a key-down (`keydown`) or key-up event for a virtual key.
    CreateKeyboardEvent { source: usize, keycode: u16, keydown: bool },
    /// Create a mouse event of category `mouse_type` at a position.
    CreateMouseEvent { source: usize, mouse_type: u32, x_bits: u64, y_bits: u64, button: u32 },
    /// Post an event ahead of the taps at a location.
    Post { tap: u32, event: usize },
    /// Post an event to one process.
    PostToPid { pid: i32, event: usize },
    /// Replace the flags of an event.
    SetFlags { event: usize, flags: u64 },
    /// Read the flags of an event.
    GetFlags { event: usize },
    /// Read the position of an event.
    GetLocation { event: usize },
    /// Replace the category of an event.
    SetType { event: usize, event_type: u32 },
    /// Read the category of an event.
    GetType { event: usize },
    /// Replace the text of a keyboard event by `length` code units.
    KeyboardSetUnicodeString { event: usize, length: u64, string: Vec<u16> },
    /// Take one more reference to a resource.
    Retain { event: usize },
    /// Give one reference to a resource back.
    Release { event: usize },
}

/// What a [`NativeCall`] is, with its text as a sequence.
pub enum CallView {
    GetTypeId,
    Create { source: usize },
    CreateKeyboardEvent { source: usize, keycode: u16, keydown: bool },
    CreateMouseEvent { source: usize, mouse_type: u32, x_bits: u64, y_bits: u64, button: u32 },
    Post { tap: u32, event: usize },
    PostToPid { pid: i32, event: usize },
    SetFlags { event: usize, flags: u64 },
    GetFlags { event: usize },
    GetLocation { event: usize },
    SetType { event: usize, event_type: u32 },
    GetType { event: usize },
    KeyboardSetUnicodeString { event: usize, length: u64, string: Seq<u16> },
    Retain { event: usize },
    Release { event: usize },
}

impl View for NativeCall {
    type V = CallView;

    open spec fn view(&self) -> CallView {
        match *self {
            NativeCall::GetTypeId => CallView::GetTypeId,
            NativeCall::Create { source } => CallView::Create { source },
            NativeCall::CreateKeyboardEvent { source, keycode, keydown } =>
                CallView::CreateKeyboardEvent { source, keycode, keydown },
            NativeCall::CreateMouseEvent { source, mouse_type, x_bits, y_bits, button } =>
                CallView::CreateMouseEvent { source, mouse_type, x_bits, y_bits, button },
            NativeCall::Post { tap, event } => CallView::Post { tap, event },
            NativeCall::PostToPid { pid, event } => CallView::PostToPid { pid, event },
            NativeCall::SetFlags { event, flags } => CallView::SetFlags { event, flags },
            NativeCall::GetFlags { event } => CallView::GetFlags { event },
            NativeCall::GetLocation { event } => CallView::GetLocation { event },
            NativeCall::SetType { event, event_type } => CallView::SetType { event, event_type },
            NativeCall::GetType { event } => CallView::GetType { event },
            NativeCall::KeyboardSetUnicodeString { event, length, string } =>
                CallView::KeyboardSetUnicodeString { event, length, string: string@ },
            NativeCall::Retain { event } => CallView::Retain { event },
            NativeCall::Release { event } => CallView::Release { event },
        }
    }
}

impl CallView {
    /// The resource that the call is about: `None` for the calls that name
    /// none (the type identifier and the three creations).
    pub open spec fn target(self) -> Option<usize> {
        match self {
            CallView::GetTypeId => None,
            CallView::Create { .. } => None,
            CallView::CreateKeyboardEvent { .. } => None,
            CallView::CreateMouseEvent { .. } => None,
            CallView::Post { event, .. } => Some(event),
            CallView::PostToPid { event, .. } => Some(event),
            CallView::SetFlags { event, .. } => Some(event),
            CallView::GetFlags { event } => Some(event),
            CallView::GetLocation { event } => Some(event),
            CallView::SetType { event, .. } => Some(event),
            CallView::GetType { event } => Some(event),
            CallView::KeyboardSetUnicodeString { event, .. } => Some(event),
            CallView::Retain { event } => Some(event),
            CallView::Release { event } => Some(event),
        }
    }
}

impl NativeCall {
    /// The resource that the call is about, if it names one.
    pub fn target(&self) -> (event: Option<usize>)
        ensures
            event == self@.target(),
    {
        match self {
            NativeCall::GetTypeId => None,
            NativeCall::Create { .. } => None,
            NativeCall::CreateKeyboardEvent { .. } => None,
            NativeCall::CreateMouseEvent { .. } => None,
            NativeCall::Post { event, .. } => Some(*event),
            NativeCall::PostToPid { event, .. } => Some(*event),
            NativeCall::SetFlags { event, .. } => Some(*event),
            NativeCall::GetFlags { event } => Some(*event),
            NativeCall::GetLocation { event } => Some(*event),
            NativeCall::SetType { event, .. } => Some(*event),
            NativeCall::GetType { event } => Some(*event),
            NativeCall::KeyboardSetUnicodeString { event, .. } => Some(*event),
            NativeCall::Retain { event } => Some(*event),
            NativeCall::Release { event } => Some(*event),
        }
    }
}

/// What the native layer answers to a call.
#[derive(Clone, Copy, Debug, PartialEq, Eq, Structural, Hash)]
pub enum NativeReply {
    /// The call returns nothing.
    Done,
    /// A resource token; 0 where the native layer produced no resource.
    Resource(usize),
    /// A flags mask.
    Flags(u64),
    /// The code of a category.
    TypeCode(u32),
    /// A position, as coordinate bit patterns.
    Location { x_bits: u64, y_bits: u64 },
    /// A type identifier.
    TypeId(usize),
}

} // verus!
