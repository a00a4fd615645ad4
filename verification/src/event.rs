//! The event handle: one owned reference to a native event resource.
//!
//! A handle never performs a call itself. Each operation returns the
//! [`NativeCall`] that carries it out, and each answer is read back with one
//! of the `*_from_reply` functions. Whoever performs the calls owes the native
//! layer one performed [`CGEvent::release`] for every handle.
use vstd::prelude::*;
use vstd::slice::slice_to_vec;
use crate::error::EventError;
use crate::flags::CGEventFlags;
use crate::native::{CallView, NativeCall, NativeReply};
use crate::types::{CGEventSource, CGEventTapLocation, CGEventType, CGKeyCode, CGMouseButton, CGPoint};
use crate::utf16::{encode_utf16, utf16_encode};

verus! {

/// An owner of one reference to a native event resource.
///
/// The resource token of a handle is never 0: where the native layer
/// produced no resource, no handle exists. A handle cannot be copied; a
/// second owner of the same resource comes from [`CGEvent::retain`].
#[derive(Debug)]
pub struct CGEvent {
    resource: usize,
}

impl CGEvent {
    #[verifier::type_invariant]
    spec fn backed(self) -> bool {
        self.resource != 0
    }

    /// The identity of the resource that this handle refers to.
    pub closed spec fn token(&self) -> usize {
        self.resource
    }

    /// The call that asks for the type identifier of event resources.
    pub fn type_id() -> (call: NativeCall)
        ensures
            call@ == CallView::GetTypeId,
    {
        NativeCall::GetTypeId
    }

    /// The type identifier in the answer to [`CGEvent::type_id`]: `None`
    /// where the answer holds none.
    pub fn type_id_from_reply(reply: NativeReply) -> (id: Option<usize>)
        ensures
            id == (match reply {
                NativeReply::TypeId(t) => Some(t),
                _ => None,
            }),
    {
        match reply {
            NativeReply::TypeId(t) => Some(t),
            _ => None,
        }
    }

    /// The call that creates an event of the null category from `source`.
    pub fn new(source: &CGEventSource) -> (call: NativeCall)
        ensures
            call@ == (CallView::Create { source: source.token }),
    {
        NativeCall::Create { source: source.token }
    }

    /// The call that creates a key-down event (`keydown`) or a key-up event
    /// for the virtual key `keycode`.
    pub fn new_keyboard_event(source: &CGEventSource, keycode: CGKeyCode, keydown: bool) -> (call:
        NativeCall)
        ensures
            call@ == (CallView::CreateKeyboardEvent { source: source.token, keycode, keydown }),
    {
        NativeCall::CreateKeyboardEvent { source: source.token, keycode, keydown }
    }

    /// The call that creates a mouse event of category `mouse_type` at
    /// `mouse_cursor_position`. The button is passed on as it is, whatever
    /// the category.
    pub fn new_mouse_event(
        source: &CGEventSource,
        mouse_type: CGEventType,
        mouse_cursor_position: CGPoint,
        mouse_button: CGMouseButton,
    ) -> (call: NativeCall)
        ensures
            call@ == (CallView::CreateMouseEvent {
                source: source.token,
                mouse_type: mouse_type.spec_code(),
                x_bits: mouse_cursor_position.x_bits,
                y_bits: mouse_cursor_position.y_bits,
                button: mouse_button.spec_code(),
            }),
    {
        NativeCall::CreateMouseEvent {
            source: source.token,
            mouse_type: mouse_type.code(),
            x_bits: mouse_cursor_position.x_bits,
            y_bits: mouse_cursor_position.y_bits,
            button: mouse_button.code(),
        }
    }

    /// The handle for the answer to a creation call or to
    /// [`CGEvent::retain`].
    ///
    /// There is a handle exactly where the answer holds a resource token
    /// other than 0, and it refers to that resource. Every other answer is an
    /// allocation failure.
    pub fn from_reply(reply: NativeReply) -> (made: Result<CGEvent, EventError>)
        ensures
            made is Ok <==> (reply matches NativeReply::Resource(t) && t != 0),
            made matches Ok(event) ==> reply == NativeReply::Resource(event.token()),
            made matches Err(e) ==> e == EventError::AllocationFailure,
    {
        match reply {
            NativeReply::Resource(t) => {
                if t != 0 {
                    Ok(CGEvent { resource: t })
                } else {
                    Err(EventError::AllocationFailure)
                }
            },
            _ => Err(EventError::AllocationFailure),
        }
    }

    /// The call that posts this event ahead of the taps at `tap_location`.
    pub fn post(&self, tap_location: CGEventTapLocation) -> (call: NativeCall)
        ensures
            call@ == (CallView::Post { tap: tap_location.spec_code(), event: self.token() }),
            self.token() != 0,
    {
        proof {
            use_type_invariant(self);
        }
        NativeCall::Post { tap: tap_location.code(), event: self.resource }
    }

    /// The call that posts this event to the process `pid`, where the
    /// platform has such a call (`supported`); where it has none, the error
    /// says so, and nothing is posted in its place.
    pub fn post_to_pid(&self, pid: i32, supported: bool) -> (call: Result<NativeCall, EventError>)
        ensures
            supported ==> call is Ok && call->Ok_0@ == (CallView::PostToPid {
                pid,
                event: self.token(),
            }),
            !supported ==> call is Err && call->Err_0 == EventError::UnsupportedCapability,
            self.token() != 0,
    {
        proof {
            use_type_invariant(self);
        }
        if supported {
            Ok(NativeCall::PostToPid { pid, event: self.resource })
        } else {
            Err(EventError::UnsupportedCapability)
        }
    }

    /// The call that reads the position of this event.
    pub fn location(&self) -> (call: NativeCall)
        ensures
            call@ == (CallView::GetLocation { event: self.token() }),
            self.token() != 0,
    {
        proof {
            use_type_invariant(self);
        }
        NativeCall::GetLocation { event: self.resource }
    }

    /// The position in the answer to [`CGEvent::location`]: `None` where the
    /// answer holds none.
    pub fn location_from_reply(reply: NativeReply) -> (point: Option<CGPoint>)
        ensures
            point == (match reply {
                NativeReply::Location { x_bits, y_bits } => Some(CGPoint { x_bits, y_bits }),
                _ => None,
            }),
    {
        match reply {
            NativeReply::Location { x_bits, y_bits } => Some(CGPoint { x_bits, y_bits }),
            _ => None,
        }
    }

    /// The call that replaces the flags of this event by `flags`, all 64 bits
    /// of them.
    pub fn set_flags(&self, flags: CGEventFlags) -> (call: NativeCall)
        ensures
            call@ == (CallView::SetFlags { event: self.token(), flags: flags@ }),
            self.token() != 0,
    {
        proof {
            use_type_invariant(self);
        }
        NativeCall::SetFlags { event: self.resource, flags: flags.bits() }
    }

    /// The call that reads the flags of this event.
    pub fn get_flags(&self) -> (call: NativeCall)
        ensures
            call@ == (CallView::GetFlags { event: self.token() }),
            self.token() != 0,
    {
        proof {
            use_type_invariant(self);
        }
        NativeCall::GetFlags { event: self.resource }
    }

    /// The flags in the answer to [`CGEvent::get_flags`], whatever bits they
    /// hold: `None` where the answer holds no flags.
    pub fn flags_from_reply(reply: NativeReply) -> (flags: Option<CGEventFlags>)
        ensures
            flags is Some <==> reply is Flags,
            flags matches Some(f) ==> reply == NativeReply::Flags(f@),
    {
        match reply {
            NativeReply::Flags(bits) => Some(CGEventFlags::from_bits(bits)),
            _ => None,
        }
    }

    /// The call that replaces the category of this event by `event_type`.
    /// Nothing else of the event is named in it.
    pub fn set_type(&self, event_type: CGEventType) -> (call: NativeCall)
        ensures
            call@ == (CallView::SetType {
                event: self.token(),
                event_type: event_type.spec_code(),
            }),
            self.token() != 0,
    {
        proof {
            use_type_invariant(self);
        }
        NativeCall::SetType { event: self.resource, event_type: event_type.code() }
    }

    /// The call that reads the category of this event.
    pub fn get_type(&self) -> (call: NativeCall)
        ensures
            call@ == (CallView::GetType { event: self.token() }),
            self.token() != 0,
    {
        proof {
            use_type_invariant(self);
        }
        NativeCall::GetType { event: self.resource }
    }

    /// The category in the answer to [`CGEvent::get_type`]: `None` where the
    /// answer holds no code, or a code that names no category.
    pub fn type_from_reply(reply: NativeReply) -> (event_type: Option<CGEventType>)
        ensures
            event_type == (match reply {
                NativeReply::TypeCode(code) => CGEventType::spec_from_code(code),
                _ => None,
            }),
            event_type matches Some(t) ==> reply == NativeReply::TypeCode(t.spec_code()),
    {
        match reply {
            NativeReply::TypeCode(code) => CGEventType::from_code(code),
            _ => None,
        }
    }

    /// The call that makes the code units of `buf` the text of this keyboard
    /// event, in place of the text that the key code stands for. The units
    /// are passed on as they are: nothing checks that they are UTF-16.
    pub fn set_string_from_utf16_unchecked(&self, buf: &[u16]) -> (call: NativeCall)
        ensures
            call@ == (CallView::KeyboardSetUnicodeString {
                event: self.token(),
                length: buf@.len() as u64,
                string: buf@,
            }),
            self.token() != 0,
    {
        proof {
            use_type_invariant(self);
        }
        NativeCall::KeyboardSetUnicodeString {
            event: self.resource,
            length: buf.len() as u64,
            string: slice_to_vec(buf),
        }
    }

    /// The call that makes `string`, encoded as UTF-16, the text of this
    /// keyboard event.
    pub fn set_string(&self, string: &str) -> (call: NativeCall)
        ensures
            call@ == (CallView::KeyboardSetUnicodeString {
                event: self.token(),
                length: utf16_encode(string@).len() as u64,
                string: utf16_encode(string@),
            }),
            self.token() != 0,
    {
        let buf: Vec<u16> = encode_utf16(string);
        self.set_string_from_utf16_unchecked(buf.as_slice())
    }

    /// The call that takes one more reference to the resource of this
    /// handle. The answer, read with [`CGEvent::from_reply`], is the handle
    /// of the new owner.
    pub fn retain(&self) -> (call: NativeCall)
        ensures
            call@ == (CallView::Retain { event: self.token() }),
            self.token() != 0,
    {
        proof {
            use_type_invariant(self);
        }
        NativeCall::Retain { event: self.resource }
    }

    /// Ends this handle, and returns the call that gives its reference back.
    pub fn release(self) -> (call: NativeCall)
        ensures
            call@ == (CallView::Release { event: self.token() }),
            self.token() != 0,
    {
        proof {
            use_type_invariant(&self);
        }
        NativeCall::Release { event: self.resource }
    }
}

} // verus!
