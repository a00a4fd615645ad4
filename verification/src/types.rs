//! Event categories, mouse buttons, tap locations and the small value types
//! that cross the native boundary, each with its exact numeric code.
use vstd::prelude::*;

verus! {

/// A virtual key code.
pub type CGKeyCode = u16;

/// The category of an input event.
///
/// The last two variants are signals: a tap's callback receives them when the
/// tap has been switched off. No factory produces an event of either kind,
/// but both have a code and convert like any other variant.
#[derive(Clone, Copy, Debug, PartialEq, Eq, Structural, Hash)]
pub enum CGEventType {
    Null,
    LeftMouseDown,
    LeftMouseUp,
    RightMouseDown,
    RightMouseUp,
    MouseMoved,
    LeftMouseDragged,
    RightMouseDragged,
    KeyDown,
    KeyUp,
    FlagsChanged,
    ScrollWheel,
    TabletPointer,
    TabletProximity,
    OtherMouseDown,
    OtherMouseUp,
    OtherMouseDragged,
    TapDisabledByTimeout,
    TapDisabledByUserInput,
}

impl CGEventType {
    /// The number that stands for this category at the native boundary.
    pub open spec fn spec_code(self) -> u32 {
        match self {
            CGEventType::Null => 0,
            CGEventType::LeftMouseDown => 1,
            CGEventType::LeftMouseUp => 2,
            CGEventType::RightMouseDown => 3,
            CGEventType::RightMouseUp => 4,
            CGEventType::MouseMoved => 5,
            CGEventType::LeftMouseDragged => 6,
            CGEventType::RightMouseDragged => 7,
            CGEventType::KeyDown => 10,
            CGEventType::KeyUp => 11,
            CGEventType::FlagsChanged => 12,
            CGEventType::ScrollWheel => 22,
            CGEventType::TabletPointer => 23,
            CGEventType::TabletProximity => 24,
            CGEventType::OtherMouseDown => 25,
            CGEventType::OtherMouseUp => 26,
            CGEventType::OtherMouseDragged => 27,
            CGEventType::TapDisabledByTimeout => 0xFFFF_FFFE,
            CGEventType::TapDisabledByUserInput => 0xFFFF_FFFF,
        }
    }

    /// The category that a code stands for, if it stands for one.
    pub open spec fn spec_from_code(code: u32) -> Option<CGEventType> {
        if code == 0 {
            Some(CGEventType::Null)
        } else if code == 1 {
            Some(CGEventType::LeftMouseDown)
        } else if code == 2 {
            Some(CGEventType::LeftMouseUp)
        } else if code == 3 {
            Some(CGEventType::RightMouseDown)
        } else if code == 4 {
            Some(CGEventType::RightMouseUp)
        } else if code == 5 {
            Some(CGEventType::MouseMoved)
        } else if code == 6 {
            Some(CGEventType::LeftMouseDragged)
        } else if code == 7 {
            Some(CGEventType::RightMouseDragged)
        } else if code == 10 {
            Some(CGEventType::KeyDown)
        } else if code == 11 {
            Some(CGEventType::KeyUp)
        } else if code == 12 {
            Some(CGEventType::FlagsChanged)
        } else if code == 22 {
            Some(CGEventType::ScrollWheel)
        } else if code == 23 {
            Some(CGEventType::TabletPointer)
        } else if code == 24 {
            Some(CGEventType::TabletProximity)
        } else if code == 25 {
            Some(CGEventType::OtherMouseDown)
        } else if code == 26 {
            Some(CGEventType::OtherMouseUp)
        } else if code == 27 {
            Some(CGEventType::OtherMouseDragged)
        } else if code == 0xFFFF_FFFE {
            Some(CGEventType::TapDisabledByTimeout)
        } else if code == 0xFFFF_FFFF {
            Some(CGEventType::TapDisabledByUserInput)
        } else {
            None
        }
    }

    /// Whether this is one of the two signals that a tap was switched off.
    pub open spec fn spec_is_tap_disabled(self) -> bool {
        self == CGEventType::TapDisabledByTimeout || self == CGEventType::TapDisabledByUserInput
    }

    /// The code of this category.
    pub fn code(self) -> (code: u32)
        ensures
            code == self.spec_code(),
    {
        match self {
            CGEventType::Null => 0,
            CGEventType::LeftMouseDown => 1,
            CGEventType::LeftMouseUp => 2,
            CGEventType::RightMouseDown => 3,
            CGEventType::RightMouseUp => 4,
            CGEventType::MouseMoved => 5,
            CGEventType::LeftMouseDragged => 6,
            CGEventType::RightMouseDragged => 7,
            CGEventType::KeyDown => 10,
            CGEventType::KeyUp => 11,
            CGEventType::FlagsChanged => 12,
            CGEventType::ScrollWheel => 22,
            CGEventType::TabletPointer => 23,
            CGEventType::TabletProximity => 24,
            CGEventType::OtherMouseDown => 25,
            CGEventType::OtherMouseUp => 26,
            CGEventType::OtherMouseDragged => 27,
            CGEventType::TapDisabledByTimeout => 0xFFFF_FFFE,
            CGEventType::TapDisabledByUserInput => 0xFFFF_FFFF,
        }
    }

    /// The category with the given code; `None` for a number that names none.
    pub fn from_code(code: u32) -> (found: Option<CGEventType>)
        ensures
            found == Self::spec_from_code(code),
            found matches Some(t) ==> t.spec_code() == code,
            found is None <==> forall|t: CGEventType| t.spec_code() != code,
    {
        match code {
            0 => Some(CGEventType::Null),
            1 => Some(CGEventType::LeftMouseDown),
            2 => Some(CGEventType::LeftMouseUp),
            3 => Some(CGEventType::RightMouseDown),
            4 => Some(CGEventType::RightMouseUp),
            5 => Some(CGEventType::MouseMoved),
            6 => Some(CGEventType::LeftMouseDragged),
            7 => Some(CGEventType::RightMouseDragged),
            10 => Some(CGEventType::KeyDown),
            11 => Some(CGEventType::KeyUp),
            12 => Some(CGEventType::FlagsChanged),
            22 => Some(CGEventType::ScrollWheel),
            23 => Some(CGEventType::TabletPointer),
            24 => Some(CGEventType::TabletProximity),
            25 => Some(CGEventType::OtherMouseDown),
            26 => Some(CGEventType::OtherMouseUp),
            27 => Some(CGEventType::OtherMouseDragged),
            0xFFFF_FFFE => Some(CGEventType::TapDisabledByTimeout),
            0xFFFF_FFFF => Some(CGEventType::TapDisabledByUserInput),
            _ => None,
        }
    }

    /// Whether this is one of the two signals that a tap was switched off.
    pub fn is_tap_disabled(self) -> (signal: bool)
        ensures
            signal == self.spec_is_tap_disabled(),
            signal <==> self.spec_code() >= 0xFFFF_FFFE,
    {
        match self {
            CGEventType::TapDisabledByTimeout => true,
            CGEventType::TapDisabledByUserInput => true,
            _ => false,
        }
    }

    /// Every category comes back from its own code, the two signals included.
    pub proof fn lemma_code_round_trip(t: CGEventType)
        ensures
            Self::spec_from_code(t.spec_code()) == Some(t),
    {
    }

    /// Two categories with one code are the same category.
    pub proof fn lemma_code_injective(a: CGEventType, b: CGEventType)
        requires
            a.spec_code() == b.spec_code(),
        ensures
            a == b,
    {
    }
}

/// A button of a one, two or three-button mouse.
#[derive(Clone, Copy, Debug, PartialEq, Eq, Structural, Hash)]
pub enum CGMouseButton {
    Left,
    Right,
    Center,
}

impl CGMouseButton {
    /// The number that stands for this button at the native boundary.
    pub open spec fn spec_code(self) -> u32 {
        match self {
            CGMouseButton::Left => 0,
            CGMouseButton::Right => 1,
            CGMouseButton::Center => 2,
        }
    }

    /// The button that a code stands for, if it stands for one.
    pub open spec fn spec_from_code(code: u32) -> Option<CGMouseButton> {
        if code == 0 {
            Some(CGMouseButton::Left)
        } else if code == 1 {
            Some(CGMouseButton::Right)
        } else if code == 2 {
            Some(CGMouseButton::Center)
        } else {
            None
        }
    }

    /// The code of this button.
    pub fn code(self) -> (code: u32)
        ensures
            code == self.spec_code(),
    {
        match self {
            CGMouseButton::Left => 0,
            CGMouseButton::Right => 1,
            CGMouseButton::Center => 2,
        }
    }

    /// The button with the given code; `None` for a number that names none.
    pub fn from_code(code: u32) -> (found: Option<CGMouseButton>)
        ensures
            found == Self::spec_from_code(code),
            found matches Some(b) ==> b.spec_code() == code,
            found is None <==> code > 2,
    {
        match code {
            0 => Some(CGMouseButton::Left),
            1 => Some(CGMouseButton::Right),
            2 => Some(CGMouseButton::Center),
            _ => None,
        }
    }

    /// Every button comes back from its own code.
    pub proof fn lemma_code_round_trip(b: CGMouseButton)
        ensures
            Self::spec_from_code(b.spec_code()) == Some(b),
    {
    }
}

/// A point of the event stream at which events can be posted: an event
/// posted at a location passes through the taps installed there.
#[derive(Clone, Copy, Debug, PartialEq, Eq, Structural, Hash)]
pub enum CGEventTapLocation {
    HID,
    Session,
    AnnotatedSession,
}

impl CGEventTapLocation {
    /// The number that stands for this location at the native boundary.
    pub open spec fn spec_code(self) -> u32 {
        match self {
            CGEventTapLocation::HID => 0,
            CGEventTapLocation::Session => 1,
            CGEventTapLocation::AnnotatedSession => 2,
        }
    }

    /// The location that a code stands for, if it stands for one.
    pub open spec fn spec_from_code(code: u32) -> Option<CGEventTapLocation> {
        if code == 0 {
            Some(CGEventTapLocation::HID)
        } else if code == 1 {
            Some(CGEventTapLocation::Session)
        } else if code == 2 {
            Some(CGEventTapLocation::AnnotatedSession)
        } else {
            None
        }
    }

    /// The code of this location.
    pub fn code(self) -> (code: u32)
        ensures
            code == self.spec_code(),
    {
        match self {
            CGEventTapLocation::HID => 0,
            CGEventTapLocation::Session => 1,
            CGEventTapLocation::AnnotatedSession => 2,
        }
    }

    /// The location with the given code; `None` for a number that names none.
    pub fn from_code(code: u32) -> (found: Option<CGEventTapLocation>)
        ensures
            found == Self::spec_from_code(code),
            found matches Some(l) ==> l.spec_code() == code,
            found is None <==> code > 2,
    {
        match code {
            0 => Some(CGEventTapLocation::HID),
            1 => Some(CGEventTapLocation::Session),
            2 => Some(CGEventTapLocation::AnnotatedSession),
            _ => None,
        }
    }

    /// Every location comes back from its own code.
    pub proof fn lemma_code_round_trip(l: CGEventTapLocation)
        ensures
            Self::spec_from_code(l.spec_code()) == Some(l),
    {
    }
}

/// A position in global display coordinates.
///
/// Each coordinate is kept as the bit pattern of a double-precision number,
/// so that a point passes through this crate unchanged, bit for bit.
#[derive(Clone, Copy, Debug, PartialEq, Eq, Structural, Hash)]
pub struct CGPoint {
    pub x_bits: u64,
    pub y_bits: u64,
}

impl CGPoint {
    /// The point with the given coordinate bit patterns.
    pub fn new(x_bits: u64, y_bits: u64) -> (point: CGPoint)
        ensures
            point == (CGPoint { x_bits, y_bits }),
    {
        CGPoint { x_bits, y_bits }
    }

    /// The origin: both coordinates are positive zero.
    pub fn zero() -> (point: CGPoint)
        ensures
            point == (CGPoint { x_bits: 0, y_bits: 0 }),
    {
        CGPoint { x_bits: 0, y_bits: 0 }
    }
}

/// The context that events are created from. It is made and owned elsewhere;
/// this crate only passes its identity on to the creation calls. The token 0
/// stands for the default source.
#[derive(Clone, Copy, Debug, PartialEq, Eq, Structural, Hash)]
pub struct CGEventSource {
    pub token: usize,
}

impl CGEventSource {
    /// The source with the given identity.
    pub fn from_token(token: usize) -> (source: CGEventSource)
        ensures
            source.token == token,
    {
        CGEventSource { token }
    }
}

} // verus!
