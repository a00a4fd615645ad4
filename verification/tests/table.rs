use cgevent::error::EventError;
use cgevent::event::CGEvent;
use cgevent::flags::{CGEventFlags, FLAG_CONTROL, FLAG_SHIFT};
use cgevent::native::{NativeCall, NativeReply};
use cgevent::table::{EventTable, PostTarget, Posted};
use cgevent::types::{
    CGEventSource, CGEventTapLocation, CGEventType, CGMouseButton, CGPoint,
};

const TYPE_ID: usize = 0x1CE;

fn source() -> CGEventSource {
    CGEventSource::from_token(0)
}

fn table(capacity: usize) -> EventTable {
    EventTable::new(capacity, TYPE_ID, false)
}

fn null_event(t: &mut EventTable) -> CGEvent {
    CGEvent::from_reply(t.perform(CGEvent::new(&source()))).unwrap()
}

fn flags_of(t: &mut EventTable, e: &CGEvent) -> CGEventFlags {
    CGEvent::flags_from_reply(t.perform(e.get_flags())).unwrap()
}

fn type_of(t: &mut EventTable, e: &CGEvent) -> Option<CGEventType> {
    CGEvent::type_from_reply(t.perform(e.get_type()))
}

fn token_of(e: &CGEvent) -> usize {
    e.get_flags().target().unwrap()
}

#[test]
fn a_new_table_is_empty() {
    let t = table(4);
    assert_eq!(t.created(), 0);
    assert_eq!(t.capacity(), 4);
    assert!(!t.supports_pid_posting());
    assert!(t.posted().is_empty());
    assert!(!t.is_live(0));
    assert!(!t.is_live(1));
    assert_eq!(t.reference_count(1), 0);
    assert!(t.text(1).is_none());
}

#[test]
fn type_id_is_the_same_for_every_handle() {
    let mut t = table(4);
    let before = CGEvent::type_id_from_reply(t.perform(CGEvent::type_id()));
    assert_eq!(before, Some(TYPE_ID));
    let a = null_event(&mut t);
    let _ = t.perform(a.set_type(CGEventType::KeyDown));
    let b = null_event(&mut t);
    let _ = t.perform(b.release());
    assert_eq!(CGEvent::type_id_from_reply(t.perform(CGEvent::type_id())), Some(TYPE_ID));
}

#[test]
fn a_null_event_starts_neutral() {
    let mut t = table(4);
    let e = null_event(&mut t);
    let token = token_of(&e);
    assert_eq!(token, 1);
    assert!(t.is_live(token));
    assert_eq!(t.reference_count(token), 1);
    assert_eq!(type_of(&mut t, &e), Some(CGEventType::Null));
    assert!(flags_of(&mut t, &e).is_empty());
    assert_eq!(CGEvent::location_from_reply(t.perform(e.location())), Some(CGPoint::zero()));
    assert_eq!(t.text(token), Some(&Vec::new()));
}

#[test]
fn keyboard_events_are_key_down_or_key_up() {
    let mut t = table(4);
    let down =
        CGEvent::from_reply(t.perform(CGEvent::new_keyboard_event(&source(), 0x31, true))).unwrap();
    let up =
        CGEvent::from_reply(t.perform(CGEvent::new_keyboard_event(&source(), 0x31, false))).unwrap();
    assert_eq!(type_of(&mut t, &down), Some(CGEventType::KeyDown));
    assert_eq!(type_of(&mut t, &up), Some(CGEventType::KeyUp));
    assert_ne!(token_of(&down), token_of(&up));
}

#[test]
fn other_mouse_down_with_every_button() {
    let p = CGPoint::new(640.0f64.to_bits(), 480.0f64.to_bits());
    for button in [CGMouseButton::Left, CGMouseButton::Right, CGMouseButton::Center] {
        let mut t = table(1);
        let call = CGEvent::new_mouse_event(&source(), CGEventType::OtherMouseDown, p, button);
        let e = CGEvent::from_reply(t.perform(call)).unwrap();
        assert_eq!(type_of(&mut t, &e), Some(CGEventType::OtherMouseDown));
        assert_eq!(CGEvent::location_from_reply(t.perform(e.location())), Some(p));
    }
}

#[test]
fn flags_round_trip_for_any_bits() {
    let mut t = table(1);
    let e = null_event(&mut t);
    for bits in [0u64, 1, FLAG_SHIFT, FLAG_SHIFT | FLAG_CONTROL, 0x20104, 1 << 63, u64::MAX] {
        let reply = t.perform(e.set_flags(CGEventFlags::from_bits(bits)));
        assert_eq!(reply, NativeReply::Done);
        assert_eq!(flags_of(&mut t, &e).bits(), bits);
    }
}

#[test]
fn type_round_trips_for_every_variant() {
    let all = [
        CGEventType::Null,
        CGEventType::LeftMouseDown,
        CGEventType::LeftMouseUp,
        CGEventType::RightMouseDown,
        CGEventType::RightMouseUp,
        CGEventType::MouseMoved,
        CGEventType::LeftMouseDragged,
        CGEventType::RightMouseDragged,
        CGEventType::KeyDown,
        CGEventType::KeyUp,
        CGEventType::FlagsChanged,
        CGEventType::ScrollWheel,
        CGEventType::TabletPointer,
        CGEventType::TabletProximity,
        CGEventType::OtherMouseDown,
        CGEventType::OtherMouseUp,
        CGEventType::OtherMouseDragged,
        CGEventType::TapDisabledByTimeout,
        CGEventType::TapDisabledByUserInput,
    ];
    let mut t = table(1);
    let e = null_event(&mut t);
    for ty in all {
        let _ = t.perform(e.set_type(ty));
        assert_eq!(type_of(&mut t, &e), Some(ty));
    }
}

#[test]
fn setting_the_type_keeps_the_text() {
    let mut t = table(1);
    let e = CGEvent::from_reply(t.perform(CGEvent::new_keyboard_event(&source(), 0, true))).unwrap();
    let token = token_of(&e);
    let _ = t.perform(e.set_string("ok"));
    let _ = t.perform(e.set_flags(CGEventFlags::from_bits(FLAG_SHIFT)));
    let _ = t.perform(e.set_type(CGEventType::MouseMoved));
    assert_eq!(type_of(&mut t, &e), Some(CGEventType::MouseMoved));
    assert_eq!(t.text(token), Some(&vec![0x6F, 0x6B]));
    assert_eq!(flags_of(&mut t, &e).bits(), FLAG_SHIFT);
}

#[test]
fn a_clone_outlives_the_first_owner() {
    let mut t = table(1);
    let first = null_event(&mut t);
    let token = token_of(&first);
    let _ = t.perform(first.set_flags(CGEventFlags::from_bits(FLAG_CONTROL)));
    let _ = t.perform(first.set_type(CGEventType::FlagsChanged));

    let clone = CGEvent::from_reply(t.perform(first.retain())).unwrap();
    assert_eq!(token_of(&clone), token);
    assert_eq!(t.reference_count(token), 2);
    assert_eq!(t.created(), 1);

    let _ = t.perform(first.release());
    assert!(t.is_live(token));
    assert_eq!(t.reference_count(token), 1);
    assert_eq!(flags_of(&mut t, &clone).bits(), FLAG_CONTROL);
    assert_eq!(type_of(&mut t, &clone), Some(CGEventType::FlagsChanged));

    let _ = t.perform(clone.set_flags(CGEventFlags::from_bits(FLAG_SHIFT)));
    assert_eq!(flags_of(&mut t, &clone).bits(), FLAG_SHIFT);
}

#[test]
fn owners_see_each_others_changes() {
    let mut t = table(1);
    let a = null_event(&mut t);
    let b = CGEvent::from_reply(t.perform(a.retain())).unwrap();
    let _ = t.perform(a.set_flags(CGEventFlags::from_bits(7)));
    assert_eq!(flags_of(&mut t, &b).bits(), 7);
    let _ = t.perform(b.set_type(CGEventType::ScrollWheel));
    assert_eq!(type_of(&mut t, &a), Some(CGEventType::ScrollWheel));
}

#[test]
fn the_last_release_frees_the_event_once() {
    let mut t = table(2);
    let a = null_event(&mut t);
    let token = token_of(&a);
    let b = CGEvent::from_reply(t.perform(a.retain())).unwrap();
    let _ = t.perform(a.release());
    assert!(t.is_live(token));
    let _ = t.perform(b.release());
    assert!(!t.is_live(token));
    assert_eq!(t.reference_count(token), 0);
    assert!(t.text(token).is_none());

    // A further release of the freed token changes nothing.
    assert_eq!(t.perform(NativeCall::Release { event: token }), NativeReply::Done);
    assert!(!t.is_live(token));

    // The next event gets a token of its own.
    let c = null_event(&mut t);
    assert_eq!(token_of(&c), 2);
    assert!(!t.is_live(token));
}

#[test]
fn calls_on_a_freed_event_answer_zero() {
    let mut t = table(1);
    let e = CGEvent::from_reply(t.perform(CGEvent::new_mouse_event(
        &source(),
        CGEventType::MouseMoved,
        CGPoint::new(5, 6),
        CGMouseButton::Left,
    )))
    .unwrap();
    let token = token_of(&e);
    let _ = t.perform(e.set_flags(CGEventFlags::from_bits(9)));
    let _ = t.perform(e.release());
    assert_eq!(t.perform(NativeCall::GetFlags { event: token }), NativeReply::Flags(0));
    assert_eq!(t.perform(NativeCall::GetType { event: token }), NativeReply::TypeCode(0));
    assert_eq!(
        t.perform(NativeCall::GetLocation { event: token }),
        NativeReply::Location { x_bits: 0, y_bits: 0 }
    );
    assert_eq!(t.perform(NativeCall::Retain { event: token }), NativeReply::Resource(0));
    assert_eq!(t.perform(NativeCall::SetFlags { event: token, flags: 1 }), NativeReply::Done);
    assert!(!t.is_live(token));
    assert_eq!(t.perform(NativeCall::Post { tap: 0, event: token }), NativeReply::Done);
    assert!(t.posted().is_empty());
}

#[test]
fn creation_fails_when_the_table_is_full() {
    let mut empty = table(0);
    let made = CGEvent::from_reply(empty.perform(CGEvent::new(&source())));
    assert_eq!(made.unwrap_err(), EventError::AllocationFailure);
    assert_eq!(empty.created(), 0);

    let mut t = table(1);
    let only = null_event(&mut t);
    let p = CGPoint::zero();
    for call in [
        CGEvent::new(&source()),
        CGEvent::new_keyboard_event(&source(), 1, true),
        CGEvent::new_mouse_event(&source(), CGEventType::LeftMouseDown, p, CGMouseButton::Left),
    ] {
        let reply = t.perform(call);
        assert_eq!(reply, NativeReply::Resource(0));
        assert_eq!(CGEvent::from_reply(reply).unwrap_err(), EventError::AllocationFailure);
    }
    assert_eq!(t.created(), 1);
    assert!(t.is_live(token_of(&only)));
    assert!(!t.is_live(2));
}

#[test]
fn text_of_every_length_is_stored() {
    let mut t = table(1);
    let e = null_event(&mut t);
    let token = token_of(&e);
    let units: Vec<u16> = (0..4096u32).map(|i| (i * 7 % 0x10000) as u16).collect();
    for n in [0usize, 1, 2, 17, 1024, 4095, 4096] {
        let reply = t.perform(e.set_string_from_utf16_unchecked(&units[..n]));
        assert_eq!(reply, NativeReply::Done);
        assert_eq!(&t.text(token).unwrap()[..], &units[..n]);
    }
}

#[test]
fn text_is_cut_to_the_length_of_the_call() {
    let mut t = table(1);
    let e = null_event(&mut t);
    let token = token_of(&e);
    let call = NativeCall::KeyboardSetUnicodeString { event: token, length: 2, string: vec![1, 2, 3] };
    let _ = t.perform(call);
    assert_eq!(t.text(token), Some(&vec![1, 2]));
    let call = NativeCall::KeyboardSetUnicodeString { event: token, length: 9, string: vec![4, 5] };
    let _ = t.perform(call);
    assert_eq!(t.text(token), Some(&vec![4, 5]));
}

#[test]
fn set_string_stores_the_encoded_text() {
    let mut t = table(1);
    let e = null_event(&mut t);
    let _ = t.perform(e.set_string("\u{e9}\u{1F600}"));
    assert_eq!(t.text(token_of(&e)), Some(&vec![0x00E9, 0xD83D, 0xDE00]));
}

#[test]
fn posts_are_logged_in_order() {
    let mut t = table(2);
    let a = null_event(&mut t);
    let b = null_event(&mut t);
    let _ = t.perform(a.post(CGEventTapLocation::HID));
    let _ = t.perform(b.post(CGEventTapLocation::AnnotatedSession));
    let _ = t.perform(a.post(CGEventTapLocation::Session));
    assert_eq!(
        t.posted(),
        &vec![
            Posted { target: PostTarget::Tap(0), event: 1 },
            Posted { target: PostTarget::Tap(2), event: 2 },
            Posted { target: PostTarget::Tap(1), event: 1 },
        ]
    );
}

#[test]
fn posting_to_a_process_is_refused_without_the_capability() {
    let mut t = EventTable::new(1, TYPE_ID, false);
    let e = null_event(&mut t);
    let call = e.post_to_pid(42, t.supports_pid_posting());
    assert!(matches!(call, Err(EventError::UnsupportedCapability)));
    // A call that is performed all the same is not turned into a plain post.
    let _ = t.perform(NativeCall::PostToPid { pid: 42, event: token_of(&e) });
    assert!(t.posted().is_empty());
}

#[test]
fn posting_to_a_process_with_the_capability() {
    let mut t = EventTable::new(1, TYPE_ID, true);
    let e = null_event(&mut t);
    let call = e.post_to_pid(42, t.supports_pid_posting()).unwrap();
    assert_eq!(t.perform(call), NativeReply::Done);
    assert_eq!(t.posted(), &vec![Posted { target: PostTarget::Process(42), event: 1 }]);
}

#[test]
fn the_source_can_be_used_again() {
    let mut t = table(3);
    let s = CGEventSource::from_token(0xABCD);
    let a = CGEvent::from_reply(t.perform(CGEvent::new(&s))).unwrap();
    let b = CGEvent::from_reply(t.perform(CGEvent::new_keyboard_event(&s, 4, true))).unwrap();
    let c = CGEvent::from_reply(t.perform(CGEvent::new(&s))).unwrap();
    assert_eq!((token_of(&a), token_of(&b), token_of(&c)), (1, 2, 3));
    assert_eq!(s.token, 0xABCD);
}
