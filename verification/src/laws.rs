//! What holds of every table, every event and every value: the laws that
//! callers of the handle rely on, proved from the step function of the table.
use vstd::prelude::*;
use crate::native::{CallView, NativeReply};
use crate::table::TableView;
use crate::types::{CGEventType, CGMouseButton};

verus! {

/// The type identifier is the same in every state: no call changes what the
/// table answers when it is asked for it.
pub proof fn lemma_type_id_is_fixed(table: TableView, call: CallView)
    ensures
        table.step(CallView::GetTypeId).1 == NativeReply::TypeId(table.type_id),
        table.step(call).0.step(CallView::GetTypeId).1 == table.step(CallView::GetTypeId).1,
{
}

/// Flags that were set are the flags that are read, for every one of the
/// 2^64 masks: no bit is checked, dropped or added.
pub proof fn lemma_flags_round_trip(table: TableView, event: usize, flags: u64)
    requires
        table.live(event),
    ensures
        table.step(CallView::SetFlags { event, flags }).0.step(CallView::GetFlags { event }).1
            == NativeReply::Flags(flags),
{
}

/// A category that was set is the category that is read, for every
/// category, the two tap signals included.
pub proof fn lemma_type_round_trip(table: TableView, event: usize, event_type: CGEventType)
    requires
        table.live(event),
    ensures
        table.step(CallView::SetType { event, event_type: event_type.spec_code() }).0.step(
            CallView::GetType { event },
        ).1 == NativeReply::TypeCode(event_type.spec_code()),
        CGEventType::spec_from_code(event_type.spec_code()) == Some(event_type),
{
}

/// Setting the category changes the category and nothing else: the flags,
/// the position, the text and the owners of the event stay as they were, and
/// so does every other event.
pub proof fn lemma_set_type_keeps_the_rest(table: TableView, event: usize, code: u32)
    requires
        table.live(event),
    ensures
        ({
            let after = table.step(CallView::SetType { event, event_type: code }).0;
            &&& after.live(event)
            &&& after.events[event].event_type == code
            &&& after.events[event].text == table.events[event].text
            &&& after.events[event].flags == table.events[event].flags
            &&& after.events[event].x_bits == table.events[event].x_bits
            &&& after.events[event].y_bits == table.events[event].y_bits
            &&& after.events[event].refs == table.events[event].refs
            &&& forall|other: usize|
                other != event ==> (after.live(other) <==> table.live(other)) && (table.live(other)
                    ==> after.events[other] == #[trigger] table.events[other])
        }),
{
}

/// A second owner shares the event, and keeps it when the first owner
/// leaves: after a retain that succeeded and one release, the event is still
/// live, and everything that was set on it is there to be read.
pub proof fn lemma_alias_survives_release(table: TableView, event: usize)
    requires
        table.wf(),
        table.live(event),
    ensures
        ({
            let (shared, reply) = table.step(CallView::Retain { event });
            let after = shared.step(CallView::Release { event }).0;
            &&& reply == NativeReply::Resource(event) <==> table.events[event].refs < usize::MAX
            &&& reply == NativeReply::Resource(event) ==> {
                &&& shared.events[event].refs == table.events[event].refs + 1
                &&& after == table
                &&& after.step(CallView::GetFlags { event }).1 == NativeReply::Flags(
                    table.events[event].flags,
                )
                &&& after.step(CallView::GetType { event }).1 == NativeReply::TypeCode(
                    table.events[event].event_type,
                )
            }
            &&& reply != NativeReply::Resource(event) ==> reply == NativeReply::Resource(0)
                && shared == table
        }),
{
    let (shared, reply) = table.step(CallView::Retain { event });
    let after = shared.step(CallView::Release { event }).0;
    if table.events[event].refs < usize::MAX {
        assert(after.events =~= table.events);
    }
}

/// An event is freed by the release of its last owner, and by no other
/// call: a live event stays live through every call but a release that finds
/// one owner.
pub proof fn lemma_freed_at_last_release(table: TableView, event: usize, call: CallView)
    requires
        table.wf(),
        table.live(event),
    ensures
        !table.step(call).0.live(event) <==> (call == (CallView::Release { event })
            && table.events[event].refs == 1),
{
}

/// A token is never handed out twice: an event that has lost its last owner
/// is live in no later state.
pub proof fn lemma_freed_stays_freed(table: TableView, event: usize, call: CallView)
    requires
        table.wf(),
        1 <= event <= table.created,
        !table.live(event),
    ensures
        !table.step(call).0.live(event),
        table.step(call).1 != NativeReply::Resource(event),
{
}

/// Where there is room, a mouse event is created with the category and the
/// position that were asked for, whatever the button.
pub proof fn lemma_mouse_event_is_as_asked(
    table: TableView,
    source: usize,
    mouse_type: CGEventType,
    x_bits: u64,
    y_bits: u64,
    button: CGMouseButton,
)
    requires
        table.wf(),
        table.has_room(),
    ensures
        ({
            let (after, reply) = table.step(
                CallView::CreateMouseEvent {
                    source,
                    mouse_type: mouse_type.spec_code(),
                    x_bits,
                    y_bits,
                    button: button.spec_code(),
                },
            );
            &&& reply matches NativeReply::Resource(event) && event != 0 && !table.live(event)
                && after.live(event) && after.events[event].refs == 1 && after.step(
                CallView::GetType { event },
            ).1 == NativeReply::TypeCode(mouse_type.spec_code()) && after.step(
                CallView::GetLocation { event },
            ).1 == (NativeReply::Location { x_bits, y_bits })
        }),
{
}

/// A keyboard event is created as a key-down or a key-up event, as asked,
/// and an event without a category as a null event.
pub proof fn lemma_created_category(table: TableView, source: usize, keycode: u16, keydown: bool)
    requires
        table.wf(),
        table.has_room(),
    ensures
        ({
            let (after, reply) = table.step(
                CallView::CreateKeyboardEvent { source, keycode, keydown },
            );
            reply matches NativeReply::Resource(event) && event != 0 && after.live(event)
                && after.events[event].event_type == (if keydown {
                CGEventType::KeyDown.spec_code()
            } else {
                CGEventType::KeyUp.spec_code()
            })
        }),
        ({
            let (after, reply) = table.step(CallView::Create { source });
            reply matches NativeReply::Resource(event) && event != 0 && after.live(event)
                && after.events[event].event_type == CGEventType::Null.spec_code()
        }),
{
}

/// Creation fails exactly where there is no room, and a failed creation
/// leaves no trace: the answer is the token 0 and the state is unchanged.
pub proof fn lemma_creation_fails_without_trace(table: TableView, call: CallView)
    requires
        table.wf(),
        call is Create || call is CreateKeyboardEvent || call is CreateMouseEvent,
    ensures
        table.step(call).1 == NativeReply::Resource(0) <==> !table.has_room(),
        !table.has_room() ==> table.step(call).0 == table,
{
}

/// A text of any length is taken as it is: after the call, the text of the
/// event is the text that was given.
pub proof fn lemma_text_is_taken_whole(table: TableView, event: usize, string: Seq<u16>)
    requires
        table.live(event),
        string.len() <= u64::MAX,
    ensures
        ({
            let (after, reply) = table.step(
                CallView::KeyboardSetUnicodeString { event, length: string.len() as u64, string },
            );
            reply == NativeReply::Done && after.live(event) && after.events[event].text == string
        }),
{
}

} // verus!
