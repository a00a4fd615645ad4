//! An in-memory native layer.
//!
//! An [`EventTable`] answers every [`NativeCall`] the way the boundary's
//! contract describes: it keeps the events that were created, counts the
//! references to each, and forgets an event when its last reference is given
//! back. It serves hosts without a window server, and it is the layer over
//! which the laws of the handle are stated.
use vstd::prelude::*;
use crate::native::{CallView, NativeCall, NativeReply};
use crate::types::CGEventType;

verus! {

/// Where an event was posted.
#[derive(Clone, Copy, Debug, PartialEq, Eq, Structural, Hash)]
pub enum PostTarget {
    /// Ahead of the taps at the location with this code.
    Tap(u32),
    /// To the process with this identifier.
    Process(i32),
}

/// One entry of the log of posted events.
#[derive(Clone, Copy, Debug, PartialEq, Eq, Structural, Hash)]
pub struct Posted {
    pub target: PostTarget,
    pub event: usize,
}

/// What the table holds of one live event.
pub struct EventRecord {
    /// The number of owners; at least 1 for a live event.
    pub refs: usize,
    /// The code of the category, as it was last set.
    pub event_type: u32,
    /// The flags mask, as it was last set.
    pub flags: u64,
    pub x_bits: u64,
    pub y_bits: u64,
    /// The text override, as it was last set.
    pub text: Seq<u16>,
}

/// The state of a table.
pub struct TableView {
    /// The live events, by token.
    pub events: Map<usize, EventRecord>,
    /// How many events were ever created. Tokens are handed out in order,
    /// from 1, and never twice.
    pub created: nat,
    /// How many events the table can create in all.
    pub capacity: nat,
    /// The type identifier that the table reports.
    pub type_id: usize,
    /// Whether the table accepts posts to a single process.
    pub pid_posting: bool,
    /// Every accepted post, oldest first.
    pub posted: Seq<Posted>,
}

impl TableView {
    /// Whether `event` names an event that has an owner.
    pub open spec fn live(self, event: usize) -> bool {
        self.events.contains_key(event)
    }

    /// Whether one more event can be created.
    pub open spec fn has_room(self) -> bool {
        self.created < self.capacity
    }

    /// What every reachable state satisfies: the live tokens are among those
    /// handed out, none is 0, and each live event has an owner.
    pub open spec fn wf(self) -> bool {
        &&& self.created <= self.capacity <= usize::MAX
        &&& forall|t: usize| #[trigger]
            self.live(t) ==> 1 <= t <= self.created && self.events[t].refs >= 1
    }

    /// The state in which the record of `event` is `record`.
    pub open spec fn with_record(self, event: usize, record: EventRecord) -> TableView {
        TableView { events: self.events.insert(event, record), ..self }
    }

    /// The state with one more entry in the log.
    pub open spec fn with_post(self, target: PostTarget, event: usize) -> TableView {
        TableView { posted: self.posted.push(Posted { target, event }), ..self }
    }

    /// Creation: where there is room, the next token names an event with one
    /// owner, the given category and position, no flags and no text. Where
    /// there is none, the answer is the token 0 and nothing changes.
    pub open spec fn create(self, event_type: u32, x_bits: u64, y_bits: u64) -> (
        TableView,
        NativeReply,
    ) {
        if self.has_room() {
            let token = (self.created + 1) as usize;
            let record = EventRecord {
                refs: 1,
                event_type,
                flags: 0,
                x_bits,
                y_bits,
                text: Seq::empty(),
            };
            (
                TableView {
                    events: self.events.insert(token, record),
                    created: self.created + 1,
                    ..self
                },
                NativeReply::Resource(token),
            )
        } else {
            (self, NativeReply::Resource(0))
        }
    }

    /// The state after `call`, and the answer to it.
    ///
    /// A call that names an event without an owner changes nothing; where it
    /// asks for a value, the answer is zero.
    pub open spec fn step(self, call: CallView) -> (TableView, NativeReply) {
        match call {
            CallView::GetTypeId => (self, NativeReply::TypeId(self.type_id)),
            CallView::Create { .. } => self.create(CGEventType::Null.spec_code(), 0, 0),
            CallView::CreateKeyboardEvent { keydown, .. } => self.create(
                if keydown {
                    CGEventType::KeyDown.spec_code()
                } else {
                    CGEventType::KeyUp.spec_code()
                },
                0,
                0,
            ),
            CallView::CreateMouseEvent { mouse_type, x_bits, y_bits, .. } => self.create(
                mouse_type,
                x_bits,
                y_bits,
            ),
            CallView::Post { tap, event } => (
                if self.live(event) {
                    self.with_post(PostTarget::Tap(tap), event)
                } else {
                    self
                },
                NativeReply::Done,
            ),
            CallView::PostToPid { pid, event } => (
                if self.live(event) && self.pid_posting {
                    self.with_post(PostTarget::Process(pid), event)
                } else {
                    self
                },
                NativeReply::Done,
            ),
            CallView::SetFlags { event, flags } => (
                if self.live(event) {
                    self.with_record(event, EventRecord { flags, ..self.events[event] })
                } else {
                    self
                },
                NativeReply::Done,
            ),
            CallView::GetFlags { event } => (
                self,
                NativeReply::Flags(
                    if self.live(event) {
                        self.events[event].flags
                    } else {
                        0
                    },
                ),
            ),
            CallView::GetLocation { event } => (
                self,
                if self.live(event) {
                    NativeReply::Location {
                        x_bits: self.events[event].x_bits,
                        y_bits: self.events[event].y_bits,
                    }
                } else {
                    NativeReply::Location { x_bits: 0, y_bits: 0 }
                },
            ),
            CallView::SetType { event, event_type } => (
                if self.live(event) {
                    self.with_record(event, EventRecord { event_type, ..self.events[event] })
                } else {
                    self
                },
                NativeReply::Done,
            ),
            CallView::GetType { event } => (
                self,
                NativeReply::TypeCode(
                    if self.live(event) {
                        self.events[event].event_type
                    } else {
                        0
                    },
                ),
            ),
            CallView::KeyboardSetUnicodeString { event, length, string } => (
                if self.live(event) {
                    self.with_record(
                        event,
                        EventRecord {
                            text: if length < string.len() {
                                string.take(length as int)
                            } else {
                                string
                            },
                            ..self.events[event]
                        },
                    )
                } else {
                    self
                },
                NativeReply::Done,
            ),
            CallView::Retain { event } => if self.live(event) && self.events[event].refs
                < usize::MAX {
                (
                    self.with_record(
                        event,
                        EventRecord {
                            refs: (self.events[event].refs + 1) as usize,
                            ..self.events[event]
                        },
                    ),
                    NativeReply::Resource(event),
                )
            } else {
                (self, NativeReply::Resource(0))
            },
            CallView::Release { event } => (
                if self.live(event) {
                    if self.events[event].refs > 1 {
                        self.with_record(
                            event,
                            EventRecord {
                                refs: (self.events[event].refs - 1) as usize,
                                ..self.events[event]
                            },
                        )
                    } else {
                        TableView { events: self.events.remove(event), ..self }
                    }
                } else {
                    self
                },
                NativeReply::Done,
            ),
        }
    }

    /// Every call leaves a well-formed state well-formed, and changes neither
    /// the capacity, nor the type identifier, nor what the table accepts.
    pub proof fn lemma_step_preserves(self, call: CallView)
        requires
            self.wf(),
        ensures
            self.step(call).0.wf(),
            self.step(call).0.capacity == self.capacity,
            self.step(call).0.type_id == self.type_id,
            self.step(call).0.pid_posting == self.pid_posting,
            self.step(call).0.created >= self.created,
    {
        let next = self.step(call).0;
        assert forall|t: usize| #[trigger] next.live(t) implies 1 <= t <= next.created
            && next.events[t].refs >= 1 by {
            if self.live(t) {
            }
        }
    }
}

/// One event of the table; `refs` is 0 once the event has no owner.
#[derive(Debug)]
struct Slot {
    refs: usize,
    event_type: u32,
    flags: u64,
    x_bits: u64,
    y_bits: u64,
    text: Vec<u16>,
}

impl Slot {
    spec fn record(self) -> EventRecord {
        EventRecord {
            refs: self.refs,
            event_type: self.event_type,
            flags: self.flags,
            x_bits: self.x_bits,
            y_bits: self.y_bits,
            text: self.text@,
        }
    }
}

/// A native layer in memory. The event with token `t` is kept at index
/// `t - 1`, and stays there, without an owner, after its last release.
#[derive(Debug)]
pub struct EventTable {
    slots: Vec<Slot>,
    capacity: usize,
    type_id: usize,
    pid_posting: bool,
    posted: Vec<Posted>,
}

impl View for EventTable {
    type V = TableView;

    closed spec fn view(&self) -> TableView {
        TableView {
            events: Map::new(
                |t: usize| 1 <= t <= self.slots@.len() && self.slots@[t - 1].refs > 0,
                |t: usize| self.slots@[t - 1].record(),
            ),
            created: self.slots@.len(),
            capacity: self.capacity as nat,
            type_id: self.type_id,
            pid_posting: self.pid_posting,
            posted: self.posted@,
        }
    }
}

impl EventTable {
    /// Where only the slot of `event` differs between `prev` and `next`, and
    /// the event has an owner in `next`, the view of `next` is that of `prev`
    /// with the record of `event` replaced.
    proof fn lemma_slot_replaced(prev: EventTable, next: EventTable, event: usize)
        requires
            1 <= event <= prev.slots@.len(),
            next.slots@.len() == prev.slots@.len(),
            next.slots@ == prev.slots@.update(event - 1, next.slots@[event - 1]),
            next.slots@[event - 1].refs > 0,
            next.capacity == prev.capacity,
            next.type_id == prev.type_id,
            next.pid_posting == prev.pid_posting,
            next.posted@ == prev.posted@,
        ensures
            next@ == prev@.with_record(event, next.slots@[event - 1].record()),
    {
        assert(next@.events =~= prev@.events.insert(event, next.slots@[event - 1].record()));
    }

    /// An empty table that can create `capacity` events in all, reports
    /// `type_id` as the type identifier of its events, and accepts posts to
    /// a single process where `pid_posting` says so.
    pub fn new(capacity: usize, type_id: usize, pid_posting: bool) -> (table: EventTable)
        ensures
            table@ == (TableView {
                events: Map::empty(),
                created: 0,
                capacity: capacity as nat,
                type_id,
                pid_posting,
                posted: Seq::empty(),
            }),
            table@.wf(),
    {
        let table = EventTable {
            slots: Vec::new(),
            capacity,
            type_id,
            pid_posting,
            posted: Vec::new(),
        };
        assert(table@.events =~= Map::empty());
        table
    }

    /// The index of the event `event`, where it has an owner.
    fn find(&self, event: usize) -> (at: Option<usize>)
        ensures
            at is Some <==> self@.live(event),
            at matches Some(i) ==> i == event - 1 && i < self.slots@.len()
                && self.slots@[i as int].refs > 0 && self.slots@[i as int].record()
                == self@.events[event],
    {
        if event >= 1 && event <= self.slots.len() && self.slots[event - 1].refs > 0 {
            Some(event - 1)
        } else {
            None
        }
    }

    fn create(&mut self, event_type: u32, x_bits: u64, y_bits: u64) -> (reply: NativeReply)
        ensures
            final(self)@ == old(self)@.create(event_type, x_bits, y_bits).0,
            reply == old(self)@.create(event_type, x_bits, y_bits).1,
    {
        if self.slots.len() < self.capacity {
            self.slots.push(Slot { refs: 1, event_type, flags: 0, x_bits, y_bits, text: Vec::new() });
            let token: usize = self.slots.len();
            proof {
                assert(self@.events =~= old(self)@.create(event_type, x_bits, y_bits).0.events);
            }
            NativeReply::Resource(token)
        } else {
            NativeReply::Resource(0)
        }
    }

    /// Performs `call` and answers it.
    pub fn perform(&mut self, call: NativeCall) -> (reply: NativeReply)
        requires
            old(self)@.wf(),
        ensures
            final(self)@ == old(self)@.step(call@).0,
            reply == old(self)@.step(call@).1,
            final(self)@.wf(),
    {
        proof {
            self@.lemma_step_preserves(call@);
        }
        let ghost prev = *self;
        match call {
            NativeCall::GetTypeId => NativeReply::TypeId(self.type_id),
            NativeCall::Create { .. } => self.create(CGEventType::Null.code(), 0, 0),
            NativeCall::CreateKeyboardEvent { keydown, .. } => {
                let event_type: u32 = if keydown {
                    CGEventType::KeyDown.code()
                } else {
                    CGEventType::KeyUp.code()
                };
                self.create(event_type, 0, 0)
            },
            NativeCall::CreateMouseEvent { mouse_type, x_bits, y_bits, .. } => self.create(
                mouse_type,
                x_bits,
                y_bits,
            ),
            NativeCall::Post { tap, event } => {
                if self.find(event).is_some() {
                    self.posted.push(Posted { target: PostTarget::Tap(tap), event });
                    assert(self@.events =~= prev@.events);
                }
                NativeReply::Done
            },
            NativeCall::PostToPid { pid, event } => {
                if self.find(event).is_some() && self.pid_posting {
                    self.posted.push(Posted { target: PostTarget::Process(pid), event });
                    assert(self@.events =~= prev@.events);
                }
                NativeReply::Done
            },
            NativeCall::SetFlags { event, flags } => {
                if let Some(i) = self.find(event) {
                    self.slots[i].flags = flags;
                    proof {
                        Self::lemma_slot_replaced(prev, *self, event);
                    }
                }
                NativeReply::Done
            },
            NativeCall::GetFlags { event } => {
                match self.find(event) {
                    Some(i) => NativeReply::Flags(self.slots[i].flags),
                    None => NativeReply::Flags(0),
                }
            },
            NativeCall::GetLocation { event } => {
                match self.find(event) {
                    Some(i) => NativeReply::Location {
                        x_bits: self.slots[i].x_bits,
                        y_bits: self.slots[i].y_bits,
                    },
                    None => NativeReply::Location { x_bits: 0, y_bits: 0 },
                }
            },
            NativeCall::SetType { event, event_type } => {
                if let Some(i) = self.find(event) {
                    self.slots[i].event_type = event_type;
                    proof {
                        Self::lemma_slot_replaced(prev, *self, event);
                    }
                }
                NativeReply::Done
            },
            NativeCall::GetType { event } => {
                match self.find(event) {
                    Some(i) => NativeReply::TypeCode(self.slots[i].event_type),
                    None => NativeReply::TypeCode(0),
                }
            },
            NativeCall::KeyboardSetUnicodeString { event, length, string } => {
                if let Some(i) = self.find(event) {
                    let mut text: Vec<u16> = string;
                    if length < text.len() as u64 {
                        text.truncate(length as usize);
                    }
                    self.slots[i].text = text;
                    proof {
                        Self::lemma_slot_replaced(prev, *self, event);
                    }
                }
                NativeReply::Done
            },
            NativeCall::Retain { event } => {
                match self.find(event) {
                    Some(i) => {
                        if self.slots[i].refs < usize::MAX {
                            self.slots[i].refs = self.slots[i].refs + 1;
                            proof {
                                Self::lemma_slot_replaced(prev, *self, event);
                            }
                            NativeReply::Resource(event)
                        } else {
                            NativeReply::Resource(0)
                        }
                    },
                    None => NativeReply::Resource(0),
                }
            },
            NativeCall::Release { event } => {
                if let Some(i) = self.find(event) {
                    if self.slots[i].refs > 1 {
                        self.slots[i].refs = self.slots[i].refs - 1;
                        proof {
                            Self::lemma_slot_replaced(prev, *self, event);
                        }
                    } else {
                        self.slots[i].refs = 0;
                        self.slots[i].text = Vec::new();
                        assert(self@.events =~= prev@.events.remove(event));
                    }
                }
                NativeReply::Done
            },
        }
    }

    /// Whether `event` names an event that has an owner.
    pub fn is_live(&self, event: usize) -> (live: bool)
        ensures
            live == self@.live(event),
    {
        self.find(event).is_some()
    }

    /// The number of owners of `event`: 0 where it has none.
    pub fn reference_count(&self, event: usize) -> (refs: usize)
        ensures
            refs == (if self@.live(event) {
                self@.events[event].refs
            } else {
                0
            }),
    {
        match self.find(event) {
            Some(i) => self.slots[i].refs,
            None => 0,
        }
    }

    /// The text override of `event`: `None` where the event has no owner.
    pub fn text(&self, event: usize) -> (text: Option<&Vec<u16>>)
        ensures
            text is Some <==> self@.live(event),
            text matches Some(units) ==> units@ == self@.events[event].text,
    {
        match self.find(event) {
            Some(i) => Some(&self.slots[i].text),
            None => None,
        }
    }

    /// Every accepted post, oldest first.
    pub fn posted(&self) -> (log: &Vec<Posted>)
        ensures
            log@ == self@.posted,
    {
        &self.posted
    }

    /// How many events were created so far.
    pub fn created(&self) -> (count: usize)
        ensures
            count == self@.created,
    {
        self.slots.len()
    }

    /// How many events the table can create in all.
    pub fn capacity(&self) -> (count: usize)
        ensures
            count == self@.capacity,
    {
        self.capacity
    }

    /// Whether the table accepts posts to a single process.
    pub fn supports_pid_posting(&self) -> (supported: bool)
        ensures
            supported == self@.pid_posting,
    {
        self.pid_posting
    }
}

} // verus!
