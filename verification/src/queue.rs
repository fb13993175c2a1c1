//! The bounded queue that holds events until a reader collects them: at most
//! `MAX_ITEM_COUNT` events, oldest first; when it is full a new event pushes
//! the oldest one out.

use vstd::prelude::*;
use crate::item::ItemInfo;
use crate::wire::{append_record, records_bytes, records_decode_to, law_records_decode_to_their_events, RECORD_SIZE};

verus! {

/// The most events the queue holds at once.
pub const MAX_ITEM_COUNT: usize = 256;

/// The queue after `item` arrives at a queue holding `q`.
pub open spec fn queue_push(q: Seq<ItemInfo>, item: ItemInfo) -> Seq<ItemInfo> {
    if q.len() >= MAX_ITEM_COUNT {
        q.drop_first().push(item)
    } else {
        q.push(item)
    }
}

/// The queue after each of `items` arrives in turn at a queue holding `q`.
pub open spec fn queue_push_all(q: Seq<ItemInfo>, items: Seq<ItemInfo>) -> Seq<ItemInfo>
    decreases items.len(),
{
    if items.len() == 0 {
        q
    } else {
        queue_push(queue_push_all(q, items.drop_last()), items.last())
    }
}

/// Size in bytes of the records of `n` events.
pub open spec fn records_size(n: nat) -> nat {
    n * RECORD_SIZE as nat
}

/// `Vec::try_reserve_exact`: reserves room for `additional` more items, and
/// tells whether the allocator granted it. The contents are left unchanged
/// either way; whether the reservation succeeds is up to the allocator.
#[verifier::external_body]
fn try_reserve_exact_items(v: &mut Vec<ItemInfo>, additional: usize) -> (ok: bool)
    ensures
        final(v)@ == old(v)@,
{
    v.try_reserve_exact(additional).is_ok()
}

/// Law: starting from a queue of at most `MAX_ITEM_COUNT` events, pushing
/// `items` leaves the newest `MAX_ITEM_COUNT` of all events, old and new, in
/// the order in which they arrived.
pub proof fn law_queue_keeps_newest(q: Seq<ItemInfo>, items: Seq<ItemInfo>)
    requires
        q.len() <= MAX_ITEM_COUNT,
    ensures
        MAX_ITEM_COUNT == 256,
        queue_push_all(q, items) == ({
            let all = q + items;
            let n = all.len() as int;
            all.subrange(if n > MAX_ITEM_COUNT { n - MAX_ITEM_COUNT } else { 0 }, n)
        }),
    decreases items.len(),
{
    let all = q + items;
    let n = all.len() as int;
    if items.len() == 0 {
        assert(all =~= q);
        assert(all.subrange(0, n) =~= q);
    } else {
        let init = items.drop_last();
        law_queue_keeps_newest(q, init);
        let prev = q + init;
        let m = prev.len() as int;
        assert(prev =~= all.drop_last());
        let r = queue_push_all(q, init);
        if m >= MAX_ITEM_COUNT {
            assert(queue_push_all(q, items) =~= all.subrange(n - MAX_ITEM_COUNT, n));
        } else {
            assert(queue_push_all(q, items) =~= all.subrange(0, n));
        }
    }
}

/// Law: the records of `n` events take `n` times 96 bytes, one record per
/// event, whatever `n` is.
pub proof fn law_records_size(n: nat)
    ensures
        records_size(n) == n * 96,
        RECORD_SIZE == 96,
{
}

pub struct EventQueue {
    events: Vec<ItemInfo>,
}

impl View for EventQueue {
    type V = Seq<ItemInfo>;

    closed spec fn view(&self) -> Seq<ItemInfo> {
        self.events@
    }
}

impl EventQueue {
    #[verifier::type_invariant]
    spec fn bounded(self) -> bool {
        self.events@.len() <= MAX_ITEM_COUNT
    }

    /// An empty queue.
    pub fn new() -> (q: EventQueue)
        ensures
            q@ == Seq::<ItemInfo>::empty(),
    {
        EventQueue { events: Vec::new() }
    }

    /// An empty queue whose storage for `MAX_ITEM_COUNT` events is reserved up
    /// front, so that queuing an event later needs no allocation; `None` where
    /// the reservation fails.
    pub fn with_reserved_capacity() -> (r: Option<EventQueue>)
        ensures
            r matches Some(q) ==> q@ == Seq::<ItemInfo>::empty(),
    {
        let mut events: Vec<ItemInfo> = Vec::new();
        if try_reserve_exact_items(&mut events, MAX_ITEM_COUNT) {
            assert(events@ =~= Seq::<ItemInfo>::empty());
            Some(EventQueue { events })
        } else {
            None
        }
    }

    /// The number of events held.
    pub fn len(&self) -> (n: usize)
        ensures
            n == self@.len(),
            n <= MAX_ITEM_COUNT,
    {
        proof {
            use_type_invariant(self);
        }
        self.events.len()
    }

    /// Adds `item` as the newest event; when the queue is full, the oldest
    /// event leaves it first.
    pub fn push_item(&mut self, item: ItemInfo)
        ensures
            final(self)@ == queue_push(old(self)@, item),
            final(self)@.len() <= MAX_ITEM_COUNT,
    {
        proof {
            use_type_invariant(&*self);
        }
        let mut events: Vec<ItemInfo> = Vec::new();
        std::mem::swap(&mut events, &mut self.events);
        if events.len() >= MAX_ITEM_COUNT {
            events.remove(0);
        }
        events.push(item);
        assert(events@ =~= queue_push(old(self)@, item));
        self.events = events;
    }

    /// Hands a reader whose buffer holds `buffer_size` bytes the records of
    /// all queued events, oldest first, and empties the queue. When the
    /// records do not fit, returns `None` and leaves the queue as it was.
    pub fn copy_events(&mut self, buffer_size: usize) -> (r: Option<Vec<u8>>)
        ensures
            r is Some <==> records_size(old(self)@.len()) <= buffer_size,
            r is Some <==> old(self)@.len() * RECORD_SIZE <= buffer_size,
            r matches Some(bytes) ==> {
                &&& bytes@ == records_bytes(old(self)@)
                &&& bytes@.len() == records_size(old(self)@.len())
                &&& records_decode_to(bytes@, old(self)@)
                &&& final(self)@ == Seq::<ItemInfo>::empty()
            },
            r is None ==> final(self)@ == old(self)@,
    {
        proof {
            use_type_invariant(&*self);
            law_records_decode_to_their_events(self@);
        }
        let events_byte_size = self.events.len() * RECORD_SIZE;
        if events_byte_size > buffer_size {
            return None;
        }
        let mut out: Vec<u8> = Vec::new();
        let mut i: usize = 0;
        while i < self.events.len()
            invariant
                i <= self.events@.len(),
                self.events@ == old(self)@,
                out@ == records_bytes(self.events@.subrange(0, i as int)),
            decreases self.events@.len() - i,
        {
            append_record(&mut out, &self.events[i]);
            assert(self.events@.subrange(0, i + 1).drop_last() =~= self.events@.subrange(0, i as int));
            i = i + 1;
        }
        assert(self.events@.subrange(0, i as int) =~= self.events@);
        let mut events: Vec<ItemInfo> = Vec::new();
        std::mem::swap(&mut events, &mut self.events);
        events.clear();
        self.events = events;
        Some(out)
    }
}

} // verus!
