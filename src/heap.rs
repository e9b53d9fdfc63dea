//! Heap lists, and the walk over the blocks of one heap that each of them carries.
use vstd::prelude::*;
use crate::cursor::advanced;
use crate::records::{TagTl32, TH32CS_SNAPHEAPLIST};

verus! {

/// The raw heap-list record.
#[derive(Debug, Clone, Copy)]
pub struct HeapListRecord {
    pub size: usize,
    pub process_id: u32,
    pub heap_id: usize,
    pub flags: u32,
}

/// The raw heap-block record.
#[derive(Debug, Clone, Copy)]
pub struct HeapEntryRecord {
    pub size: usize,
    pub handle: usize,
    pub address: usize,
    pub block_size: usize,
    pub flags: u32,
    pub process_id: u32,
    pub heap_id: usize,
}

/// A block of a heap.
///
/// The handle is a token of the system that this value does not own: it must never be closed
/// or freed.
#[derive(Debug, Clone, Copy)]
pub struct HeapEntry {
    pub handle: usize,
    pub address: usize,
    pub block_size: usize,
    pub flags: u32,
    pub process_id: u32,
    pub heap_id: usize,
}

impl HeapEntry {
    /// Whether `entry` is the safe value of the filled record `raw`.
    pub open spec fn maps_to(raw: HeapEntryRecord, entry: HeapEntry) -> bool {
        &&& entry.handle == raw.handle
        &&& entry.address == raw.address
        &&& entry.block_size == raw.block_size
        &&& entry.flags == raw.flags
        &&& entry.process_id == raw.process_id
        &&& entry.heap_id == raw.heap_id
    }

    /// A fresh block record for the walk's first call: every field zero, the size field
    /// `size`, the size of the provider's layout.
    pub fn init_raw(size: usize) -> (r: HeapEntryRecord)
        ensures
            r.size == size,
            r.handle == 0 && r.address == 0 && r.block_size == 0,
            r.flags == 0 && r.process_id == 0 && r.heap_id == 0,
    {
        HeapEntryRecord {
            size,
            handle: 0,
            address: 0,
            block_size: 0,
            flags: 0,
            process_id: 0,
            heap_id: 0,
        }
    }

    /// The safe value of a filled block record.
    pub fn from_raw(raw: &HeapEntryRecord) -> (r: HeapEntry)
        ensures
            HeapEntry::maps_to(*raw, r),
    {
        HeapEntry {
            handle: raw.handle,
            address: raw.address,
            block_size: raw.block_size,
            flags: raw.flags,
            process_id: raw.process_id,
            heap_id: raw.heap_id,
        }
    }
}

/// A heap of a process, and a walk over its blocks.
///
/// The walk follows the protocol of a snapshot: it holds the block record that the provider
/// filled last and is advanced from it only while it holds one. It owns no handle: the walk
/// runs over a heap that the system keeps, so ending it releases nothing.
#[derive(Debug)]
pub struct HeapList {
    pub process_id: u32,
    pub heap_id: usize,
    pub flags: u32,
    current: Option<HeapEntryRecord>,
}

/// What a heap list holds: its heap, and the block record its walk holds for the next step.
pub ghost struct HeapListView {
    pub process_id: u32,
    pub heap_id: usize,
    pub flags: u32,
    pub pending: Option<HeapEntryRecord>,
}

impl View for HeapList {
    type V = HeapListView;

    closed spec fn view(&self) -> HeapListView {
        HeapListView {
            process_id: self.process_id,
            heap_id: self.heap_id,
            flags: self.flags,
            pending: self.current,
        }
    }
}

impl HeapList {
    /// The block record held for the next step, if any.
    pub open spec fn pending(&self) -> Option<HeapEntryRecord> {
        self@.pending
    }

    /// Whether the walk has reached the end of the heap; it then stays there.
    pub open spec fn is_exhausted(&self) -> bool {
        self.pending() is None
    }

    /// Whether the provider is to be advanced before the next step of the walk: only while a
    /// block record is held.
    pub fn wants_advance(&self) -> (r: bool)
        ensures
            r == !self.is_exhausted(),
    {
        self.current.is_some()
    }

    /// The block record held for the next step: the one to advance the provider from.
    pub fn current(&self) -> (r: Option<&HeapEntryRecord>)
        ensures
            r is Some <==> self.pending() is Some,
            r matches Some(raw) ==> *raw == self.pending()->Some_0,
    {
        match &self.current {
            Some(raw) => Some(raw),
            None => None,
        }
    }

    /// One step of the walk. Where a block record is held, hands out its safe value and keeps
    /// `fetched`, what the provider's advance call filled next (`None`: the end). An exhausted
    /// walk hands out nothing, ignores `fetched` and stays exhausted.
    pub fn step(&mut self, fetched: Option<HeapEntryRecord>) -> (r: Option<HeapEntry>)
        ensures
            final(self)@.process_id == old(self)@.process_id,
            final(self)@.heap_id == old(self)@.heap_id,
            final(self)@.flags == old(self)@.flags,
            final(self).pending() == advanced(old(self).pending(), fetched),
            r is Some <==> old(self).pending() is Some,
            r matches Some(e) ==> HeapEntry::maps_to(old(self).pending()->Some_0, e),
    {
        match &self.current {
            None => None,
            Some(raw) => {
                let val = HeapEntry::from_raw(raw);
                self.current = fetched;
                Some(val)
            },
        }
    }
}

impl TagTl32 for HeapList {
    type Raw = HeapListRecord;

    /// The outcome of the walk's first call over the record's heap (`None` where it failed).
    type Seed = Option<HeapEntryRecord>;

    open spec fn spec_flags() -> u32 {
        TH32CS_SNAPHEAPLIST
    }

    open spec fn is_fresh(raw: HeapListRecord, size: usize) -> bool {
        &&& raw.size == size
        &&& raw.process_id == 0
        &&& raw.heap_id == 0
        &&& raw.flags == 0
    }

    open spec fn maps_to(raw: HeapListRecord, seed: Option<HeapEntryRecord>, entry: HeapList) -> bool {
        &&& entry@.process_id == raw.process_id
        &&& entry@.heap_id == raw.heap_id
        &&& entry@.flags == raw.flags
        &&& entry@.pending == seed
    }

    fn flags() -> (r: u32) {
        TH32CS_SNAPHEAPLIST
    }

    fn init_raw(size: usize) -> (r: HeapListRecord) {
        HeapListRecord { size, process_id: 0, heap_id: 0, flags: 0 }
    }

    fn from_raw(raw: &HeapListRecord, seed: Option<HeapEntryRecord>) -> (r: HeapList) {
        HeapList { process_id: raw.process_id, heap_id: raw.heap_id, flags: raw.flags, current: seed }
    }
}

/// A heap whose walk has no first block (the heap holds none, or went away since the
/// snapshot) still gives a usable heap list: its heap fields are those of the record, and only
/// its walk is empty, from the start and at every step after.
pub proof fn lemma_empty_heap_walk(raw: HeapListRecord, list: HeapList)
    requires
        HeapList::maps_to(raw, None, list),
    ensures
        list@.process_id == raw.process_id,
        list@.heap_id == raw.heap_id,
        list@.flags == raw.flags,
        list.is_exhausted(),
        forall|fetched: Option<HeapEntryRecord>| advanced(list.pending(), fetched) is None,
{
}

} // verus!
