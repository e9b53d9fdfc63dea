//! The raw records that the enumeration provider fills, the safe values they map to, and the
//! capability that ties a record kind to its snapshot flags.
use vstd::prelude::*;
use crate::text::{decode_field, field_text};

verus! {

/// Snapshot flag: the heaps of a process.
pub const TH32CS_SNAPHEAPLIST: u32 = 0x1;
/// Snapshot flag: every process of the system.
pub const TH32CS_SNAPPROCESS: u32 = 0x2;
/// Snapshot flag: every thread of the system.
pub const TH32CS_SNAPTHREAD: u32 = 0x4;
/// Snapshot flag: the modules of a process.
pub const TH32CS_SNAPMODULE: u32 = 0x8;
/// Snapshot flag: the 32-bit modules of a process.
pub const TH32CS_SNAPMODULE32: u32 = 0x10;

/// Width, in units, of a path field.
pub const MAX_PATH: usize = 260;
/// Width, in units, of a module name field.
pub const MODULE_NAME_WIDTH: usize = 256;

/// A buffer of `n` nul units.
pub open spec fn zero_units(n: nat) -> Seq<u16> {
    Seq::new(n, |i: int| 0u16)
}

/// A text buffer of `n` nul units.
pub fn zeroed_units(n: usize) -> (r: Vec<u16>)
    ensures
        r@ == zero_units(n as nat),
{
    let r: Vec<u16> = vec![0u16; n];
    assert(r@ =~= zero_units(n as nat));
    r
}

/// A record kind: the raw record that the provider fills for it, the flags that request a
/// snapshot of it, and how a filled record becomes a safe value.
pub trait TagTl32: Sized + crate::sealed::Sealed {
    /// The raw record that the provider fills.
    type Raw;

    /// What the mapping needs beside the record: for a heap list, the result of the walk's
    /// first call over that heap; nothing for the other kinds.
    type Seed;

    /// The snapshot flags of this kind.
    spec fn spec_flags() -> u32;

    /// Whether `raw` is a fresh record: every field zero, the size field `size`.
    spec fn is_fresh(raw: Self::Raw, size: usize) -> bool;

    /// Whether `entry` is the safe value of the filled record `raw`, with `seed`.
    spec fn maps_to(raw: Self::Raw, seed: Self::Seed, entry: Self) -> bool;

    /// The snapshot flags of this kind.
    fn flags() -> (r: u32)
        ensures
            r == Self::spec_flags(),
    ;

    /// A fresh record whose size field is `size`, the size of the provider's layout.
    fn init_raw(size: usize) -> (r: Self::Raw)
        ensures
            Self::is_fresh(r, size),
    ;

    /// The safe value of a filled record.
    fn from_raw(raw: &Self::Raw, seed: Self::Seed) -> (r: Self)
        ensures
            Self::maps_to(*raw, seed, r),
    ;
}

/// The raw process record.
#[derive(Debug, Clone)]
pub struct ProcessRecord {
    pub size: usize,
    pub process_id: u32,
    pub cnt_threads: u32,
    pub parent_process_id: u32,
    pub pc_pri_class_base: i32,
    pub exe_file: Vec<u16>,
}

/// A process of a snapshot.
#[derive(Debug, Clone)]
pub struct ProcessEntry {
    pub process_id: u32,
    pub cnt_threads: u32,
    pub parent_process_id: u32,
    pub pc_pri_class_base: i32,
    /// The executable's file name, without its terminator.
    pub sz_exe_file: Vec<u16>,
}

impl TagTl32 for ProcessEntry {
    type Raw = ProcessRecord;

    type Seed = ();

    open spec fn spec_flags() -> u32 {
        TH32CS_SNAPPROCESS
    }

    open spec fn is_fresh(raw: ProcessRecord, size: usize) -> bool {
        &&& raw.size == size
        &&& raw.process_id == 0
        &&& raw.cnt_threads == 0
        &&& raw.parent_process_id == 0
        &&& raw.pc_pri_class_base == 0
        &&& raw.exe_file@ == zero_units(MAX_PATH as nat)
    }

    open spec fn maps_to(raw: ProcessRecord, seed: (), entry: ProcessEntry) -> bool {
        &&& entry.process_id == raw.process_id
        &&& entry.cnt_threads == raw.cnt_threads
        &&& entry.parent_process_id == raw.parent_process_id
        &&& entry.pc_pri_class_base == raw.pc_pri_class_base
        &&& entry.sz_exe_file@ == field_text(raw.exe_file@)
    }

    fn flags() -> (r: u32) {
        TH32CS_SNAPPROCESS
    }

    fn init_raw(size: usize) -> (r: ProcessRecord) {
        ProcessRecord {
            size,
            process_id: 0,
            cnt_threads: 0,
            parent_process_id: 0,
            pc_pri_class_base: 0,
            exe_file: zeroed_units(MAX_PATH),
        }
    }

    fn from_raw(raw: &ProcessRecord, seed: ()) -> (r: ProcessEntry) {
        ProcessEntry {
            process_id: raw.process_id,
            cnt_threads: raw.cnt_threads,
            parent_process_id: raw.parent_process_id,
            pc_pri_class_base: raw.pc_pri_class_base,
            sz_exe_file: decode_field(&raw.exe_file),
        }
    }
}


/// The raw module record.
#[derive(Debug, Clone)]
pub struct ModuleRecord {
    pub size: usize,
    pub process_id: u32,
    pub base_addr: usize,
    pub base_size: u32,
    pub h_module: usize,
    pub module: Vec<u16>,
    pub exe_path: Vec<u16>,
}

/// A module loaded in a process.
///
/// The base address is a number, not a pointer that this value owns, and the module handle is
/// a token of the system that this value does not own: it must never be closed or freed.
#[derive(Debug, Clone)]
pub struct ModuleEntry {
    pub process_id: u32,
    pub base_addr: usize,
    pub base_size: u32,
    pub h_module: usize,
    /// The module's name, without its terminator.
    pub sz_module: Vec<u16>,
    /// The module's path, without its terminator.
    pub sz_exe_path: Vec<u16>,
}

impl TagTl32 for ModuleEntry {
    type Raw = ModuleRecord;

    type Seed = ();

    open spec fn spec_flags() -> u32 {
        TH32CS_SNAPMODULE | TH32CS_SNAPMODULE32
    }

    open spec fn is_fresh(raw: ModuleRecord, size: usize) -> bool {
        &&& raw.size == size
        &&& raw.process_id == 0
        &&& raw.base_addr == 0
        &&& raw.base_size == 0
        &&& raw.h_module == 0
        &&& raw.module@ == zero_units(MODULE_NAME_WIDTH as nat)
        &&& raw.exe_path@ == zero_units(MAX_PATH as nat)
    }

    open spec fn maps_to(raw: ModuleRecord, seed: (), entry: ModuleEntry) -> bool {
        &&& entry.process_id == raw.process_id
        &&& entry.base_addr == raw.base_addr
        &&& entry.base_size == raw.base_size
        &&& entry.h_module == raw.h_module
        &&& entry.sz_module@ == field_text(raw.module@)
        &&& entry.sz_exe_path@ == field_text(raw.exe_path@)
    }

    fn flags() -> (r: u32) {
        TH32CS_SNAPMODULE | TH32CS_SNAPMODULE32
    }

    fn init_raw(size: usize) -> (r: ModuleRecord) {
        ModuleRecord {
            size,
            process_id: 0,
            base_addr: 0,
            base_size: 0,
            h_module: 0,
            module: zeroed_units(MODULE_NAME_WIDTH),
            exe_path: zeroed_units(MAX_PATH),
        }
    }

    fn from_raw(raw: &ModuleRecord, seed: ()) -> (r: ModuleEntry) {
        ModuleEntry {
            process_id: raw.process_id,
            base_addr: raw.base_addr,
            base_size: raw.base_size,
            h_module: raw.h_module,
            sz_module: decode_field(&raw.module),
            sz_exe_path: decode_field(&raw.exe_path),
        }
    }
}

/// The raw thread record.
#[derive(Debug, Clone, Copy)]
pub struct ThreadRecord {
    pub size: usize,
    pub thread_id: u32,
    pub owner_process_id: u32,
    pub base_pri: i32,
}

/// A thread of a snapshot.
#[derive(Debug, Clone, Copy)]
pub struct ThreadEntry {
    pub thread_id: u32,
    pub owner_process_id: u32,
    pub base_pri: i32,
}

impl TagTl32 for ThreadEntry {
    type Raw = ThreadRecord;

    type Seed = ();

    open spec fn spec_flags() -> u32 {
        TH32CS_SNAPTHREAD
    }

    open spec fn is_fresh(raw: ThreadRecord, size: usize) -> bool {
        &&& raw.size == size
        &&& raw.thread_id == 0
        &&& raw.owner_process_id == 0
        &&& raw.base_pri == 0
    }

    open spec fn maps_to(raw: ThreadRecord, seed: (), entry: ThreadEntry) -> bool {
        &&& entry.thread_id == raw.thread_id
        &&& entry.owner_process_id == raw.owner_process_id
        &&& entry.base_pri == raw.base_pri
    }

    fn flags() -> (r: u32) {
        TH32CS_SNAPTHREAD
    }

    fn init_raw(size: usize) -> (r: ThreadRecord) {
        ThreadRecord { size, thread_id: 0, owner_process_id: 0, base_pri: 0 }
    }

    fn from_raw(raw: &ThreadRecord, seed: ()) -> (r: ThreadEntry) {
        ThreadEntry {
            thread_id: raw.thread_id,
            owner_process_id: raw.owner_process_id,
            base_pri: raw.base_pri,
        }
    }
}

} // verus!
