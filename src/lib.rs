//! Enumeration of a system's processes, a process's modules, threads and heaps through the
//! toolhelp snapshot facility.
//!
//! The library holds the logic: the raw records and their mapping into safe values, the
//! look-ahead cursor that every snapshot kind shares, the nested walk over one heap, and the
//! outcome of a cross-process memory copy. The calls into the operating system are made by the
//! caller, which hands each result to the cursor and performs the one action it asks for.

pub mod cursor;
pub mod error;
pub mod heap;
pub mod memory;
pub mod records;
mod sealed;
pub mod snapshot;
pub mod text;

pub use error::OsError;
pub use heap::{HeapEntry, HeapList};
pub use snapshot::Snapshot;
pub use records::{ModuleEntry, ProcessEntry, TagTl32, ThreadEntry};
