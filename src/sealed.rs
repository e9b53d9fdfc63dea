use vstd::prelude::*;

verus! {

/// Closes the set of record kinds: only the kinds of this crate can be enumerated.
pub trait Sealed {}

impl Sealed for crate::records::ProcessEntry {}

impl Sealed for crate::records::ModuleEntry {}

impl Sealed for crate::records::ThreadEntry {}

impl Sealed for crate::heap::HeapList {}

} // verus!
