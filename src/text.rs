//! Text fields of the raw records: fixed-width buffers of UTF-16 units ended by a nul.
use vstd::prelude::*;
use widestring::U16CString;

verus! {

/// Whether the buffer holds a nul unit.
pub open spec fn has_nul(units: Seq<u16>) -> bool {
    exists|i: int| 0 <= i < units.len() && units[i] == 0u16
}

/// The units in front of the first nul (the whole buffer where there is none).
pub open spec fn before_nul(units: Seq<u16>) -> Seq<u16>
    decreases units.len(),
{
    if units.len() == 0 {
        units
    } else if units[0] == 0u16 {
        Seq::empty()
    } else {
        seq![units[0]] + before_nul(units.drop_first())
    }
}

/// The text that a fixed-width field holds: the units before its terminating nul, or no text
/// at all where the buffer lacks a terminator.
pub open spec fn field_text(units: Seq<u16>) -> Seq<u16> {
    if has_nul(units) {
        before_nul(units)
    } else {
        Seq::empty()
    }
}

/// Relies on widestring's `U16CString::from_vec_with_nul`, which cuts the vector after its
/// first nul and fails on a vector without one, and on `U16CString::into_vec`, which gives the
/// units without the nul.
#[verifier::external_body]
fn nul_terminated_units(units: &Vec<u16>) -> (r: Option<Vec<u16>>)
    ensures
        r is Some <==> has_nul(units@),
        r matches Some(v) ==> v@ == before_nul(units@),
{
    U16CString::from_vec_with_nul(units.clone()).ok().map(|s| s.into_vec())
}

/// Decodes a fixed-width text field. A buffer without a terminator gives the empty text; the
/// decoding never fails and depends on the buffer alone.
pub fn decode_field(units: &Vec<u16>) -> (r: Vec<u16>)
    ensures
        r@ == field_text(units@),
{
    match nul_terminated_units(units) {
        Some(v) => v,
        None => Vec::new(),
    }
}

} // verus!
