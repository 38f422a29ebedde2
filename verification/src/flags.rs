//! The administrative flags of an interface, as a set of bits.

use vstd::prelude::*;
use crate::sys;

verus! {

/// The bit that marks an interface as administratively enabled.
pub const UP: u16 = 0x1;

/// Whether `flags` has the enabled bit set.
pub open spec fn enabled(flags: u16) -> bool {
    flags & UP != 0
}

/// `flags` with the enabled bit set and every other bit as it was.
pub open spec fn raised(flags: u16) -> u16 {
    flags | UP
}

/// `flags` with the enabled bit cleared and every other bit as it was.
pub open spec fn lowered(flags: u16) -> u16 {
    flags & !UP
}

/// Reports whether the enabled bit is set.
pub fn is_enabled(flags: u16) -> (on: bool)
    ensures
        on == enabled(flags),
{
    flags & sys::iff_up() != 0
}

/// Sets the enabled bit.
pub fn raise(flags: u16) -> (out: u16)
    ensures
        out == raised(flags),
{
    flags | sys::iff_up()
}

/// Clears the enabled bit.
pub fn lower(flags: u16) -> (out: u16)
    ensures
        out == lowered(flags),
{
    flags & !sys::iff_up()
}

/// Raising enables, lowering disables, and neither touches any other bit.
pub proof fn lemma_toggle_touches_one_bit(flags: u16)
    ensures
        enabled(raised(flags)),
        !enabled(lowered(flags)),
        raised(flags) & !UP == flags & !UP,
        lowered(flags) & !UP == flags & !UP,
        enabled(flags) ==> raised(flags) == flags,
        !enabled(flags) ==> lowered(flags) == flags,
{
    assert(((flags | 0x1u16) & 0x1u16) != 0) by (bit_vector);
    assert(((flags & !0x1u16) & 0x1u16) == 0) by (bit_vector);
    assert((flags | 0x1u16) & !0x1u16 == flags & !0x1u16) by (bit_vector);
    assert((flags & !0x1u16) & !0x1u16 == flags & !0x1u16) by (bit_vector);
    assert((flags & 0x1u16) != 0 ==> (flags | 0x1u16) == flags) by (bit_vector);
    assert((flags & 0x1u16) == 0 ==> (flags & !0x1u16) == flags) by (bit_vector);
}

/// Raising twice is raising once; lowering twice is lowering once.
pub proof fn lemma_toggle_idempotent(flags: u16)
    ensures
        raised(raised(flags)) == raised(flags),
        lowered(lowered(flags)) == lowered(flags),
{
    assert((flags | 0x1u16) | 0x1u16 == flags | 0x1u16) by (bit_vector);
    assert((flags & !0x1u16) & !0x1u16 == flags & !0x1u16) by (bit_vector);
}

} // verus!
