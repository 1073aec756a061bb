//! The frame layout model: pure arithmetic mapping a function's
//! parameters and locals to byte displacements from the frame pointer,
//! and module globals to fixed absolute addresses.
//!
//! Each slot is 4 bytes: two 16-bit limbs, the high limb at the smaller
//! displacement. Slot 0 sits farthest from the frame pointer's reference
//! point in displacement terms: slot `i` of a frame with `total` slots
//! starts at displacement `4 * (total - i)`. Because the indexed
//! addressing mode encodes displacements as an 8-bit signed quantity,
//! the whole frame must fit below displacement 128.

use vstd::prelude::*;

verus! {

/// Number of slots in the fixed global table.
pub const MAX_GLOBALS: usize = 3;

/// Absolute address of global slot 0; later globals sit 4 bytes lower each.
pub const GLOBAL_BASE: u16 = 0xFFF8;

/// Whether a frame of `total` parameter + local slots fits the 8-bit
/// signed displacement window.
pub open spec fn frame_fits(total: nat) -> bool {
    4 * total + 3 <= 127
}

/// Displacement of the first byte of slot `i` in a frame of `total` slots.
pub open spec fn slot_disp(total: nat, i: nat) -> int {
    4 * (total - i)
}

/// Absolute address of the first byte of global `g`.
pub open spec fn global_addr(g: nat) -> int {
    GLOBAL_BASE - 4 * g
}

/// Exec check that a frame of `params + locals` slots fits the window.
pub fn frame_check(params: usize, locals: usize) -> (r: bool)
    ensures
        r == frame_fits((params + locals) as nat),
{
    params <= 31 && locals <= 31 - params
}

/// Exec computation of a slot's base displacement.
pub fn slot_base(total: usize, i: usize) -> (r: u8)
    requires
        i < total,
        frame_fits(total as nat),
    ensures
        r == slot_disp(total as nat, i as nat),
        r + 3 <= 127,
{
    ((total - i) * 4) as u8
}

/// Exec computation of a global's absolute address.
pub fn global_base(g: usize) -> (r: u16)
    requires
        g < MAX_GLOBALS,
    ensures
        r == global_addr(g as nat),
{
    GLOBAL_BASE - 4 * (g as u16)
}

/// Distinct slots of one frame occupy disjoint 4-byte ranges, so no
/// local or parameter can alias another.
pub proof fn lemma_slots_disjoint(total: nat, i: nat, j: nat)
    requires
        i < total,
        j < total,
        i != j,
    ensures
        slot_disp(total, i) + 4 <= slot_disp(total, j) || slot_disp(total, j) + 4
            <= slot_disp(total, i),
{
}

/// Every byte of every slot of a fitting frame lies inside the 8-bit
/// signed displacement window.
pub proof fn lemma_slot_in_window(total: nat, i: nat)
    requires
        i < total,
        frame_fits(total),
    ensures
        1 <= slot_disp(total, i),
        slot_disp(total, i) + 3 <= 127,
{
}

/// Distinct globals occupy disjoint 4-byte ranges.
pub proof fn lemma_globals_disjoint(g1: nat, g2: nat)
    requires
        g1 < MAX_GLOBALS,
        g2 < MAX_GLOBALS,
        g1 != g2,
    ensures
        global_addr(g1) + 4 <= global_addr(g2) || global_addr(g2) + 4 <= global_addr(g1),
{
}

} // verus!
