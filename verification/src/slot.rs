//! Slots: the fixed-size tagged values held by operand stacks and local
//! variables. A slot is an integer, an opaque object handle, or
//! uninitialized, regardless of the logical type it carries.

use vstd::prelude::*;

verus! {

/// What a slot holds.
#[derive(Debug, Clone, Copy, PartialEq, Eq, Structural)]
pub enum SlotTag {
    Int,
    /// An opaque object handle; the handle value 0 stands for the null
    /// reference.
    ObjectRef,
    Uninitialized,
}

/// One fixed-size value slot: a tag and the number it carries. An `Int` slot
/// carries its integer in `num`; an `ObjectRef` slot carries its opaque
/// handle there; an `Uninitialized` slot carries 0.
#[derive(Debug, Clone, Copy, PartialEq, Eq, Structural)]
pub struct Slot {
    pub tag: SlotTag,
    pub num: i64,
}

/// A maker of uninitialized slots, the state of every fresh local.
pub struct EmptySlot {}

impl EmptySlot {
    pub fn new() -> (r: Slot)
        ensures
            r.tag is Uninitialized,
            r.num == 0,
    {
        Slot { tag: SlotTag::Uninitialized, num: 0 }
    }
}

/// A maker of integer slots.
pub struct IntSlot {}

impl IntSlot {
    pub fn new(n: i32) -> (r: Slot)
        ensures
            r.tag is Int,
            r.num == n,
    {
        Slot { tag: SlotTag::Int, num: n as i64 }
    }
}

/// The null reference: an object handle of 0.
pub fn null_slot() -> (r: Slot)
    ensures
        r.tag is ObjectRef,
        r.num == 0,
{
    Slot { tag: SlotTag::ObjectRef, num: 0 }
}

} // verus!
