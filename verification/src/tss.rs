//! The task state segment: the stacks that the processor switches to.
use vstd::prelude::*;
use crate::memory::Addr;

verus! {

/// The stack tables of the task state segment.
#[derive(Copy, Clone, Debug)]
pub struct TaskStateSegment {
    pub reserved1: u32,
    /// The stack pointers for the privilege levels.
    pub privilege_stack_table: [Addr; 3],
    pub reserved2: u64,
    /// The stack pointers that an interrupt descriptor's stack index picks.
    pub interrupt_stack_table: [Addr; 7],
    pub reserved3: u64,
    pub reserved4: u16,
    /// The offset of the I/O permission bit map from the segment's base.
    pub io_map_base_addr: u16,
}

impl TaskStateSegment {
    /// A segment with all stack pointers 0 and no I/O permission bit map:
    /// the map's offset is the segment's size.
    pub fn new() -> (r: TaskStateSegment)
        ensures
            forall|i: int| 0 <= i < 3 ==> #[trigger] r.privilege_stack_table@[i] == Addr(0),
            forall|i: int| 0 <= i < 7 ==> #[trigger] r.interrupt_stack_table@[i] == Addr(0),
            r.io_map_base_addr == crate::gdt::TSS_SIZE,
            r.reserved1 == 0 && r.reserved2 == 0 && r.reserved3 == 0 && r.reserved4 == 0,
    {
        TaskStateSegment {
            reserved1: 0,
            privilege_stack_table: [Addr(0), Addr(0), Addr(0)],
            reserved2: 0,
            interrupt_stack_table: [Addr(0), Addr(0), Addr(0), Addr(0), Addr(0), Addr(0), Addr(0)],
            reserved3: 0,
            reserved4: 0,
            io_map_base_addr: crate::gdt::TSS_SIZE as u16,
        }
    }
}

} // verus!
