//! The global descriptor table: its entries, the segment descriptors that go
//! in it, and the selectors that name them.
use vstd::prelude::*;
use crate::bits::{field_u64, with_field_u64, lemma_field_le_mask_u64};
use crate::memory::{Addr, canonicalize, ADDR_SPACE_END};
use crate::num::Integer;

verus! {

/// The number of entries of the table.
pub const GDT_MAX_ENTRY_SIZE: usize = 8;
/// The size in bytes of the table: its entries and the next free index.
pub const GDT_SIZE: usize = 72;
/// The size in bytes of a task state segment.
pub const TSS_SIZE: u64 = 104;

/// The present bit of a descriptor.
pub const PRESENT: u64 = 0x8000_0000_0000;
/// The writable bit of a data segment.
pub const WRITABLE: u64 = 0x200_0000_0000;
/// The accessed bit.
pub const ACCESSED: u64 = 0x100_0000_0000;
/// The bit of code and data segments.
pub const NON_SYSTEM_SEGMENT: u64 = 0x1000_0000_0000;
/// The low bits of the limit.
pub const LIMIT_0_15: u64 = 0xffff;
/// The value set for the high bits of the limit: the low sixteen bits, which
/// repeat the low limit rather than sit at bits 48 to 51.
pub const LIMIT_16_19: u64 = 0xffff;
/// The granularity bit.
pub const GRANULARITY: u64 = 0x80_0000_0000_0000;
/// The default operand size bit.
pub const DEFAULT_OP_SIZE: u64 = 0x40_0000_0000_0000;
/// The long mode bit of a code segment.
pub const LONG_MODE: u64 = 0x20_0000_0000_0000;
/// The executable bit.
pub const EXECUTABLE: u64 = 0x800_0000_0000;
/// The bits that every code and data segment sets.
pub const USED_BY_ALL: u64 = 0x80_9300_0000_ffff;
/// A data segment descriptor.
pub const DATA_SEGMENT: u64 = 0xc0_9300_0000_ffff;
/// A code segment descriptor.
pub const CODE_SEGMENT: u64 = 0xa0_9b00_0000_ffff;

/// The bits that every code and data segment sets are those of its flags.
pub proof fn lemma_segment_flags()
    ensures
        USED_BY_ALL == NON_SYSTEM_SEGMENT | GRANULARITY | LIMIT_0_15 | LIMIT_16_19 | ACCESSED | PRESENT | WRITABLE,
        DATA_SEGMENT == USED_BY_ALL | DEFAULT_OP_SIZE,
        CODE_SEGMENT == USED_BY_ALL | EXECUTABLE | LONG_MODE,
{
    assert(0x80_9300_0000_ffffu64 == 0x1000_0000_0000u64 | 0x80_0000_0000_0000u64 | 0xffffu64 | 0xffffu64
        | 0x100_0000_0000u64 | 0x8000_0000_0000u64 | 0x200_0000_0000u64) by (bit_vector);
    assert(0xc0_9300_0000_ffffu64 == 0x80_9300_0000_ffffu64 | 0x40_0000_0000_0000u64) by (bit_vector);
    assert(0xa0_9b00_0000_ffffu64 == 0x80_9300_0000_ffffu64 | 0x800_0000_0000u64 | 0x20_0000_0000_0000u64)
        by (bit_vector);
}

/// A segment descriptor: a system one takes two entries, a code or data one
/// takes one.
#[derive(Copy, Clone, Debug, PartialEq, Eq, Structural)]
pub enum Descriptor {
    /// A system segment descriptor, such as a task state segment's: its low
    /// and its high entry.
    SystemSegment(u64, u64),
    /// A code or data segment descriptor.
    NonSystemSegment(u64),
}

/// The low entry of the descriptor of a task state segment at `base`: the
/// limit in bits 0 to 15, the base in bits 16 to 39 and 56 to 63, the type
/// of an available 64-bit task state segment in bits 40 to 43, present.
pub open spec fn tss_low(base: u64, limit: u64) -> u64 {
    with_field_u64(
        with_field_u64(
            with_field_u64(
                with_field_u64(PRESENT, 16, 24, field_u64(base, 0, 24)),
                56,
                8,
                field_u64(base, 24, 8),
            ),
            0,
            16,
            limit,
        ),
        40,
        4,
        9,
    )
}

/// The high entry of the descriptor of a task state segment at `base`: the
/// high half of the base.
pub open spec fn tss_high(base: u64) -> u64 {
    with_field_u64(0, 0, 32, field_u64(base, 32, 32))
}

impl Descriptor {
    /// The code segment of long mode.
    pub fn code_segment() -> (r: Descriptor)
        ensures
            r == Descriptor::NonSystemSegment(CODE_SEGMENT),
    {
        Descriptor::NonSystemSegment(CODE_SEGMENT)
    }

    /// The data segment.
    pub fn data_segment() -> (r: Descriptor)
        ensures
            r == Descriptor::NonSystemSegment(DATA_SEGMENT),
    {
        Descriptor::NonSystemSegment(DATA_SEGMENT)
    }

    /// The descriptor of the task state segment at address `tss_addr`.
    pub fn tss_segment(tss_addr: u64) -> (r: Descriptor)
        ensures
            r == Descriptor::SystemSegment(tss_low(tss_addr, (TSS_SIZE - 1) as u64), tss_high(tss_addr)),
    {
        proof {
            lemma_field_le_mask_u64(tss_addr, 32, 32);
            lemma_field_le_mask_u64(tss_addr, 0, 24);
            lemma_field_le_mask_u64(tss_addr, 24, 8);
            assert((TSS_SIZE - 1) as u64 <= crate::bits::mask_u64(16)) by (bit_vector);
            assert(9u64 <= crate::bits::mask_u64(4)) by (bit_vector);
            crate::num::lemma_bit_lengths();
        }
        let mut high: u64 = 0;
        high.set_bits(0..32, tss_addr.get_bits(32..64));
        let mut low: u64 = PRESENT;
        low.set_bits(16..40, tss_addr.get_bits(0..24));
        low.set_bits(56..64, tss_addr.get_bits(24..32));
        low.set_bits(0..16, TSS_SIZE - 1);
        low.set_bits(40..44, 0b1001);
        Descriptor::SystemSegment(low, high)
    }
}

/// A segment's selector: its index in the table times eight.
#[derive(Copy, Clone, Debug, PartialEq, Eq, Structural)]
pub struct SegmentSelector(pub u16);

impl SegmentSelector {
    /// The selector of the entry at `index`.
    pub fn new(index: u16) -> (r: SegmentSelector)
        requires
            index * 8 <= u16::MAX,
        ensures
            r.0 == index * 8,
    {
        SegmentSelector(index * 8)
    }
}

/// What the processor loads to find a descriptor table: its last byte's
/// offset and its address.
#[derive(Copy, Clone, Debug, PartialEq, Eq, Structural)]
pub struct DescriptorTablePointer {
    pub limit: u16,
    pub base: Addr,
}

/// The global descriptor table: a null entry first, then the entries added.
pub struct GlobalDescriptorTable {
    entries: std::vec::Vec<u64>,
    next_index: usize,
}

impl GlobalDescriptorTable {
    /// The entries.
    pub closed spec fn spec_entries(&self) -> Seq<u64> {
        self.entries@
    }

    /// The index of the next free entry.
    pub closed spec fn spec_next_index(&self) -> usize {
        self.next_index
    }

    /// The table has its eight entries and a next index within them.
    pub closed spec fn wf(&self) -> bool {
        self.entries@.len() == GDT_MAX_ENTRY_SIZE && 1 <= self.next_index <= GDT_MAX_ENTRY_SIZE
    }

    /// A table of null entries whose first free entry is the second.
    pub fn new() -> (r: GlobalDescriptorTable)
        ensures
            r.wf(),
            r.spec_entries() == Seq::new(GDT_MAX_ENTRY_SIZE as nat, |i: int| 0u64),
            r.spec_next_index() == 1,
    {
        let mut entries: std::vec::Vec<u64> = std::vec::Vec::new();
        while entries.len() < GDT_MAX_ENTRY_SIZE
            invariant
                entries.len() <= GDT_MAX_ENTRY_SIZE,
                forall|i: int| 0 <= i < entries.len() ==> entries@[i] == 0,
            decreases GDT_MAX_ENTRY_SIZE - entries.len(),
        {
            entries.push(0);
        }
        assert(entries@ =~= Seq::new(GDT_MAX_ENTRY_SIZE as nat, |i: int| 0u64));
        GlobalDescriptorTable { entries, next_index: 1 }
    }

    /// Puts a descriptor in the next free entries and returns its selector.
    pub fn add_entry(&mut self, descriptor: Descriptor) -> (r: SegmentSelector)
        requires
            old(self).wf(),
            descriptor matches Descriptor::SystemSegment(_, _) ==> GDT_MAX_ENTRY_SIZE - old(self).spec_next_index()
                >= 2,
            descriptor matches Descriptor::NonSystemSegment(_) ==> old(self).spec_next_index() < GDT_MAX_ENTRY_SIZE,
        ensures
            final(self).wf(),
            r.0 == old(self).spec_next_index() * 8,
            match descriptor {
                Descriptor::SystemSegment(lower, higher) => {
                    &&& final(self).spec_entries() == old(self).spec_entries().update(
                        old(self).spec_next_index() as int,
                        lower,
                    ).update(old(self).spec_next_index() + 1, higher)
                    &&& final(self).spec_next_index() == old(self).spec_next_index() + 2
                },
                Descriptor::NonSystemSegment(value) => {
                    &&& final(self).spec_entries() == old(self).spec_entries().update(
                        old(self).spec_next_index() as int,
                        value,
                    )
                    &&& final(self).spec_next_index() == old(self).spec_next_index() + 1
                },
            },
    {
        match descriptor {
            Descriptor::SystemSegment(lower, higher) => {
                self.entries.set(self.next_index, lower);
                self.entries.set(self.next_index + 1, higher);
                self.next_index = self.next_index + 2;
                SegmentSelector::new((self.next_index - 2) as u16)
            },
            Descriptor::NonSystemSegment(value) => {
                self.entries.set(self.next_index, value);
                self.next_index = self.next_index + 1;
                SegmentSelector::new((self.next_index - 1) as u16)
            },
        }
    }

    /// The entries, in the order the processor reads them.
    pub fn entries(&self) -> (r: &[u64])
        ensures
            r@ == self.spec_entries(),
    {
        self.entries.as_slice()
    }

    /// The pointer that loads the table when it lies at address `addr`.
    pub fn as_pointer(&self, addr: u64) -> (r: DescriptorTablePointer)
        requires
            addr < ADDR_SPACE_END,
        ensures
            r.limit == GDT_SIZE - 1,
            r.base.0 == canonicalize(addr),
    {
        DescriptorTablePointer { limit: (GDT_SIZE - 1) as u16, base: Addr::new(addr) }
    }
}

} // verus!
