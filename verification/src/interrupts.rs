//! The interrupt descriptor table: its entries, their options, and the
//! numbers of the exceptions and interrupt lines.
use vstd::prelude::*;
use crate::memory::{Addr, canonicalize, ADDR_SPACE_END};
use crate::num::Integer;
use crate::gdt::DescriptorTablePointer;

verus! {

/// The number of entries for interrupts, after the 32 for exceptions.
pub const NO_OF_INTERRUPTS: usize = 224;
/// The number of entries for exceptions.
pub const NO_OF_EXCEPTIONS: usize = 32;
/// The size in bytes of an entry.
pub const IDT_ENTRY_SIZE: usize = 16;

/// The exceptions of the processor.
#[derive(Copy, Clone, Debug, PartialEq, Eq, Structural)]
pub enum CPUException {
    DivideByZero,
    Debug,
    NonMaskableInterrupt,
    Breakpoint,
    Overflow,
    BoundRangeExceeded,
    InvalidOpcode,
    DeviceNotAvailable,
    DoubleFault,
    InvalidTss,
    SegmentNotPresent,
    StackSegmentFault,
    GeneralProtectionFault,
    PageFault,
    X87FloatingPoint,
    AlignmentCheck,
    MachineCheck,
    SIMDFloatingPoint,
    Virtualization,
    ControlProtection,
    HypervisorInjection,
    VMMCommunication,
    Security,
}

/// The vector of an exception.
pub open spec fn exception_vector(e: CPUException) -> u8 {
    match e {
        CPUException::DivideByZero => 0x0,
        CPUException::Debug => 0x1,
        CPUException::NonMaskableInterrupt => 0x2,
        CPUException::Breakpoint => 0x3,
        CPUException::Overflow => 0x4,
        CPUException::BoundRangeExceeded => 0x5,
        CPUException::InvalidOpcode => 0x6,
        CPUException::DeviceNotAvailable => 0x7,
        CPUException::DoubleFault => 0x8,
        CPUException::InvalidTss => 0xa,
        CPUException::SegmentNotPresent => 0xb,
        CPUException::StackSegmentFault => 0xc,
        CPUException::GeneralProtectionFault => 0xd,
        CPUException::PageFault => 0xe,
        CPUException::X87FloatingPoint => 0x10,
        CPUException::AlignmentCheck => 0x11,
        CPUException::MachineCheck => 0x12,
        CPUException::SIMDFloatingPoint => 0x13,
        CPUException::Virtualization => 0x14,
        CPUException::ControlProtection => 0x15,
        CPUException::HypervisorInjection => 0x1c,
        CPUException::VMMCommunication => 0x1d,
        CPUException::Security => 0x1e,
    }
}

impl CPUException {
    /// The vector of the exception.
    pub fn as_u8(&self) -> (r: u8)
        ensures
            r == exception_vector(*self),
    {
        match *self {
            CPUException::DivideByZero => 0x0,
            CPUException::Debug => 0x1,
            CPUException::NonMaskableInterrupt => 0x2,
            CPUException::Breakpoint => 0x3,
            CPUException::Overflow => 0x4,
            CPUException::BoundRangeExceeded => 0x5,
            CPUException::InvalidOpcode => 0x6,
            CPUException::DeviceNotAvailable => 0x7,
            CPUException::DoubleFault => 0x8,
            CPUException::InvalidTss => 0xa,
            CPUException::SegmentNotPresent => 0xb,
            CPUException::StackSegmentFault => 0xc,
            CPUException::GeneralProtectionFault => 0xd,
            CPUException::PageFault => 0xe,
            CPUException::X87FloatingPoint => 0x10,
            CPUException::AlignmentCheck => 0x11,
            CPUException::MachineCheck => 0x12,
            CPUException::SIMDFloatingPoint => 0x13,
            CPUException::Virtualization => 0x14,
            CPUException::ControlProtection => 0x15,
            CPUException::HypervisorInjection => 0x1c,
            CPUException::VMMCommunication => 0x1d,
            CPUException::Security => 0x1e,
        }
    }
}

/// The options of an entry: the interrupt stack index plus one in bits 0
/// to 2, and bit 15 set when the entry is in use.
#[derive(Copy, Clone, Debug, PartialEq, Eq, Structural)]
pub struct IDTEntryOptions(pub u16);

impl IDTEntryOptions {
    /// The options of an interrupt gate that is not present.
    pub fn new() -> (r: IDTEntryOptions)
        ensures
            r.0 == 0b1110_0000_0000,
    {
        IDTEntryOptions(0b1110_0000_0000)
    }

    /// Sets or clears the present bit.
    pub fn set_present(&mut self, present: bool)
        ensures
            final(self).0 == crate::bits::with_bit_u16(old(self).0, 15, present),
    {
        proof {
            crate::num::lemma_bit_lengths();
        }
        if present {
            self.0.set_bit(15);
        } else {
            self.0.unset_bit(15);
        }
    }

    /// Makes the handler run on the interrupt stack `index` (counted from 0).
    pub fn set_ist_stack_index(&mut self, index: u16)
        requires
            index + 1 <= 7,
        ensures
            final(self).0 == crate::bits::with_field_u16(old(self).0, 0, 3, (index + 1) as u16),
    {
        proof {
            crate::num::lemma_bit_lengths();
            assert((index + 1) as u16 <= crate::bits::mask_u16(3)) by (bit_vector)
                requires
                    index + 1 <= 7,
            ;
        }
        self.0.set_bits(0..3, index + 1);
    }
}

/// An entry of the interrupt descriptor table.
#[derive(Copy, Clone, Debug, PartialEq, Eq, Structural)]
pub struct IDTEntry {
    /// Bits 0 to 15 of the handler's address.
    pub handler_ptr_low: u16,
    /// The code segment selector.
    pub gdt_selector: u16,
    pub options: IDTEntryOptions,
    /// Bits 16 to 31 of the handler's address.
    pub handler_ptr_middle: u16,
    /// Bits 32 to 63 of the handler's address.
    pub handler_ptr_high: u32,
    pub reserved: u32,
}

/// The handler's address that an entry holds.
pub open spec fn handler_addr(e: IDTEntry) -> int {
    e.handler_ptr_low + e.handler_ptr_middle * 0x1_0000 + e.handler_ptr_high * 0x1_0000_0000
}

impl IDTEntry {
    /// An entry with no handler, not present.
    pub fn empty() -> (r: IDTEntry)
        ensures
            r.handler_ptr_low == 0 && r.handler_ptr_middle == 0 && r.handler_ptr_high == 0,
            r.gdt_selector == 0,
            r.options.0 == 0b1110_0000_0000,
            r.reserved == 0,
    {
        IDTEntry {
            handler_ptr_low: 0,
            gdt_selector: 0,
            options: IDTEntryOptions::new(),
            handler_ptr_middle: 0,
            handler_ptr_high: 0,
            reserved: 0,
        }
    }

    /// Points the entry at the handler at `handler` in the code segment
    /// `code_segment`, and marks it present.
    pub fn set_handler_addr(&mut self, handler: Addr, code_segment: u16)
        ensures
            handler_addr(*final(self)) == handler.0,
            final(self).gdt_selector == code_segment,
            final(self).options.0 == crate::bits::with_bit_u16(old(self).options.0, 15, true),
            final(self).reserved == old(self).reserved,
    {
        let h = handler.as_u64();
        let low = h as u16;
        let middle = (h >> 16u64) as u16;
        let high = (h >> 32u64) as u32;
        assert(low + middle * 0x1_0000 + high * 0x1_0000_0000 == h) by (bit_vector)
            requires
                low == h as u16,
                middle == (h >> 16u64) as u16,
                high == (h >> 32u64) as u32,
        ;
        self.handler_ptr_low = low;
        self.handler_ptr_middle = middle;
        self.handler_ptr_high = high;
        self.gdt_selector = code_segment;
        self.options.set_present(true);
    }

    /// The two words the processor reads for the entry, lowest first: the
    /// handler's low bits, the selector, the options and the handler's middle
    /// bits, then the handler's high bits and the reserved word.
    pub fn as_words(&self) -> (r: [u64; 2])
        ensures
            r[0] == self.handler_ptr_low + self.gdt_selector * 0x1_0000 + self.options.0 * 0x1_0000_0000
                + self.handler_ptr_middle * 0x1_0000_0000_0000,
            r[1] == self.handler_ptr_high + self.reserved * 0x1_0000_0000,
    {
        let low = self.handler_ptr_low as u64 + (self.gdt_selector as u64) * 0x1_0000 + (self.options.0 as u64)
            * 0x1_0000_0000 + (self.handler_ptr_middle as u64) * 0x1_0000_0000_0000;
        let high = self.handler_ptr_high as u64 + (self.reserved as u64) * 0x1_0000_0000;
        [low, high]
    }

    /// Makes the handler run on the interrupt stack `index` (counted from 0).
    pub fn set_ist_stack_index(&mut self, index: u16)
        requires
            index + 1 <= 7,
        ensures
            final(self).options.0 == crate::bits::with_field_u16(old(self).options.0, 0, 3, (index + 1) as u16),
            handler_addr(*final(self)) == handler_addr(*old(self)),
            final(self).gdt_selector == old(self).gdt_selector,
    {
        self.options.set_ist_stack_index(index);
    }
}

/// The interrupt lines in use, numbered from the first interrupt entry.
#[derive(Copy, Clone, Debug, PartialEq, Eq, Structural)]
pub enum IRQ {
    Timer,
    Keyboard,
    /// Line 11, generally free, is used for sound.
    Sound,
}

/// The number of an interrupt line.
pub open spec fn irq_number(irq: IRQ) -> u8 {
    match irq {
        IRQ::Timer => 0,
        IRQ::Keyboard => 1,
        IRQ::Sound => 11,
    }
}

impl IRQ {
    /// The number of the line.
    pub fn as_u8(&self) -> (r: u8)
        ensures
            r == irq_number(*self),
    {
        match *self {
            IRQ::Timer => 0,
            IRQ::Keyboard => 1,
            IRQ::Sound => 11,
        }
    }
}

/// What the processor pushes on the stack for an interrupt.
#[derive(Copy, Clone, Debug, PartialEq, Eq, Structural)]
pub struct InterruptStackFrame {
    pub original_instr_ptr: Addr,
    pub code_segment: u64,
    pub flags: u64,
    pub original_stack_ptr: Addr,
    pub stack_segment: u64,
}

/// A selector of the code segment register.
#[derive(Copy, Clone, Debug, PartialEq, Eq, Structural)]
pub struct SegmentSelector(pub u16);

/// The code segment register, as last read.
#[derive(Copy, Clone, Debug, PartialEq, Eq, Structural)]
pub struct CS(pub SegmentSelector);

/// The interrupt descriptor table: 32 entries for exceptions, then 224 for
/// interrupts.
pub struct InterruptDescriptorTable {
    pub exceptions: std::vec::Vec<IDTEntry>,
    pub interrupts: std::vec::Vec<IDTEntry>,
}

impl InterruptDescriptorTable {
    /// The table has all its entries.
    pub open spec fn wf(&self) -> bool {
        self.exceptions@.len() == NO_OF_EXCEPTIONS && self.interrupts@.len() == NO_OF_INTERRUPTS
    }

    /// A table of empty entries.
    pub fn new() -> (r: InterruptDescriptorTable)
        ensures
            r.wf(),
            forall|i: int| 0 <= i < NO_OF_EXCEPTIONS ==> #[trigger] r.exceptions@[i] == IDTEntry::empty_spec(),
            forall|i: int| 0 <= i < NO_OF_INTERRUPTS ==> #[trigger] r.interrupts@[i] == IDTEntry::empty_spec(),
    {
        let mut exceptions: std::vec::Vec<IDTEntry> = std::vec::Vec::new();
        while exceptions.len() < NO_OF_EXCEPTIONS
            invariant
                exceptions.len() <= NO_OF_EXCEPTIONS,
                forall|i: int| 0 <= i < exceptions.len() ==> #[trigger] exceptions@[i] == IDTEntry::empty_spec(),
            decreases NO_OF_EXCEPTIONS - exceptions.len(),
        {
            exceptions.push(IDTEntry::empty());
        }
        let mut interrupts: std::vec::Vec<IDTEntry> = std::vec::Vec::new();
        while interrupts.len() < NO_OF_INTERRUPTS
            invariant
                interrupts.len() <= NO_OF_INTERRUPTS,
                forall|i: int| 0 <= i < interrupts.len() ==> #[trigger] interrupts@[i] == IDTEntry::empty_spec(),
            decreases NO_OF_INTERRUPTS - interrupts.len(),
        {
            interrupts.push(IDTEntry::empty());
        }
        InterruptDescriptorTable { exceptions, interrupts }
    }

    /// The entry for vector `index`, one of the interrupts 32 to 255.
    pub fn entry(&self, index: usize) -> (r: IDTEntry)
        requires
            self.wf(),
            32 <= index <= 255,
        ensures
            r == self.interrupts@[index - 32],
    {
        self.interrupts[index - 32]
    }

    /// The entry for an interrupt line.
    pub fn irq_entry(&self, irq: IRQ) -> (r: IDTEntry)
        requires
            self.wf(),
        ensures
            r == self.interrupts@[irq_number(irq) as int],
    {
        self.interrupts[irq.as_u8() as usize]
    }

    /// Replaces the entry for vector `index`, one of the interrupts 32 to 255.
    pub fn set_entry(&mut self, index: usize, entry: IDTEntry)
        requires
            old(self).wf(),
            32 <= index <= 255,
        ensures
            final(self).wf(),
            final(self).interrupts@ == old(self).interrupts@.update(index - 32, entry),
            final(self).exceptions@ == old(self).exceptions@,
    {
        self.interrupts.set(index - 32, entry);
    }

    /// Replaces the entry for an interrupt line.
    pub fn set_irq_entry(&mut self, irq: IRQ, entry: IDTEntry)
        requires
            old(self).wf(),
        ensures
            final(self).wf(),
            final(self).interrupts@ == old(self).interrupts@.update(irq_number(irq) as int, entry),
            final(self).exceptions@ == old(self).exceptions@,
    {
        self.interrupts.set(irq.as_u8() as usize, entry);
    }

    /// Replaces the entry for an exception.
    pub fn set_exception_entry(&mut self, exception: CPUException, entry: IDTEntry)
        requires
            old(self).wf(),
        ensures
            final(self).wf(),
            final(self).exceptions@ == old(self).exceptions@.update(exception_vector(exception) as int, entry),
            final(self).interrupts@ == old(self).interrupts@,
    {
        self.exceptions.set(exception.as_u8() as usize, entry);
    }

    /// The pointer that loads the table when it lies at address `addr`.
    pub fn as_pointer(&self, addr: u64) -> (r: DescriptorTablePointer)
        requires
            addr < ADDR_SPACE_END,
        ensures
            r.limit == IDT_ENTRY_SIZE * 256 - 1,
            r.base.0 == canonicalize(addr),
    {
        DescriptorTablePointer { limit: (IDT_ENTRY_SIZE * 256 - 1) as u16, base: Addr::new(addr) }
    }
}

impl IDTEntry {
    /// An entry with no handler, not present.
    pub open spec fn empty_spec() -> IDTEntry {
        IDTEntry {
            handler_ptr_low: 0,
            gdt_selector: 0,
            options: IDTEntryOptions(0b1110_0000_0000),
            handler_ptr_middle: 0,
            handler_ptr_high: 0,
            reserved: 0,
        }
    }
}

} // verus!
