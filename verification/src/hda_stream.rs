//! PCI configuration values, buffer descriptor lists and the command and
//! response ring buffers of an HDA controller.
use vstd::prelude::*;
use crate::bits;
use crate::hda_regs::{
    HDACORBSizeReg, HDAGlobalCapabilitiesReg, HDAInterruptControlReg, HDARIRBSizeReg, HDARingBufferSize,
    HDARingBufferSizeCapability,
};
use crate::hda_codec::{HDANodeCommand, HDANodeResponse};

verus! {

/// The header type register of a PCI configuration header.
#[derive(Clone, Copy, Debug, PartialEq, Eq, Structural)]
pub struct PCIHeaderTypeReg(pub u8);

/// The layout of a PCI configuration header.
#[derive(Clone, Copy, Debug, PartialEq, Eq, Structural)]
pub enum PCIHeaderType {
    Standard,
    PCIToPCIBridge,
    CardBusBridge,
}

impl PCIHeaderTypeReg {
    /// Whether the device has more than one function.
    pub fn has_multiple_funcs(&self) -> (r: bool)
        ensures
            r == bits::bit_u8(self.0, 7),
    {
        bits::get_bit_u8(self.0, 7)
    }

    /// The layout of the header; an unknown layout is an error.
    pub fn header_type(&self) -> (r: Result<PCIHeaderType, &'static str>)
        ensures
            bits::field_u8(self.0, 0, 7) == 0 ==> r == Ok::<PCIHeaderType, &'static str>(PCIHeaderType::Standard),
            bits::field_u8(self.0, 0, 7) == 1 ==> r == Ok::<PCIHeaderType, &'static str>(PCIHeaderType::PCIToPCIBridge),
            bits::field_u8(self.0, 0, 7) == 2 ==> r == Ok::<PCIHeaderType, &'static str>(PCIHeaderType::CardBusBridge),
            bits::field_u8(self.0, 0, 7) > 2 ==> r is Err,
    {
        let v = bits::get_field_u8(self.0, 0, 7);
        if v == 0 {
            Ok(PCIHeaderType::Standard)
        } else if v == 1 {
            Ok(PCIHeaderType::PCIToPCIBridge)
        } else if v == 2 {
            Ok(PCIHeaderType::CardBusBridge)
        } else {
            Err("This header type register value has an unexpected header type number")
        }
    }
}

/// A memory base address register: its low and high words.
#[derive(Clone, Copy, Debug, PartialEq, Eq, Structural)]
pub struct MemBAR(pub u32, pub u32);

/// Whether a memory base address register holds a 32-bit or 64-bit address.
pub open spec fn mem_bar_type_known(bar: MemBAR) -> bool {
    bits::field_u32(bar.0, 1, 2) == 0 || bits::field_u32(bar.0, 1, 2) == 2
}

/// The 16-byte aligned address of a memory base address register.
pub open spec fn mem_bar_addr(bar: MemBAR) -> u64 {
    if bits::field_u32(bar.0, 1, 2) == 0 {
        (bar.0 & 0xffff_fff0) as u64
    } else {
        ((bar.0 & 0xffff_fff0) as u64 + ((bar.1 as u64) << 32u64)) as u64
    }
}

impl MemBAR {
    /// The 16-byte aligned base address.
    pub fn addr(&self) -> (r: u64)
        requires
            mem_bar_type_known(*self),
        ensures
            r == mem_bar_addr(*self),
    {
        let lo_word = self.0;
        let low = (lo_word & 0xffff_fff0) as u64;
        assert(low <= 0xffff_fff0) by (bit_vector)
            requires
                low == (lo_word & 0xffff_fff0) as u64,
        ;
        if bits::get_field_u32(self.0, 1, 2) == 0 {
            low
        } else {
            let hi_word = self.1;
            let high = (hi_word as u64) << 32u64;
            assert(low + high <= u64::MAX) by (bit_vector)
                requires
                    low <= 0xffff_fff0,
                    high == (hi_word as u64) << 32u64,
            ;
            low + high
        }
    }
}

/// An I/O space base address register.
#[derive(Clone, Copy, Debug, PartialEq, Eq, Structural)]
pub struct IOBAR(pub u32);

impl IOBAR {
    /// The 4-byte aligned base address.
    pub fn addr(&self) -> (r: u64)
        ensures
            r == (self.0 & 0xffff_fffc) as u64,
    {
        (self.0 & 0xffff_fffc) as u64
    }
}

/// A base address register of a PCI device.
#[derive(Clone, Copy, Debug, PartialEq, Eq, Structural)]
pub enum PCIBaseAddrReg {
    Memory(MemBAR),
    IO(IOBAR),
}

/// The address space that a base address register maps.
#[derive(Clone, Copy, Debug, PartialEq, Eq, Structural)]
pub enum PCIBaseAddrKind {
    Memory,
    IO,
}

impl PCIBaseAddrReg {
    /// The base address.
    pub fn addr(&self) -> (r: u64)
        requires
            *self matches PCIBaseAddrReg::Memory(m) ==> mem_bar_type_known(m),
        ensures
            r == match *self {
                PCIBaseAddrReg::Memory(m) => mem_bar_addr(m),
                PCIBaseAddrReg::IO(io) => (io.0 & 0xffff_fffc) as u64,
            },
    {
        match self {
            PCIBaseAddrReg::Memory(m) => m.addr(),
            PCIBaseAddrReg::IO(io) => io.addr(),
        }
    }

    /// The address space mapped.
    pub fn kind(&self) -> (r: PCIBaseAddrKind)
        ensures
            r == match *self {
                PCIBaseAddrReg::Memory(_) => PCIBaseAddrKind::Memory,
                PCIBaseAddrReg::IO(_) => PCIBaseAddrKind::IO,
            },
    {
        match self {
            PCIBaseAddrReg::Memory(_) => PCIBaseAddrKind::Memory,
            PCIBaseAddrReg::IO(_) => PCIBaseAddrKind::IO,
        }
    }
}

/// The base address register that two consecutive words describe: bit 0 of
/// the first word tells memory space (clear) from I/O space (set).
pub open spec fn decode_bar(val: (u32, u32)) -> Result<PCIBaseAddrReg, &'static str> {
    if val.0 & 1 == 0 {
        Ok(PCIBaseAddrReg::Memory(MemBAR(val.0, val.1)))
    } else {
        Ok(PCIBaseAddrReg::IO(IOBAR(val.0)))
    }
}

impl TryFrom<(u32, u32)> for PCIBaseAddrReg {
    type Error = &'static str;

    fn try_from(val: (u32, u32)) -> (r: Result<PCIBaseAddrReg, &'static str>) {
        if val.0 & 1 == 0 {
            Ok(PCIBaseAddrReg::Memory(MemBAR(val.0, val.1)))
        } else {
            Ok(PCIBaseAddrReg::IO(IOBAR(val.0)))
        }
    }
}

impl vstd::std_specs::convert::TryFromSpecImpl<(u32, u32)> for PCIBaseAddrReg {
    open spec fn obeys_try_from_spec() -> bool {
        true
    }

    open spec fn try_from_spec(val: (u32, u32)) -> Result<PCIBaseAddrReg, &'static str> {
        decode_bar(val)
    }
}

/// A device on the PCI bus, by its bus, device and function numbers.
#[derive(Clone, Copy, Debug, PartialEq, Eq, Structural)]
pub struct PCIDevice {
    pub bus: u32,
    pub device: u32,
    pub func: u32,
}

pub const DEVICE_AND_VENDOR_ID_OFFSET: u32 = 0x0;
pub const STATUS_AND_COMMAND_OFFSET: u32 = 0x04;
pub const CLASSCODE_AND_SUBCLASS_OFFSET: u32 = 0x8;
pub const HEADER_TYPE_OFFSET: u32 = 0xc;
pub const BAR0_OFFSET: u32 = 0x10;
pub const BAR1_OFFSET: u32 = 0x14;
pub const INTERRUPT_PIN_LINE_OFFSET: u32 = 0x3c;
/// The port that selects the configuration word to read.
pub const PCI_ADDR_PORT: u16 = 0xcf8;
/// The port that gives the selected configuration word.
pub const PCI_DATA_PORT: u16 = 0xcfc;

impl PCIDevice {
    /// The value written to the address port to select the configuration word
    /// at `reg_offset`.
    pub fn reg_addr(&self, reg_offset: u32) -> (r: u32)
        ensures
            r == (self.bus << 16u32) | (self.device << 11u32) | (self.func << 8u32) | (reg_offset & 0xfc)
                | 0x8000_0000u32,
    {
        (self.bus << 16u32) | (self.device << 11u32) | (self.func << 8u32) | (reg_offset & 0xfc) | 0x8000_0000u32
    }
}

/// The vendor id in the first configuration word.
pub fn config_vendor_id(word: u32) -> (r: u16)
    ensures
        r == word as u16,
{
    word as u16
}

/// Whether a vendor id belongs to a device: the absent device reads 0xfff.
pub fn vendor_id_is_valid(vendor_id: u16) -> (r: bool)
    ensures
        r == (vendor_id != 0xfff),
{
    vendor_id != 0xfff
}

/// The class code and subclass in the third configuration word.
pub fn config_classcode_subclass(word: u32) -> (r: (u8, u8))
    ensures
        r.0 == (word >> 24u32) as u8,
        r.1 == bits::field_u32(word, 16, 8) as u8,
{
    ((word >> 24u32) as u8, bits::get_field_u32(word, 16, 8) as u8)
}

/// Whether a class code and subclass denote an HDA controller.
pub fn is_hda_class(classcode: u8, subclass: u8) -> (r: bool)
    ensures
        r == (classcode == 0x4 && subclass == 0x3),
{
    classcode == 0x4 && subclass == 0x3
}

/// The header type register in the fourth configuration word.
pub fn config_header_type(word: u32) -> (r: PCIHeaderTypeReg)
    ensures
        r.0 == bits::field_u32(word, 16, 8) as u8,
{
    PCIHeaderTypeReg(bits::get_field_u32(word, 16, 8) as u8)
}

/// The status in the second configuration word.
pub fn config_status(word: u32) -> (r: u16)
    ensures
        r == (word >> 16u32) as u16,
{
    (word >> 16u32) as u16
}

/// The command in the second configuration word.
pub fn config_command(word: u32) -> (r: u16)
    ensures
        r == word as u16,
{
    word as u16
}

/// The interrupt line in the interrupt configuration word.
pub fn config_interrupt_line(word: u32) -> (r: u8)
    ensures
        r == word as u8,
{
    word as u8
}

/// The interrupt pin in the interrupt configuration word.
pub fn config_interrupt_pin(word: u32) -> (r: u8)
    ensures
        r == (word >> 8u32) as u8,
{
    (word >> 8u32) as u8
}

/// The interrupt configuration word with `line` stored in bits 8..16.
pub fn config_with_interrupt_line(word: u32, line: u8) -> (r: u32)
    ensures
        r == bits::with_field_u32(word, 8, 8, line as u32),
{
    bits::put_field_u32(word, 8, 8, line as u32)
}

/// The command value that enables I/O space, memory space, bus mastering,
/// special cycles, memory write and invalidate, and SERR#.
pub fn command_with_memory_space_accesses(command: u16) -> (r: u16)
    ensures
        r == bits::with_bit_u16(bits::with_bit_u16(bits::with_bit_u16(bits::with_bit_u16(
            bits::with_bit_u16(bits::with_bit_u16(command, 0, true), 2, true), 3, true), 4, true), 8, true), 1, true),
{
    let val = bits::put_bit_u16(command, 0, true);
    let val = bits::put_bit_u16(val, 2, true);
    let val = bits::put_bit_u16(val, 3, true);
    let val = bits::put_bit_u16(val, 4, true);
    let val = bits::put_bit_u16(val, 8, true);
    bits::put_bit_u16(val, 1, true)
}

/// The offset of the registers of output stream descriptor `n`, which follow
/// the input stream descriptors; none for a descriptor the controller lacks.
pub fn output_stream_descriptor_offset(caps: HDAGlobalCapabilitiesReg, n: u8) -> (r: Option<isize>)
    ensures
        r == if n > 15 || n > bits::field_u16(caps.0, 12, 4) as u8 {
            None
        } else {
            Some((0x80 + bits::field_u16(caps.0, 8, 4) as u8 * 0x20 + n * 0x20) as isize)
        },
{
    if n > 15 {
        None
    } else if n > caps.num_of_output_streams() {
        None
    } else {
        proof {
            bits::lemma_field_le_mask_u16(caps.0, 8, 4);
            bits::lemma_small_masks();
        }
        let x = 0x80 + (caps.num_of_input_streams() as isize) * 0x20;
        Some(x + (n as isize) * 0x20)
    }
}

/// A sample of a stream.
#[derive(Clone, Copy, Debug, PartialEq, Eq, Structural)]
pub struct Sample(pub u16);

/// The interrupt on completion flag of a buffer descriptor.
#[derive(Clone, Copy, Debug, PartialEq, Eq, Structural)]
pub struct InterruptOnCompletion(pub u32);

impl InterruptOnCompletion {
    /// Whether completing the buffer raises an interrupt.
    pub fn is_set(&self) -> (r: bool)
        ensures
            r == bits::bit_u32(self.0, 0),
    {
        bits::get_bit_u32(self.0, 0)
    }

    /// Sets or clears the flag.
    pub fn set(&mut self, set: bool)
        ensures
            final(self).0 == bits::with_bit_u32(old(self).0, 0, set),
    {
        self.0 = bits::put_bit_u32(self.0, 0, set);
    }

    /// The flag, set.
    pub fn new() -> (r: Self)
        ensures
            r.0 == 1,
    {
        InterruptOnCompletion(1)
    }
}

/// A description of one sample buffer of a cyclic stream buffer.
#[derive(Clone, Copy, Debug, PartialEq, Eq, Structural)]
pub struct BufferDescriptorListEntry {
    /// The 128-byte aligned address of the buffer.
    pub addr: u64,
    /// The length of the buffer in bytes.
    pub len: u32,
    pub interrupt_on_completion: InterruptOnCompletion,
}

impl BufferDescriptorListEntry {
    /// Describes the buffer at `addr` of `len` bytes, raising an interrupt on completion.
    pub fn new(addr: u64, len: usize) -> (r: Self)
        requires
            len <= u32::MAX,
        ensures
            r.addr == addr,
            r.len == len,
            r.interrupt_on_completion.0 == 1,
    {
        BufferDescriptorListEntry { addr, len: len as u32, interrupt_on_completion: InterruptOnCompletion::new() }
    }

    /// The empty description.
    pub fn null() -> (r: Self)
        ensures
            r.addr == 0,
            r.len == 0,
            r.interrupt_on_completion.0 == 1,
    {
        BufferDescriptorListEntry { addr: 0, len: 0, interrupt_on_completion: InterruptOnCompletion::new() }
    }

    /// The length of the buffer in bytes.
    pub fn len(&self) -> (r: usize)
        ensures
            r == self.len,
    {
        self.len as usize
    }
}

/// The largest number of entries of a buffer descriptor list.
pub const BDL_CAPACITY: usize = 256;

/// The buffers that make up a cyclic stream buffer.
pub struct BufferDescriptorList {
    pub entries: Vec<BufferDescriptorListEntry>,
    /// The number of entries in use.
    pub next_index: usize,
}

/// The total length of the first `n` buffers.
pub open spec fn total_len(entries: Seq<BufferDescriptorListEntry>, n: int) -> int
    decreases n,
{
    if n <= 0 {
        0
    } else {
        total_len(entries, n - 1) + entries[n - 1].len
    }
}

impl BufferDescriptorList {
    /// Whether the list has its full storage and a valid count.
    pub open spec fn wf(&self) -> bool {
        &&& self.entries.len() == BDL_CAPACITY
        &&& self.next_index <= BDL_CAPACITY
    }

    /// An empty list.
    pub fn new() -> (r: Self)
        ensures
            r.wf(),
            r.next_index == 0,
            forall|i: int| 0 <= i < BDL_CAPACITY ==> r.entries@[i].len == 0,
    {
        let mut entries: Vec<BufferDescriptorListEntry> = Vec::new();
        while entries.len() < BDL_CAPACITY
            invariant
                entries.len() <= BDL_CAPACITY,
                forall|i: int| 0 <= i < entries.len() ==> entries@[i].len == 0,
            decreases BDL_CAPACITY - entries.len(),
        {
            entries.push(BufferDescriptorListEntry::null());
        }
        BufferDescriptorList { entries, next_index: 0 }
    }

    /// Appends an entry; a full list is an error.
    pub fn add_entry(&mut self, entry: BufferDescriptorListEntry) -> (r: Result<(), ()>)
        requires
            old(self).wf(),
        ensures
            final(self).wf(),
            old(self).next_index >= BDL_CAPACITY ==> r is Err && *final(self) == *old(self),
            old(self).next_index < BDL_CAPACITY ==> {
                &&& r is Ok
                &&& final(self).next_index == old(self).next_index + 1
                &&& final(self).entries@ == old(self).entries@.update(old(self).next_index as int, entry)
            },
    {
        if self.next_index >= BDL_CAPACITY {
            return Err(());
        }
        self.entries.set(self.next_index, entry);
        self.next_index = self.next_index + 1;
        Ok(())
    }

    /// The total length in bytes of the buffers in use.
    pub fn data_bytes_len(&self) -> (r: usize)
        requires
            self.wf(),
            total_len(self.entries@, self.next_index as int) <= usize::MAX,
        ensures
            r == total_len(self.entries@, self.next_index as int),
    {
        let mut acc: usize = 0;
        let mut i: usize = 0;
        while i < self.next_index
            invariant
                self.wf(),
                i <= self.next_index,
                acc == total_len(self.entries@, i as int),
                total_len(self.entries@, self.next_index as int) <= usize::MAX,
            decreases self.next_index - i,
        {
            proof {
                lemma_total_len_monotonic(self.entries@, i as int + 1, self.next_index as int);
            }
            acc = acc + self.entries[i].len();
            i = i + 1;
        }
        acc
    }

    /// Forgets every entry.
    pub fn clear_entries(&mut self)
        requires
            old(self).wf(),
        ensures
            final(self).wf(),
            final(self).next_index == 0,
            final(self).entries@ == old(self).entries@,
    {
        self.next_index = 0;
    }

    /// The number of entries in use.
    pub fn no_of_entries(&self) -> (r: usize)
        ensures
            r == self.next_index,
    {
        self.next_index
    }

    /// The entry at `idx`.
    pub fn index(&self, idx: usize) -> (r: &BufferDescriptorListEntry)
        requires
            self.wf(),
            idx < BDL_CAPACITY,
        ensures
            *r == self.entries@[idx as int],
    {
        &self.entries[idx]
    }
}

/// The total length grows with the number of buffers counted.
pub proof fn lemma_total_len_monotonic(entries: Seq<BufferDescriptorListEntry>, m: int, n: int)
    requires
        0 <= m <= n,
    ensures
        total_len(entries, m) <= total_len(entries, n),
    decreases n - m,
{
    if m < n {
        lemma_total_len_monotonic(entries, m, n - 1);
    }
}

/// The largest ring buffer that a controller supports.
pub fn ring_buffer_size_for(cap: HDARingBufferSizeCapability) -> (r: HDARingBufferSize)
    ensures
        r == if bits::bit_u8(cap.0, 2) {
            HDARingBufferSize::TwoFiftySix
        } else if bits::bit_u8(cap.0, 1) {
            HDARingBufferSize::Sixteen
        } else {
            HDARingBufferSize::Two
        },
{
    if !cap.size256_supported() {
        if cap.size16_supported() {
            HDARingBufferSize::Sixteen
        } else {
            HDARingBufferSize::Two
        }
    } else {
        HDARingBufferSize::TwoFiftySix
    }
}

/// The largest CORB and RIRB sizes that the controller supports.
pub fn get_corb_rirb_sizes(corb_size: HDACORBSizeReg, rirb_size: HDARIRBSizeReg) -> (r: (
    HDARingBufferSize,
    HDARingBufferSize,
))
    ensures
        r.0 == ring_size_spec(bits::field_u8(corb_size.0, 4, 4)),
        r.1 == ring_size_spec(bits::field_u8(rirb_size.0, 4, 4)),
{
    (ring_buffer_size_for(corb_size.size_capability()), ring_buffer_size_for(rirb_size.size_capability()))
}

/// The number of input streams of a controller.
pub open spec fn input_streams(caps: HDAGlobalCapabilitiesReg) -> u32 {
    bits::field_u16(caps.0, 8, 4) as u32
}

/// The number of output streams of a controller.
pub open spec fn output_streams(caps: HDAGlobalCapabilitiesReg) -> u32 {
    bits::field_u16(caps.0, 12, 4) as u32
}

/// The interrupt control value that lets the controller interrupt and
/// enables the interrupts of every output stream, whose flags come right
/// after those of the input streams; the other flags of `control` stay.
/// A controller with fewer than two output streams cannot play sound.
pub fn interrupt_control_for_output(
    control: HDAInterruptControlReg,
    caps: HDAGlobalCapabilitiesReg,
) -> (r: Result<HDAInterruptControlReg, &'static str>)
    ensures
        output_streams(caps) < 2 ==> (r matches Err(e) && e@ == "No enough output streams for sound operation"@),
        output_streams(caps) >= 2 ==> (r matches Ok(c) && forall|j: u32|
            j < 32 ==> #[trigger] bits::bit_u32(c.0, j) == (j == 31 || (input_streams(caps) <= j < input_streams(
                caps,
            ) + output_streams(caps)) || bits::bit_u32(control.0, j))),
{
    proof {
        bits::lemma_field_le_mask_u16(caps.0, 8, 4);
        bits::lemma_field_le_mask_u16(caps.0, 12, 4);
        bits::lemma_small_masks();
    }
    let mut c = control;
    c.set_global_interrupt_enable(true);
    let num_of_input_streams = caps.num_of_input_streams();
    let num_of_output_streams = caps.num_of_output_streams();
    if num_of_output_streams < 2 {
        return Err("No enough output streams for sound operation");
    }
    let ghost lo = num_of_input_streams as u32;
    proof {
        assert forall|j: u32| j < 32 implies #[trigger] bits::bit_u32(c.0, j) == (j == 31 || bits::bit_u32(
            control.0,
            j,
        )) by {
            bits::lemma_with_bit_u32(control.0, 31, j, true);
        }
    }
    let mut stream_idx: u8 = 0;
    while stream_idx < num_of_output_streams
        invariant
            num_of_input_streams <= 15,
            num_of_output_streams <= 15,
            lo == num_of_input_streams,
            stream_idx <= num_of_output_streams,
            forall|j: u32|
                j < 32 ==> #[trigger] bits::bit_u32(c.0, j) == (j == 31 || (lo <= j < lo + stream_idx)
                    || bits::bit_u32(control.0, j)),
        decreases num_of_output_streams - stream_idx,
    {
        let ghost before = c.0;
        let bit = num_of_input_streams + stream_idx;
        c.set_stream_interrupt_enable(bit);
        proof {
            assert forall|j: u32| j < 32 implies #[trigger] bits::bit_u32(c.0, j) == (j == 31 || (lo <= j < lo
                + stream_idx + 1) || bits::bit_u32(control.0, j)) by {
                bits::lemma_with_bit_u32(before, bit as u32, j, true);
            }
        }
        stream_idx = stream_idx + 1;
    }
    Ok(c)
}

/// The largest ring buffer size in a capability mask.
pub open spec fn ring_size_spec(cap: u8) -> HDARingBufferSize {
    if bits::bit_u8(cap, 2) {
        HDARingBufferSize::TwoFiftySix
    } else if bits::bit_u8(cap, 1) {
        HDARingBufferSize::Sixteen
    } else {
        HDARingBufferSize::Two
    }
}

/// The number of slots of a CORB or RIRB.
pub const RING_CAPACITY: usize = 256;

/// The command outbound ring buffer: commands that the controller fetches.
pub struct CORB {
    pub commands: Vec<HDANodeCommand>,
    /// The index of the last command written.
    pub write_pointer: usize,
    /// The number of entries in use.
    pub size: HDARingBufferSize,
}

impl CORB {
    /// Whether the buffer has its full storage and its pointer is in range.
    pub open spec fn wf(&self) -> bool {
        &&& self.commands.len() == RING_CAPACITY
        &&& self.write_pointer < self.size.entries()
    }

    /// An empty buffer of the given size.
    pub fn new(size: HDARingBufferSize) -> (r: Self)
        ensures
            r.wf(),
            r.write_pointer == 0,
            r.size == size,
            forall|i: int| 0 <= i < RING_CAPACITY ==> r.commands@[i].0 == 0,
    {
        let mut commands: Vec<HDANodeCommand> = Vec::new();
        while commands.len() < RING_CAPACITY
            invariant
                commands.len() <= RING_CAPACITY,
                forall|i: int| 0 <= i < commands.len() ==> commands@[i].0 == 0,
            decreases RING_CAPACITY - commands.len(),
        {
            commands.push(HDANodeCommand::null());
        }
        CORB { commands, write_pointer: 0, size }
    }

    /// Writes a command in the slot after the last one, wrapping at the end,
    /// and returns the new write pointer for the CORBWP register.
    pub fn add_command(&mut self, command: HDANodeCommand) -> (r: u8)
        requires
            old(self).wf(),
        ensures
            final(self).wf(),
            final(self).size == old(self).size,
            final(self).write_pointer == (old(self).write_pointer + 1) % (old(self).size.entries() as int),
            final(self).commands@ == old(self).commands@.update(final(self).write_pointer as int, command),
            r == final(self).write_pointer as u8,
    {
        let entries = self.size.entries_as_u16() as usize;
        self.write_pointer = (self.write_pointer + 1) % entries;
        self.commands.set(self.write_pointer, command);
        self.write_pointer as u8
    }

    /// The number of entries in use.
    pub fn size(&self) -> (r: HDARingBufferSize)
        ensures
            r == self.size,
    {
        self.size
    }
}

/// The response inbound ring buffer: responses that the controller writes.
pub struct RIRB {
    pub responses: Vec<HDANodeResponse>,
    /// The index of the last response read.
    pub read_pointer: usize,
    /// The number of entries in use.
    pub size: HDARingBufferSize,
}

impl RIRB {
    /// Whether the buffer has its full storage and its pointer is in range.
    pub open spec fn wf(&self) -> bool {
        &&& self.responses.len() == RING_CAPACITY
        &&& self.read_pointer < self.size.entries()
    }

    /// An empty buffer of the given size.
    pub fn new(size: HDARingBufferSize) -> (r: Self)
        ensures
            r.wf(),
            r.read_pointer == 0,
            r.size == size,
    {
        let mut responses: Vec<HDANodeResponse> = Vec::new();
        while responses.len() < RING_CAPACITY
            invariant
                responses.len() <= RING_CAPACITY,
            decreases RING_CAPACITY - responses.len(),
        {
            responses.push(HDANodeResponse::null());
        }
        RIRB { responses, read_pointer: 0, size }
    }

    /// Moves to the next slot, wrapping at the end, and returns its response
    /// together with whether the slot is the last one, after which the
    /// controller's write pointer is reset.
    pub fn read_next_response(&mut self) -> (r: (HDANodeResponse, bool))
        requires
            old(self).wf(),
        ensures
            final(self).wf(),
            final(self).size == old(self).size,
            final(self).responses@ == old(self).responses@,
            final(self).read_pointer == (old(self).read_pointer + 1) % (old(self).size.entries() as int),
            r.0 == old(self).responses@[final(self).read_pointer as int],
            r.1 == (final(self).read_pointer == old(self).size.entries() - 1),
    {
        let entries = self.size.entries_as_u16() as usize;
        self.read_pointer = (self.read_pointer + 1) % entries;
        let reset = self.read_pointer == entries - 1;
        (self.responses[self.read_pointer], reset)
    }

    /// The number of entries in use.
    pub fn size(&self) -> (r: HDARingBufferSize)
        ensures
            r == self.size,
    {
        self.size
    }

    /// The response in slot `idx`.
    pub fn index(&self, idx: usize) -> (r: HDANodeResponse)
        requires
            self.wf(),
            idx < RING_CAPACITY,
        ensures
            r == self.responses@[idx as int],
    {
        self.responses[idx]
    }
}

} // verus!

verus! {

/// The number of buses, of devices on a bus and of functions of a device.
pub const PCI_BUSES: u32 = 256;
pub const PCI_DEVICES: u32 = 32;
pub const PCI_FUNCS: u32 = 8;

/// Whether a location names a function on the PCI.
pub open spec fn pci_location_valid(dev: PCIDevice) -> bool {
    dev.bus < PCI_BUSES && dev.device < PCI_DEVICES && dev.func < PCI_FUNCS
}

/// The position of a location in the order the search visits them: every
/// function of a device, then the next device, then the next bus.
pub open spec fn pci_index(dev: PCIDevice) -> int {
    (dev.bus * PCI_DEVICES + dev.device) * PCI_FUNCS + dev.func
}

/// The first location the search for the sound device visits.
pub fn first_pci_device() -> (r: PCIDevice)
    ensures
        pci_location_valid(r),
        pci_index(r) == 0,
{
    PCIDevice { bus: 0, device: 0, func: 0 }
}

/// The location the search visits after `dev`; `None` after the last
/// function of the last device of the last bus.
pub fn next_pci_device(dev: PCIDevice) -> (r: Option<PCIDevice>)
    requires
        pci_location_valid(dev),
    ensures
        r is None <==> pci_index(dev) == PCI_BUSES * PCI_DEVICES * PCI_FUNCS - 1,
        r matches Some(n) ==> pci_location_valid(n) && pci_index(n) == pci_index(dev) + 1,
{
    if dev.func + 1 < PCI_FUNCS {
        Some(PCIDevice { bus: dev.bus, device: dev.device, func: dev.func + 1 })
    } else if dev.device + 1 < PCI_DEVICES {
        Some(PCIDevice { bus: dev.bus, device: dev.device + 1, func: 0 })
    } else if dev.bus + 1 < PCI_BUSES {
        Some(PCIDevice { bus: dev.bus + 1, device: 0, func: 0 })
    } else {
        None
    }
}

} // verus!

verus! {

/// The codec addresses, from `i` up, that a state change status names: the
/// positions of its set bits, in increasing order.
pub open spec fn codecs_from(status: u16, i: int) -> Seq<u8>
    decreases 16 - i,
{
    if i >= 16 || i < 0 {
        Seq::empty()
    } else if bits::bit_u16(status, i as u16) {
        seq![i as u8].add(codecs_from(status, i + 1))
    } else {
        codecs_from(status, i + 1)
    }
}

/// The addresses of the codecs that reported themselves after the reset:
/// the positions of the set bits of the state change status.
pub fn codec_addrs_from_status(status: u16) -> (r: Vec<u8>)
    ensures
        r@ == codecs_from(status, 0),
{
    let mut out: Vec<u8> = Vec::new();
    let mut i: u16 = 0;
    while i < 16
        invariant
            i <= 16,
            out@ + codecs_from(status, i as int) == codecs_from(status, 0),
        decreases 16 - i,
    {
        if bits::get_bit_u16(status, i) {
            proof {
                assert(out@.push(i as u8) + codecs_from(status, i + 1) =~= out@ + codecs_from(status, i as int));
            }
            out.push(i as u8);
        }
        i = i + 1;
    }
    assert(out@ + codecs_from(status, 16) =~= out@);
    out
}

} // verus!
