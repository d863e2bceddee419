//! The output stream of the HDA controller: the values its stream descriptor
//! registers take as a sound is set up, started, stopped and reset.
//!
//! The registers are held here as plain values; whoever owns the mapped
//! registers copies them out after each step and reads the hardware's
//! answers back in.
use vstd::prelude::*;
use crate::bits;
use crate::hda_regs::{
    sdctl_holds, sdctl_value, BitsPerSample, HDAStreamDescriptorControlReg, HDAStreamDescriptorCyclicBufferLenReg,
    HDAStreamDescriptorFIFOSizeReg, HDAStreamDescriptorFormatReg, HDAStreamDescriptorLastValidIndexReg,
    HDAStreamDescriptorLinkPosReg, HDAStreamDescriptorStatusReg, NumOfChannels, SampleBaseRate,
    SampleBaseRateDivisor, SampleBaseRateMultiple,
};
use crate::hda_stream::{total_len, BufferDescriptorList, BufferDescriptorListEntry, BDL_CAPACITY};

verus! {

/// The registers of one stream descriptor, in their order in memory.
#[derive(Clone, Copy, Debug, PartialEq, Eq, Structural)]
pub struct StreamDescriptorRegs {
    pub control: HDAStreamDescriptorControlReg,
    pub status: HDAStreamDescriptorStatusReg,
    pub link_pos_in_buffer: HDAStreamDescriptorLinkPosReg,
    pub cyclic_buffer_len: HDAStreamDescriptorCyclicBufferLenReg,
    pub last_valid_index: HDAStreamDescriptorLastValidIndexReg,
    pub reserved1: u16,
    pub fifo_size: HDAStreamDescriptorFIFOSizeReg,
    pub format: HDAStreamDescriptorFormatReg,
    pub reserved2: u32,
    pub bdl_ptr_lower_base_addr: u32,
    pub bdl_ptr_upper_base_addr: u32,
}

impl StreamDescriptorRegs {
    /// Points the stream at the buffer descriptor list at `addr`: the low
    /// 32 bits and the high 32 bits of the address.
    pub fn set_bdl_base_addr(&mut self, addr: u64)
        ensures
            final(self).bdl_ptr_lower_base_addr == bits::field_u64(addr, 0, 32),
            final(self).bdl_ptr_upper_base_addr == bits::field_u64(addr, 32, 32),
            final(self).control == old(self).control,
            final(self).format == old(self).format,
            final(self).last_valid_index == old(self).last_valid_index,
            final(self).cyclic_buffer_len == old(self).cyclic_buffer_len,
    {
        proof {
            bits::lemma_field_le_mask_u64(addr, 0, 32);
            bits::lemma_field_le_mask_u64(addr, 32, 32);
            assert(!(0xffff_ffff_ffff_ffffu64 << 32u64) == 0xffff_ffffu64) by (bit_vector);
        }
        let lower = bits::get_field_u64(addr, 0, 32) as u32;
        let upper = bits::get_field_u64(addr, 32, 32) as u32;
        self.bdl_ptr_lower_base_addr = lower;
        self.bdl_ptr_upper_base_addr = upper;
    }
}

/// The control register's value has 24 bits.
proof fn lemma_sdctl_value_below(r: HDAStreamDescriptorControlReg)
    ensures
        sdctl_value(r) < 0x100_0000,
{
    let lo = r.low;
    let hi = r.high;
    assert((lo as u32) | ((hi as u32) << 16u32) < 0x100_0000) by (bit_vector);
}

/// Setting the stream number keeps a 24-bit value within 24 bits.
proof fn lemma_numbered_below(x: u32, n: u32)
    requires
        x < 0x100_0000,
    ensures
        bits::with_field_u32(x, 20, 4, n) < 0x100_0000,
{
    assert(x < 0x100_0000 ==> bits::with_field_u32(x, 20, 4, n) < 0x100_0000) by (bit_vector);
}

/// A control register that holds a 24-bit value has that value.
proof fn lemma_sdctl_roundtrip(r: HDAStreamDescriptorControlReg, v: u32)
    requires
        sdctl_holds(r, v),
        v < 0x100_0000,
    ensures
        sdctl_value(r) == v,
{
    let lo = r.low;
    let hi = r.high;
    assert(lo == (v & 0xffff) as u16 && hi == ((v >> 16u32) & 0xff) as u8 && v < 0x100_0000 ==> (lo as u32) | ((
    hi as u32) << 16u32) == v) by (bit_vector);
}

/// The format every sound is played in: 44.1 kHz, 16 bits per sample and
/// two channels.
pub open spec fn sound_format(f: u16) -> u16 {
    let f1 = bits::with_bit_u16(f, 14, true);
    let f2 = bits::with_field_u16(f1, 11, 3, 0);
    let f3 = bits::with_field_u16(f2, 8, 3, 0);
    let f4 = bits::with_field_u16(f3, 4, 3, 1);
    bits::with_field_u16(f4, 0, 4, 1)
}

/// A connection between the sample buffers and the controller.
pub struct OutputStream {
    pub regs: StreamDescriptorRegs,
    pub bdl: BufferDescriptorList,
    /// The number, 1 to 15, by which the controller knows the stream.
    pub tag: usize,
}

impl OutputStream {
    /// A stream over the registers `regs` with the tag `tag` and an empty
    /// buffer descriptor list.
    pub fn new(regs: StreamDescriptorRegs, tag: usize) -> (r: Self)
        requires
            tag < 16,
        ensures
            r.regs == regs,
            r.tag == tag,
            r.bdl.wf(),
            r.bdl.next_index == 0,
    {
        OutputStream { regs, tag, bdl: BufferDescriptorList::new() }
    }

    /// Sets the stream's format, its last valid buffer (the second), its
    /// number, the interrupt on completion, and the address of its buffer
    /// descriptor list, which lies at `bdl_addr`.
    pub fn init(&mut self, bdl_addr: u64)
        requires
            0 < old(self).tag < 16,
        ensures
            final(self).regs.format.0 == sound_format(old(self).regs.format.0),
            final(self).regs.last_valid_index.0 == bits::with_field_u16(old(self).regs.last_valid_index.0, 0, 8, 1),
            sdctl_holds(
                final(self).regs.control,
                bits::with_bit_u32(
                    bits::with_field_u32(sdctl_value(old(self).regs.control), 20, 4, old(self).tag as u32),
                    2,
                    true,
                ),
            ),
            final(self).regs.bdl_ptr_lower_base_addr == bits::field_u64(bdl_addr, 0, 32),
            final(self).regs.bdl_ptr_upper_base_addr == bits::field_u64(bdl_addr, 32, 32),
            final(self).regs.cyclic_buffer_len == old(self).regs.cyclic_buffer_len,
            final(self).bdl == old(self).bdl,
            final(self).tag == old(self).tag,
    {
        self.regs.format.set_sample_base_rate(SampleBaseRate::KHz44P1);
        self.regs.format.set_sample_base_rate_multiple(SampleBaseRateMultiple::KHz48OrLess);
        self.regs.format.set_sample_base_rate_divisor(SampleBaseRateDivisor::One);
        self.regs.format.set_bits_per_sample(BitsPerSample::Sixteen);
        self.regs.format.set_number_of_channels(NumOfChannels::Two);
        self.regs.last_valid_index.set_last_valid_index(1);
        self.regs.control.set_stream_number(self.tag as u8);
        let ghost numbered = self.regs.control;
        self.regs.control.set_interrupt_on_completion_enable(true);
        proof {
            let v = bits::with_field_u32(sdctl_value(old(self).regs.control), 20, 4, self.tag as u32);
            lemma_sdctl_value_below(old(self).regs.control);
            lemma_numbered_below(sdctl_value(old(self).regs.control), self.tag as u32);
            lemma_sdctl_roundtrip(numbered, v);
        }
        self.regs.set_bdl_base_addr(bdl_addr);
    }

    /// Describes the sound's samples, `sample_len` bytes at `sample_addr`,
    /// twice in the empty buffer descriptor list (the controller wants at
    /// least two buffers), and sets the length of the cyclic buffer to the
    /// bytes of both.
    pub fn setup_sound_stream(&mut self, sample_addr: u64, sample_len: usize)
        requires
            old(self).bdl.wf(),
            old(self).bdl.next_index == 0,
            2 * (sample_len as u32) <= u32::MAX,
        ensures
            final(self).bdl.wf(),
            final(self).bdl.next_index == 2,
            ({
                let entry = BufferDescriptorListEntry {
                    addr: sample_addr,
                    len: sample_len as u32,
                    interrupt_on_completion: crate::hda_stream::InterruptOnCompletion(1),
                };
                final(self).bdl.entries@ == old(self).bdl.entries@.update(0, entry).update(1, entry)
            }),
            final(self).regs.cyclic_buffer_len.0 == 2 * (sample_len as u32),
            final(self).regs.control == old(self).regs.control,
            final(self).regs.format == old(self).regs.format,
            final(self).tag == old(self).tag,
    {
        let bdl_entry = BufferDescriptorListEntry {
            addr: sample_addr,
            len: #[verifier::truncate] (sample_len as u32),
            interrupt_on_completion: crate::hda_stream::InterruptOnCompletion::new(),
        };
        let first = self.bdl.add_entry(bdl_entry);
        let second = self.bdl.add_entry(bdl_entry);
        proof {
            let s = self.bdl.entries@;
            assert(total_len(s, 1) == total_len(s, 0) + s[0].len);
            assert(total_len(s, 2) == total_len(s, 1) + s[1].len);
        }
        let len = self.bdl.data_bytes_len();
        self.regs.cyclic_buffer_len.set_cyclic_buffer_len(len);
    }

    /// Asks the stream to stop; the controller clears the run bit when it
    /// has stopped.
    pub fn stop(&mut self)
        ensures
            sdctl_holds(final(self).regs.control, bits::with_bit_u32(sdctl_value(old(self).regs.control), 1, false)),
            final(self).bdl == old(self).bdl,
            final(self).tag == old(self).tag,
    {
        self.regs.control.set_stream_run(false);
    }

    /// Starts the stream.
    pub fn start(&mut self)
        ensures
            sdctl_holds(final(self).regs.control, bits::with_bit_u32(sdctl_value(old(self).regs.control), 1, true)),
            final(self).bdl == old(self).bdl,
            final(self).tag == old(self).tag,
    {
        self.regs.control.set_stream_run(true);
    }

    /// Puts the stream in reset; the controller sets the reset bit when it
    /// has entered it.
    pub fn enter_reset(&mut self)
        ensures
            sdctl_holds(final(self).regs.control, bits::with_bit_u32(sdctl_value(old(self).regs.control), 0, true)),
            final(self).bdl == old(self).bdl,
            final(self).tag == old(self).tag,
    {
        self.regs.control.enter_stream_reset();
    }

    /// Takes the stream out of reset and empties its buffer descriptor list;
    /// the controller clears the reset bit when it has left reset.
    pub fn exit_reset(&mut self)
        requires
            old(self).bdl.wf(),
        ensures
            sdctl_holds(final(self).regs.control, bits::with_bit_u32(sdctl_value(old(self).regs.control), 0, false)),
            final(self).bdl.wf(),
            final(self).bdl.next_index == 0,
            final(self).tag == old(self).tag,
    {
        self.regs.control.exit_stream_reset();
        self.bdl.clear_entries();
    }

    /// Whether the stream is out of reset with both buffers described.
    pub fn has_initialized(&self) -> (r: bool)
        ensures
            r == (!bits::bit_u32(sdctl_value(self.regs.control), 0) && self.bdl.next_index == 2),
    {
        !self.regs.control.stream_reset() && self.bdl.no_of_entries() == 2
    }
}

} // verus!
