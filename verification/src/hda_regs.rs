//! The registers of an Intel High Definition Audio controller.
//!
//! Each register is a plain value; reading one of its fields and producing the
//! value with a field replaced are pure operations whose contracts go through
//! the bit-level spec functions of `crate::bits`.
use vstd::prelude::*;
use crate::bits;

verus! {

/// The capabilities of the HDA controller (GCAP).
#[derive(Clone, Copy, Debug, PartialEq, Eq, Structural)]
pub struct HDAGlobalCapabilitiesReg(pub u16);

impl HDAGlobalCapabilitiesReg {
    /// The number of output streams, 0 to 15.
    pub fn num_of_output_streams(&self) -> (r: u8)
        ensures
            r == bits::field_u16(self.0, 12, 4) as u8,
    {
        bits::get_field_u16(self.0, 12, 4) as u8
    }

    /// The number of input streams, 0 to 15.
    pub fn num_of_input_streams(&self) -> (r: u8)
        ensures
            r == bits::field_u16(self.0, 8, 4) as u8,
    {
        bits::get_field_u16(self.0, 8, 4) as u8
    }

    /// The number of bidirectional streams, 0 to 30.
    pub fn num_of_bidirectional_streams(&self) -> (r: u8)
        ensures
            r == bits::field_u16(self.0, 3, 5) as u8,
    {
        bits::get_field_u16(self.0, 3, 5) as u8
    }

    /// 0 for one serial data out signal, 1 for two, 2 for four; 3 is reserved.
    pub fn num_of_serial_data_out_signals(&self) -> (r: u8)
        ensures
            r == bits::field_u16(self.0, 1, 2) as u8,
    {
        bits::get_field_u16(self.0, 1, 2) as u8
    }

    /// Whether the controller supports 64 bit addresses.
    pub fn addr_64bit_supported(&self) -> (r: bool)
        ensures
            r == bits::bit_u16(self.0, 0),
    {
        bits::get_bit_u16(self.0, 0)
    }

}

impl From<u16> for HDAGlobalCapabilitiesReg {
    fn from(val: u16) -> (r: HDAGlobalCapabilitiesReg) {
        HDAGlobalCapabilitiesReg(val)
    }
}

impl vstd::std_specs::convert::FromSpecImpl<u16> for HDAGlobalCapabilitiesReg {
    open spec fn obeys_from_spec() -> bool {
        true
    }

    open spec fn from_spec(val: u16) -> HDAGlobalCapabilitiesReg {
        HDAGlobalCapabilitiesReg(val)
    }
}

/// Global control of the controller and the link (GCTL).
#[derive(Clone, Copy, Debug, PartialEq, Eq, Structural)]
pub struct HDAGlobalControlReg(pub u32);

impl HDAGlobalControlReg {
    /// Whether unsolicited responses are accepted into the RIRB.
    pub fn unsolicited_response_accepted(&self) -> (r: bool)
        ensures
            r == bits::bit_u32(self.0, 8),
    {
        bits::get_bit_u32(self.0, 8)
    }

    /// Accepts or refuses unsolicited responses.
    pub fn set_unsolicited_response_accepted(&mut self, enable: bool)
        ensures
            final(self).0 == bits::with_bit_u32(old(self).0, 8, enable),
    {
        self.0 = bits::put_bit_u32(self.0, 8, enable);
    }

    /// Initiates a flush.
    pub fn set_flush_control(&mut self)
        ensures
            final(self).0 == bits::with_bit_u32(old(self).0, 1, true),
    {
        self.0 = bits::put_bit_u32(self.0, 1, true);
    }

    /// The CRST bit; clear while the controller is in reset.
    pub fn controller_reset(&self) -> (r: bool)
        ensures
            r == bits::bit_u32(self.0, 0),
    {
        bits::get_bit_u32(self.0, 0)
    }

    /// Sets the CRST bit; clearing it puts the controller in reset.
    pub fn set_controller_reset(&mut self, set: bool)
        ensures
            final(self).0 == bits::with_bit_u32(old(self).0, 0, set),
    {
        self.0 = bits::put_bit_u32(self.0, 0, set);
    }

}

impl From<u32> for HDAGlobalControlReg {
    fn from(val: u32) -> (r: HDAGlobalControlReg) {
        HDAGlobalControlReg(val)
    }
}

impl vstd::std_specs::convert::FromSpecImpl<u32> for HDAGlobalControlReg {
    open spec fn obeys_from_spec() -> bool {
        true
    }

    open spec fn from_spec(val: u32) -> HDAGlobalControlReg {
        HDAGlobalControlReg(val)
    }
}

impl From<HDAGlobalControlReg> for u32 {
    fn from(reg: HDAGlobalControlReg) -> (r: u32) {
        reg.0
    }
}

impl vstd::std_specs::convert::FromSpecImpl<HDAGlobalControlReg> for u32 {
    open spec fn obeys_from_spec() -> bool {
        true
    }

    open spec fn from_spec(reg: HDAGlobalControlReg) -> u32 {
        reg.0
    }
}

/// Which SDIN signals may cause a wake event or an interrupt (WAKEEN).
#[derive(Clone, Copy, Debug, PartialEq, Eq, Structural)]
pub struct HDAWakeEnableReg(pub u16);

impl HDAWakeEnableReg {
    /// The flags of the SDIN signals, without the top bit.
    pub fn sdin_wake_enable(&self) -> (r: u16)
        ensures
            r == bits::field_u16(self.0, 0, 15),
    {
        bits::get_field_u16(self.0, 0, 15)
    }

    /// Lets the SDIN signal of codec `bit` cause a wake event or an interrupt.
    pub fn set_sdin_wake_enable(&mut self, bit: u8)
        requires
            bit < 16,
        ensures
            final(self).0 == bits::with_bit_u16(old(self).0, bit as u16, true),
    {
        self.0 = bits::put_bit_u16(self.0, bit as u16, true);
    }

}

impl From<u16> for HDAWakeEnableReg {
    fn from(val: u16) -> (r: HDAWakeEnableReg) {
        HDAWakeEnableReg(val)
    }
}

impl vstd::std_specs::convert::FromSpecImpl<u16> for HDAWakeEnableReg {
    open spec fn obeys_from_spec() -> bool {
        true
    }

    open spec fn from_spec(val: u16) -> HDAWakeEnableReg {
        HDAWakeEnableReg(val)
    }
}

/// Which SDIN signals saw a state change (STATESTS).
#[derive(Clone, Copy, Debug, PartialEq, Eq, Structural)]
pub struct HDAStateChangeStatusReg(pub u16);

impl HDAStateChangeStatusReg {
    /// The flags of the SDIN signals, without the top bit.
    pub fn sdin_state_change_status(&self) -> (r: u16)
        ensures
            r == bits::field_u16(self.0, 0, 15),
    {
        bits::get_field_u16(self.0, 0, 15)
    }

    /// Clears every status flag; the register clears the bits written as 1.
    pub fn clear_sdin_state_change_status(&mut self)
        ensures
            final(self).0 == 0xffff,
    {
        self.0 = 0xffff;
    }

}

impl From<u16> for HDAStateChangeStatusReg {
    fn from(val: u16) -> (r: HDAStateChangeStatusReg) {
        HDAStateChangeStatusReg(val)
    }
}

impl vstd::std_specs::convert::FromSpecImpl<u16> for HDAStateChangeStatusReg {
    open spec fn obeys_from_spec() -> bool {
        true
    }

    open spec fn from_spec(val: u16) -> HDAStateChangeStatusReg {
        HDAStateChangeStatusReg(val)
    }
}

impl From<HDAStateChangeStatusReg> for u16 {
    fn from(reg: HDAStateChangeStatusReg) -> (r: u16) {
        reg.0
    }
}

impl vstd::std_specs::convert::FromSpecImpl<HDAStateChangeStatusReg> for u16 {
    open spec fn obeys_from_spec() -> bool {
        true
    }

    open spec fn from_spec(reg: HDAStateChangeStatusReg) -> u16 {
        reg.0
    }
}

/// Control of the interrupts of the controller (INTCTL).
#[derive(Clone, Copy, Debug, PartialEq, Eq, Structural)]
pub struct HDAInterruptControlReg(pub u32);

impl HDAInterruptControlReg {
    /// Whether the device may generate interrupts.
    pub fn global_interrupt_enable(&self) -> (r: bool)
        ensures
            r == bits::bit_u32(self.0, 31),
    {
        bits::get_bit_u32(self.0, 31)
    }

    /// Enables or disables interrupts from the device.
    pub fn set_global_interrupt_enable(&mut self, enable: bool)
        ensures
            final(self).0 == bits::with_bit_u32(old(self).0, 31, enable),
    {
        self.0 = bits::put_bit_u32(self.0, 31, enable);
    }

    /// Whether the controller functions may generate interrupts.
    pub fn controller_interrupt_enable(&self) -> (r: bool)
        ensures
            r == bits::bit_u32(self.0, 30),
    {
        bits::get_bit_u32(self.0, 30)
    }

    /// Enables or disables the controller interrupts.
    pub fn set_controller_interrupt_enable(&mut self, enable: bool)
        ensures
            final(self).0 == bits::with_bit_u32(old(self).0, 30, enable),
    {
        self.0 = bits::put_bit_u32(self.0, 30, enable);
    }

    /// The per-stream interrupt enable flags.
    pub fn stream_interrupt_enable(&self) -> (r: u32)
        ensures
            r == bits::field_u32(self.0, 0, 30),
    {
        bits::get_field_u32(self.0, 0, 30)
    }

    /// Enables the interrupts of the stream with flag `stream_bit`.
    pub fn set_stream_interrupt_enable(&mut self, stream_bit: u8)
        requires
            stream_bit < 32,
        ensures
            final(self).0 == bits::with_bit_u32(old(self).0, stream_bit as u32, true),
    {
        self.0 = bits::put_bit_u32(self.0, stream_bit as u32, true);
    }

}

impl From<u32> for HDAInterruptControlReg {
    fn from(val: u32) -> (r: HDAInterruptControlReg) {
        HDAInterruptControlReg(val)
    }
}

impl vstd::std_specs::convert::FromSpecImpl<u32> for HDAInterruptControlReg {
    open spec fn obeys_from_spec() -> bool {
        true
    }

    open spec fn from_spec(val: u32) -> HDAInterruptControlReg {
        HDAInterruptControlReg(val)
    }
}

/// The interrupt status of the controller (INTSTS).
#[derive(Clone, Copy, Debug, PartialEq, Eq, Structural)]
pub struct HDAInterruptStatusReg(pub u32);

impl HDAInterruptStatusReg {
    /// Whether any interrupt status bit is set.
    pub fn global_interrupt_status(&self) -> (r: bool)
        ensures
            r == bits::bit_u32(self.0, 31),
    {
        bits::get_bit_u32(self.0, 31)
    }

    /// Whether the controller raised an interrupt.
    pub fn controller_interrupt_status(&self) -> (r: bool)
        ensures
            r == bits::bit_u32(self.0, 30),
    {
        bits::get_bit_u32(self.0, 30)
    }

    /// The per-stream interrupt flags.
    pub fn stream_interrupt_status(&self) -> (r: u32)
        ensures
            r == bits::field_u32(self.0, 0, 30),
    {
        bits::get_field_u32(self.0, 0, 30)
    }

}

impl From<u32> for HDAInterruptStatusReg {
    fn from(val: u32) -> (r: HDAInterruptStatusReg) {
        HDAInterruptStatusReg(val)
    }
}

impl vstd::std_specs::convert::FromSpecImpl<u32> for HDAInterruptStatusReg {
    open spec fn obeys_from_spec() -> bool {
        true
    }

    open spec fn from_spec(val: u32) -> HDAInterruptStatusReg {
        HDAInterruptStatusReg(val)
    }
}

/// Stream synchronisation (SSYNC): a set bit blocks its stream.
#[derive(Clone, Copy, Debug, PartialEq, Eq, Structural)]
pub struct StreamSyncReg(pub u32);

impl StreamSyncReg {
    /// Sets or clears the flag of stream descriptor `n`.
    pub fn set_stream_bit(&mut self, n: u8, set: bool)
        requires
            n < 30,
        ensures
            final(self).0 == bits::with_bit_u32(old(self).0, n as u32, set),
    {
        self.0 = bits::put_bit_u32(self.0, n as u32, set);
    }

    /// Replaces all the flags; the top two bits must stay clear.
    pub fn set_stream_sync(&mut self, n: u32)
        requires
            n < 0x3fff_ffff,
        ensures
            final(self).0 == n,
    {
        self.0 = n;
    }

    /// Unblocks every stream.
    pub fn unblock_all_streams(&mut self)
        ensures
            final(self).0 == 0,
    {
        self.0 = 0;
    }

}

/// The CORB write pointer (CORBWP).
#[derive(Clone, Copy, Debug, PartialEq, Eq, Structural)]
pub struct HDACORBWritePointerReg(pub u16);

impl HDACORBWritePointerReg {
    /// The offset of the last valid command in the CORB.
    pub fn write_pointer(&self) -> (r: u8)
        ensures
            r == bits::field_u16(self.0, 0, 8) as u8,
    {
        bits::get_field_u16(self.0, 0, 8) as u8
    }

    /// Sets the offset of the last valid command.
    pub fn set_write_pointer(&mut self, wp: u8)
        ensures
            final(self).0 == bits::with_field_u16(old(self).0, 0, 8, wp as u16),
    {
        self.0 = bits::put_field_u16(self.0, 0, 8, wp as u16);
    }

}

impl From<u16> for HDACORBWritePointerReg {
    fn from(val: u16) -> (r: HDACORBWritePointerReg) {
        HDACORBWritePointerReg(val)
    }
}

impl vstd::std_specs::convert::FromSpecImpl<u16> for HDACORBWritePointerReg {
    open spec fn obeys_from_spec() -> bool {
        true
    }

    open spec fn from_spec(val: u16) -> HDACORBWritePointerReg {
        HDACORBWritePointerReg(val)
    }
}

impl From<HDACORBWritePointerReg> for u16 {
    fn from(reg: HDACORBWritePointerReg) -> (r: u16) {
        reg.0
    }
}

impl vstd::std_specs::convert::FromSpecImpl<HDACORBWritePointerReg> for u16 {
    open spec fn obeys_from_spec() -> bool {
        true
    }

    open spec fn from_spec(reg: HDACORBWritePointerReg) -> u16 {
        reg.0
    }
}

/// The CORB read pointer (CORBRP).
#[derive(Clone, Copy, Debug, PartialEq, Eq, Structural)]
pub struct HDACORBReadPointerReg(pub u16);

impl HDACORBReadPointerReg {
    /// The read pointer reset bit.
    pub fn read_pointer_reset(&self) -> (r: bool)
        ensures
            r == bits::bit_u16(self.0, 15),
    {
        bits::get_bit_u16(self.0, 15)
    }

    /// Sets or clears the read pointer reset bit.
    pub fn set_read_pointer_reset(&mut self, set: bool)
        ensures
            final(self).0 == bits::with_bit_u16(old(self).0, 15, set),
    {
        self.0 = bits::put_bit_u16(self.0, 15, set);
    }

    /// The offset of the last command the controller has read.
    pub fn read_pointer(&self) -> (r: u8)
        ensures
            r == bits::field_u16(self.0, 0, 8) as u8,
    {
        bits::get_field_u16(self.0, 0, 8) as u8
    }

}

impl From<u16> for HDACORBReadPointerReg {
    fn from(val: u16) -> (r: HDACORBReadPointerReg) {
        HDACORBReadPointerReg(val)
    }
}

impl vstd::std_specs::convert::FromSpecImpl<u16> for HDACORBReadPointerReg {
    open spec fn obeys_from_spec() -> bool {
        true
    }

    open spec fn from_spec(val: u16) -> HDACORBReadPointerReg {
        HDACORBReadPointerReg(val)
    }
}

impl From<HDACORBReadPointerReg> for u16 {
    fn from(reg: HDACORBReadPointerReg) -> (r: u16) {
        reg.0
    }
}

impl vstd::std_specs::convert::FromSpecImpl<HDACORBReadPointerReg> for u16 {
    open spec fn obeys_from_spec() -> bool {
        true
    }

    open spec fn from_spec(reg: HDACORBReadPointerReg) -> u16 {
        reg.0
    }
}

/// CORB control (CORBCTL).
#[derive(Clone, Copy, Debug, PartialEq, Eq, Structural)]
pub struct HDACORBControlReg(pub u8);

impl HDACORBControlReg {
    /// Runs or stops the CORB DMA engine.
    pub fn enable_corb_dma_engine(&mut self, enable: bool)
        ensures
            final(self).0 == bits::with_bit_u8(old(self).0, 1, enable),
    {
        self.0 = bits::put_bit_u8(self.0, 1, enable);
    }

    /// Whether the CORB DMA engine runs.
    pub fn corb_dma_engine_enabled(&self) -> (r: bool)
        ensures
            r == bits::bit_u8(self.0, 1),
    {
        bits::get_bit_u8(self.0, 1)
    }

    /// Enables or disables the memory error interrupt.
    pub fn enable_memory_error_interrupt(&mut self, enable: bool)
        ensures
            final(self).0 == bits::with_bit_u8(old(self).0, 0, enable),
    {
        self.0 = bits::put_bit_u8(self.0, 0, enable);
    }

    /// Whether the memory error interrupt is enabled.
    pub fn memory_error_interrupt_enabled(&self) -> (r: bool)
        ensures
            r == bits::bit_u8(self.0, 0),
    {
        bits::get_bit_u8(self.0, 0)
    }

}

impl From<u8> for HDACORBControlReg {
    fn from(val: u8) -> (r: HDACORBControlReg) {
        HDACORBControlReg(val)
    }
}

impl vstd::std_specs::convert::FromSpecImpl<u8> for HDACORBControlReg {
    open spec fn obeys_from_spec() -> bool {
        true
    }

    open spec fn from_spec(val: u8) -> HDACORBControlReg {
        HDACORBControlReg(val)
    }
}

impl From<HDACORBControlReg> for u8 {
    fn from(reg: HDACORBControlReg) -> (r: u8) {
        reg.0
    }
}

impl vstd::std_specs::convert::FromSpecImpl<HDACORBControlReg> for u8 {
    open spec fn obeys_from_spec() -> bool {
        true
    }

    open spec fn from_spec(reg: HDACORBControlReg) -> u8 {
        reg.0
    }
}

/// CORB status (CORBSTS).
#[derive(Clone, Copy, Debug, PartialEq, Eq, Structural)]
pub struct HDACORBStatusReg(pub u8);

impl HDACORBStatusReg {
    /// Whether a memory error was detected.
    pub fn memory_error_indication(&self) -> (r: bool)
        ensures
            r == bits::bit_u8(self.0, 0),
    {
        bits::get_bit_u8(self.0, 0)
    }

}

impl From<u8> for HDACORBStatusReg {
    fn from(val: u8) -> (r: HDACORBStatusReg) {
        HDACORBStatusReg(val)
    }
}

impl vstd::std_specs::convert::FromSpecImpl<u8> for HDACORBStatusReg {
    open spec fn obeys_from_spec() -> bool {
        true
    }

    open spec fn from_spec(val: u8) -> HDACORBStatusReg {
        HDACORBStatusReg(val)
    }
}

/// The ring buffer sizes a controller supports, as a bit mask.
#[derive(Clone, Copy, Debug, PartialEq, Eq, Structural)]
pub struct HDARingBufferSizeCapability(pub u8);

impl HDARingBufferSizeCapability {
    /// Whether 2 entries are supported.
    pub fn size2_supported(&self) -> (r: bool)
        ensures
            r == bits::bit_u8(self.0, 0),
    {
        bits::get_bit_u8(self.0, 0)
    }

    /// Whether 16 entries are supported.
    pub fn size16_supported(&self) -> (r: bool)
        ensures
            r == bits::bit_u8(self.0, 1),
    {
        bits::get_bit_u8(self.0, 1)
    }

    /// Whether 256 entries are supported.
    pub fn size256_supported(&self) -> (r: bool)
        ensures
            r == bits::bit_u8(self.0, 2),
    {
        bits::get_bit_u8(self.0, 2)
    }

}

/// CORB size (CORBSIZE).
#[derive(Clone, Copy, Debug, PartialEq, Eq, Structural)]
pub struct HDACORBSizeReg(pub u8);

impl HDACORBSizeReg {
    /// The sizes that the controller supports.
    pub fn size_capability(&self) -> (r: HDARingBufferSizeCapability)
        ensures
            r.0 == bits::field_u8(self.0, 4, 4),
    {
        HDARingBufferSizeCapability(bits::get_field_u8(self.0, 4, 4))
    }

    /// The number of entries of the ring buffer.
    pub fn corb_size(&self) -> (r: HDARingBufferSize)
        requires
            bits::field_u8(self.0, 0, 2) != 3,
        ensures
            r.bits() == bits::field_u8(self.0, 0, 2),
    {
        proof {
            bits::lemma_field_le_mask_u8(self.0, 0, 2);
            bits::lemma_small_masks();
        }
        let v = bits::get_field_u8(self.0, 0, 2);
        if v == 0 {
            HDARingBufferSize::Two
        } else if v == 1 {
            HDARingBufferSize::Sixteen
        } else {
            HDARingBufferSize::TwoFiftySix
        }
    }

    /// Sets the number of entries of the ring buffer.
    pub fn set_corb_size(&mut self, size: HDARingBufferSize)
        ensures
            final(self).0 == bits::with_field_u8(old(self).0, 0, 2, size.bits()),
    {
        self.0 = bits::put_field_u8(self.0, 0, 2, size.as_bits());
    }

}

impl From<u8> for HDACORBSizeReg {
    fn from(val: u8) -> (r: HDACORBSizeReg) {
        HDACORBSizeReg(val)
    }
}

impl vstd::std_specs::convert::FromSpecImpl<u8> for HDACORBSizeReg {
    open spec fn obeys_from_spec() -> bool {
        true
    }

    open spec fn from_spec(val: u8) -> HDACORBSizeReg {
        HDACORBSizeReg(val)
    }
}

impl From<HDACORBSizeReg> for u8 {
    fn from(reg: HDACORBSizeReg) -> (r: u8) {
        reg.0
    }
}

impl vstd::std_specs::convert::FromSpecImpl<HDACORBSizeReg> for u8 {
    open spec fn obeys_from_spec() -> bool {
        true
    }

    open spec fn from_spec(reg: HDACORBSizeReg) -> u8 {
        reg.0
    }
}

/// RIRB size (RIRBSIZE).
#[derive(Clone, Copy, Debug, PartialEq, Eq, Structural)]
pub struct HDARIRBSizeReg(pub u8);

impl HDARIRBSizeReg {
    /// The sizes that the controller supports.
    pub fn size_capability(&self) -> (r: HDARingBufferSizeCapability)
        ensures
            r.0 == bits::field_u8(self.0, 4, 4),
    {
        HDARingBufferSizeCapability(bits::get_field_u8(self.0, 4, 4))
    }

    /// The number of entries of the ring buffer.
    pub fn rirb_size(&self) -> (r: HDARingBufferSize)
        requires
            bits::field_u8(self.0, 0, 2) != 3,
        ensures
            r.bits() == bits::field_u8(self.0, 0, 2),
    {
        proof {
            bits::lemma_field_le_mask_u8(self.0, 0, 2);
            bits::lemma_small_masks();
        }
        let v = bits::get_field_u8(self.0, 0, 2);
        if v == 0 {
            HDARingBufferSize::Two
        } else if v == 1 {
            HDARingBufferSize::Sixteen
        } else {
            HDARingBufferSize::TwoFiftySix
        }
    }

    /// Sets the number of entries of the ring buffer.
    pub fn set_rirb_size(&mut self, size: HDARingBufferSize)
        ensures
            final(self).0 == bits::with_field_u8(old(self).0, 0, 2, size.bits()),
    {
        self.0 = bits::put_field_u8(self.0, 0, 2, size.as_bits());
    }

}

impl From<u8> for HDARIRBSizeReg {
    fn from(val: u8) -> (r: HDARIRBSizeReg) {
        HDARIRBSizeReg(val)
    }
}

impl vstd::std_specs::convert::FromSpecImpl<u8> for HDARIRBSizeReg {
    open spec fn obeys_from_spec() -> bool {
        true
    }

    open spec fn from_spec(val: u8) -> HDARIRBSizeReg {
        HDARIRBSizeReg(val)
    }
}

impl From<HDARIRBSizeReg> for u8 {
    fn from(reg: HDARIRBSizeReg) -> (r: u8) {
        reg.0
    }
}

impl vstd::std_specs::convert::FromSpecImpl<HDARIRBSizeReg> for u8 {
    open spec fn obeys_from_spec() -> bool {
        true
    }

    open spec fn from_spec(reg: HDARIRBSizeReg) -> u8 {
        reg.0
    }
}

/// The RIRB write pointer (RIRBWP).
#[derive(Clone, Copy, Debug, PartialEq, Eq, Structural)]
pub struct HDARIRBWritePointerReg(pub u16);

impl HDARIRBWritePointerReg {
    /// Resets the write pointer to 0 (the bit reads back as 0).
    pub fn reset_write_pointer(&mut self)
        ensures
            final(self).0 == bits::with_bit_u16(old(self).0, 15, true),
    {
        self.0 = bits::put_bit_u16(self.0, 15, true);
    }

    /// The offset of the last response written by the controller.
    pub fn write_pointer(&self) -> (r: u8)
        ensures
            r == bits::field_u16(self.0, 0, 8) as u8,
    {
        bits::get_field_u16(self.0, 0, 8) as u8
    }

}

impl From<u16> for HDARIRBWritePointerReg {
    fn from(val: u16) -> (r: HDARIRBWritePointerReg) {
        HDARIRBWritePointerReg(val)
    }
}

impl vstd::std_specs::convert::FromSpecImpl<u16> for HDARIRBWritePointerReg {
    open spec fn obeys_from_spec() -> bool {
        true
    }

    open spec fn from_spec(val: u16) -> HDARIRBWritePointerReg {
        HDARIRBWritePointerReg(val)
    }
}

impl From<HDARIRBWritePointerReg> for u16 {
    fn from(reg: HDARIRBWritePointerReg) -> (r: u16) {
        reg.0
    }
}

impl vstd::std_specs::convert::FromSpecImpl<HDARIRBWritePointerReg> for u16 {
    open spec fn obeys_from_spec() -> bool {
        true
    }

    open spec fn from_spec(reg: HDARIRBWritePointerReg) -> u16 {
        reg.0
    }
}

/// The response interrupt count (RINTCNT).
#[derive(Clone, Copy, Debug, PartialEq, Eq, Structural)]
pub struct HDAResponseInterruptCountReg(pub u16);

impl HDAResponseInterruptCountReg {
    /// The number of responses after which an interrupt is raised; 0 stands for 256.
    pub fn response_interrupt_count(&self) -> (r: u16)
        ensures
            r == if bits::field_u16(self.0, 0, 8) == 0 { 256 } else { bits::field_u16(self.0, 0, 8) },
    {
        let v = bits::get_field_u16(self.0, 0, 8);
        if v == 0 {
            256
        } else {
            v
        }
    }

    /// Sets the number of responses after which an interrupt is raised.
    pub fn set_response_interrupt_count(&mut self, val: u8)
        ensures
            final(self).0 == bits::with_field_u16(old(self).0, 0, 8, val as u16),
    {
        self.0 = bits::put_field_u16(self.0, 0, 8, val as u16);
    }

}

impl From<u16> for HDAResponseInterruptCountReg {
    fn from(val: u16) -> (r: HDAResponseInterruptCountReg) {
        HDAResponseInterruptCountReg(val)
    }
}

impl vstd::std_specs::convert::FromSpecImpl<u16> for HDAResponseInterruptCountReg {
    open spec fn obeys_from_spec() -> bool {
        true
    }

    open spec fn from_spec(val: u16) -> HDAResponseInterruptCountReg {
        HDAResponseInterruptCountReg(val)
    }
}

impl From<HDAResponseInterruptCountReg> for u16 {
    fn from(reg: HDAResponseInterruptCountReg) -> (r: u16) {
        reg.0
    }
}

impl vstd::std_specs::convert::FromSpecImpl<HDAResponseInterruptCountReg> for u16 {
    open spec fn obeys_from_spec() -> bool {
        true
    }

    open spec fn from_spec(reg: HDAResponseInterruptCountReg) -> u16 {
        reg.0
    }
}

/// RIRB control (RIRBCTL).
#[derive(Clone, Copy, Debug, PartialEq, Eq, Structural)]
pub struct HDARIRBControlReg(pub u8);

impl HDARIRBControlReg {
    /// The response overrun interrupt control bit.
    pub fn response_overrun_interrupt_control(&self) -> (r: bool)
        ensures
            r == bits::bit_u8(self.0, 2),
    {
        bits::get_bit_u8(self.0, 2)
    }

    /// Writes the response overrun interrupt control bit; the bit is cleared when `set` holds.
    pub fn set_response_overrun_interrupt_control(&mut self, set: bool)
        ensures
            final(self).0 == bits::with_bit_u8(old(self).0, 2, !set),
    {
        self.0 = bits::put_bit_u8(self.0, 2, !set);
    }

    /// Whether the RIRB DMA engine runs.
    pub fn rirb_dma_engine_enabled(&self) -> (r: bool)
        ensures
            r == bits::bit_u8(self.0, 1),
    {
        bits::get_bit_u8(self.0, 1)
    }

    /// Runs or stops the RIRB DMA engine.
    pub fn enable_rirb_dma_engine(&mut self, enable: bool)
        ensures
            final(self).0 == bits::with_bit_u8(old(self).0, 1, enable),
    {
        self.0 = bits::put_bit_u8(self.0, 1, enable);
    }

    /// Enables or disables the response interrupt.
    pub fn enable_interrupt(&mut self, enable: bool)
        ensures
            final(self).0 == bits::with_bit_u8(old(self).0, 0, enable),
    {
        self.0 = bits::put_bit_u8(self.0, 0, enable);
    }

}

impl From<u8> for HDARIRBControlReg {
    fn from(val: u8) -> (r: HDARIRBControlReg) {
        HDARIRBControlReg(val)
    }
}

impl vstd::std_specs::convert::FromSpecImpl<u8> for HDARIRBControlReg {
    open spec fn obeys_from_spec() -> bool {
        true
    }

    open spec fn from_spec(val: u8) -> HDARIRBControlReg {
        HDARIRBControlReg(val)
    }
}

impl From<HDARIRBControlReg> for u8 {
    fn from(reg: HDARIRBControlReg) -> (r: u8) {
        reg.0
    }
}

impl vstd::std_specs::convert::FromSpecImpl<HDARIRBControlReg> for u8 {
    open spec fn obeys_from_spec() -> bool {
        true
    }

    open spec fn from_spec(reg: HDARIRBControlReg) -> u8 {
        reg.0
    }
}

/// RIRB status (RIRBSTS).
#[derive(Clone, Copy, Debug, PartialEq, Eq, Structural)]
pub struct HDARIRBStatusReg(pub u8);

impl HDARIRBStatusReg {
    /// Whether responses were dropped because the RIRB overran.
    pub fn response_overrun_interrupt_status(&self) -> (r: bool)
        ensures
            r == bits::bit_u8(self.0, 2),
    {
        bits::get_bit_u8(self.0, 2)
    }

    /// Clears the overrun status (by writing a 1).
    pub fn clear_response_overrun_interrupt_status(&mut self)
        ensures
            final(self).0 == bits::with_bit_u8(old(self).0, 2, true),
    {
        self.0 = bits::put_bit_u8(self.0, 2, true);
    }

    /// Whether a response interrupt was raised.
    pub fn response_interrupt_flag(&self) -> (r: bool)
        ensures
            r == bits::bit_u8(self.0, 0),
    {
        bits::get_bit_u8(self.0, 0)
    }

    /// Clears the response interrupt flag (by writing a 1).
    pub fn clear_response_interrupt_flag(&mut self)
        ensures
            final(self).0 == bits::with_bit_u8(old(self).0, 0, true),
    {
        self.0 = bits::put_bit_u8(self.0, 0, true);
    }

}

impl From<u8> for HDARIRBStatusReg {
    fn from(val: u8) -> (r: HDARIRBStatusReg) {
        HDARIRBStatusReg(val)
    }
}

impl vstd::std_specs::convert::FromSpecImpl<u8> for HDARIRBStatusReg {
    open spec fn obeys_from_spec() -> bool {
        true
    }

    open spec fn from_spec(val: u8) -> HDARIRBStatusReg {
        HDARIRBStatusReg(val)
    }
}

/// The lower base address of the DMA position buffer (DPLBASE).
#[derive(Clone, Copy, Debug, PartialEq, Eq, Structural)]
pub struct HDADMAPosLowerBaseAddrReg(pub u32);

impl HDADMAPosLowerBaseAddrReg {
    /// The 128-byte aligned address, shifted down by 7 bits.
    pub fn lower_base_addr(&self) -> (r: u32)
        ensures
            r == bits::field_u32(self.0, 7, 25),
    {
        bits::get_field_u32(self.0, 7, 25)
    }

    /// Sets the address; its low 7 bits are dropped.
    pub fn set_lower_base_addr(&mut self, addr: u32)
        ensures
            final(self).0 == bits::with_field_u32(old(self).0, 7, 25, addr >> 7),
    {
        self.0 = bits::put_field_u32(self.0, 7, 25, addr >> 7);
    }

    /// Whether the controller writes the DMA positions to memory.
    pub fn dma_position_buffer_enabled(&self) -> (r: bool)
        ensures
            r == bits::bit_u32(self.0, 0),
    {
        bits::get_bit_u32(self.0, 0)
    }

    /// Enables or disables the DMA position buffer.
    pub fn enable_dma_position_buffer(&mut self, enable: bool)
        ensures
            final(self).0 == bits::with_bit_u32(old(self).0, 0, enable),
    {
        self.0 = bits::put_bit_u32(self.0, 0, enable);
    }

}

impl From<u32> for HDADMAPosLowerBaseAddrReg {
    fn from(val: u32) -> (r: HDADMAPosLowerBaseAddrReg) {
        HDADMAPosLowerBaseAddrReg(val)
    }
}

impl vstd::std_specs::convert::FromSpecImpl<u32> for HDADMAPosLowerBaseAddrReg {
    open spec fn obeys_from_spec() -> bool {
        true
    }

    open spec fn from_spec(val: u32) -> HDADMAPosLowerBaseAddrReg {
        HDADMAPosLowerBaseAddrReg(val)
    }
}

impl From<HDADMAPosLowerBaseAddrReg> for u32 {
    fn from(reg: HDADMAPosLowerBaseAddrReg) -> (r: u32) {
        reg.0
    }
}

impl vstd::std_specs::convert::FromSpecImpl<HDADMAPosLowerBaseAddrReg> for u32 {
    open spec fn obeys_from_spec() -> bool {
        true
    }

    open spec fn from_spec(reg: HDADMAPosLowerBaseAddrReg) -> u32 {
        reg.0
    }
}

/// The number of entries of a CORB or RIRB.
#[derive(Clone, Copy, Debug, PartialEq, Eq, Structural)]
pub enum HDARingBufferSize {
    Two,
    Sixteen,
    TwoFiftySix,
}

impl HDARingBufferSize {
    /// The encoding of the value in its register field.
    pub open spec fn bits(self) -> u8 {
        match self {
            HDARingBufferSize::Two => 0,
            HDARingBufferSize::Sixteen => 1,
            HDARingBufferSize::TwoFiftySix => 2,
        }
    }

    /// The encoding of the value in its register field.
    pub fn as_bits(&self) -> (r: u8)
        ensures
            r == self.bits(),
    {
        match *self {
            HDARingBufferSize::Two => 0,
            HDARingBufferSize::Sixteen => 1,
            HDARingBufferSize::TwoFiftySix => 2,
        }
    }
}

/// The value that a register field encodes, if any.
pub open spec fn decode_hdaringbuffersize(v: u8) -> Result<HDARingBufferSize, ()> {
    match v {
            0 => Ok(HDARingBufferSize::Two),
            1 => Ok(HDARingBufferSize::Sixteen),
            2 => Ok(HDARingBufferSize::TwoFiftySix),
        _ => Err(()),
    }
}

impl TryFrom<u8> for HDARingBufferSize {
    type Error = ();

    fn try_from(v: u8) -> (r: Result<HDARingBufferSize, ()>) {
        match v {
            0 => Ok(HDARingBufferSize::Two),
            1 => Ok(HDARingBufferSize::Sixteen),
            2 => Ok(HDARingBufferSize::TwoFiftySix),
            _ => Err(()),
        }
    }
}

impl vstd::std_specs::convert::TryFromSpecImpl<u8> for HDARingBufferSize {
    open spec fn obeys_try_from_spec() -> bool {
        true
    }

    open spec fn try_from_spec(v: u8) -> Result<HDARingBufferSize, ()> {
        decode_hdaringbuffersize(v)
    }
}

impl HDARingBufferSize {
    /// The number of entries as a number.
    pub open spec fn entries(self) -> u16 {
        match self {
            HDARingBufferSize::Two => 2,
            HDARingBufferSize::Sixteen => 16,
            HDARingBufferSize::TwoFiftySix => 256,
        }
    }

    /// The number of entries as a number.
    pub fn entries_as_u16(&self) -> (r: u16)
        ensures
            r == self.entries(),
    {
        match *self {
            HDARingBufferSize::Two => 2,
            HDARingBufferSize::Sixteen => 16,
            HDARingBufferSize::TwoFiftySix => 256,
        }
    }
}

/// The stream descriptor control register (SDCTL), 24 bits wide.
#[derive(Clone, Copy, Debug, PartialEq, Eq, Structural)]
pub struct HDAStreamDescriptorControlReg {
    pub low: u16,
    pub high: u8,
}

/// The 24-bit value of a stream descriptor control register.
pub open spec fn sdctl_value(r: HDAStreamDescriptorControlReg) -> u32 {
    (r.low as u32) | ((r.high as u32) << 16u32)
}

/// Whether the control register holds the 24-bit value `v`.
pub open spec fn sdctl_holds(r: HDAStreamDescriptorControlReg, v: u32) -> bool {
    &&& r.low == (v & 0xffff) as u16
    &&& r.high == ((v >> 16u32) & 0xff) as u8
}

impl HDAStreamDescriptorControlReg {
    /// The register as one value.
    pub fn as_u32(&self) -> (r: u32)
        ensures
            r == sdctl_value(*self),
    {
        (self.low as u32) | ((self.high as u32) << 16u32)
    }

    /// Stores the low 24 bits of `n`.
    pub fn set_u32(&mut self, n: u32)
        ensures
            sdctl_holds(*final(self), n),
    {
        self.low = (n & 0xffff) as u16;
        self.high = ((n >> 16u32) & 0xff) as u8;
    }

    /// The stream tag, 0 for unused and 1 to 15 otherwise.
    pub fn stream_number(&self) -> (r: u8)
        ensures
            r == bits::field_u32(sdctl_value(*self), 20, 4) as u8,
    {
        bits::get_field_u32(self.as_u32(), 20, 4) as u8
    }

    /// Sets the stream tag.
    pub fn set_stream_number(&mut self, n: u8)
        requires
            0 < n < 16,
        ensures
            sdctl_holds(*final(self), bits::with_field_u32(sdctl_value(*old(self)), 20, 4, n as u32)),
    {
        let val = bits::put_field_u32(self.as_u32(), 20, 4, n as u32);
        self.set_u32(val);
    }

    /// Whether a descriptor error raises an interrupt.
    pub fn descriptor_error_interrupt_enabled(&self) -> (r: bool)
        ensures
            r == bits::bit_u32(sdctl_value(*self), 4),
    {
        bits::get_bit_u32(self.as_u32(), 4)
    }

    /// Enables or disables the descriptor error interrupt.
    pub fn enable_descriptor_error_interrupt(&mut self, enable: bool)
        ensures
            sdctl_holds(*final(self), bits::with_bit_u32(sdctl_value(*old(self)), 4, enable)),
    {
        let val = bits::put_bit_u32(self.as_u32(), 4, enable);
        self.set_u32(val);
    }

    /// Whether a FIFO error raises an interrupt.
    pub fn fifo_interrupt_enabled(&self) -> (r: bool)
        ensures
            r == bits::bit_u32(sdctl_value(*self), 3),
    {
        bits::get_bit_u32(self.as_u32(), 3)
    }

    /// Enables or disables the FIFO error interrupt.
    pub fn enable_fifo_interrupt(&mut self, enable: bool)
        ensures
            sdctl_holds(*final(self), bits::with_bit_u32(sdctl_value(*old(self)), 3, enable)),
    {
        let val = bits::put_bit_u32(self.as_u32(), 3, enable);
        self.set_u32(val);
    }

    /// Whether a completed buffer with its IOC bit raises an interrupt.
    pub fn interrupt_on_completion_enabled(&self) -> (r: bool)
        ensures
            r == bits::bit_u32(sdctl_value(*self), 2),
    {
        bits::get_bit_u32(self.as_u32(), 2)
    }

    /// Enables or disables the interrupt on completion.
    pub fn set_interrupt_on_completion_enable(&mut self, enable: bool)
        ensures
            sdctl_holds(*final(self), bits::with_bit_u32(sdctl_value(*old(self)), 2, enable)),
    {
        let val = bits::put_bit_u32(self.as_u32(), 2, enable);
        self.set_u32(val);
    }

    /// Whether the DMA engine of the stream runs.
    pub fn stream_run(&self) -> (r: bool)
        ensures
            r == bits::bit_u32(sdctl_value(*self), 1),
    {
        bits::get_bit_u32(self.as_u32(), 1)
    }

    /// Runs or stops the DMA engine of the stream.
    pub fn set_stream_run(&mut self, enable: bool)
        ensures
            sdctl_holds(*final(self), bits::with_bit_u32(sdctl_value(*old(self)), 1, enable)),
    {
        let val = bits::put_bit_u32(self.as_u32(), 1, enable);
        self.set_u32(val);
    }

    /// Whether the stream is in reset.
    pub fn stream_reset(&self) -> (r: bool)
        ensures
            r == bits::bit_u32(sdctl_value(*self), 0),
    {
        bits::get_bit_u32(self.as_u32(), 0)
    }

    /// Puts the stream in reset.
    pub fn enter_stream_reset(&mut self)
        ensures
            sdctl_holds(*final(self), bits::with_bit_u32(sdctl_value(*old(self)), 0, true)),
    {
        let val = bits::put_bit_u32(self.as_u32(), 0, true);
        self.set_u32(val);
    }

    /// Takes the stream out of reset.
    pub fn exit_stream_reset(&mut self)
        ensures
            sdctl_holds(*final(self), bits::with_bit_u32(sdctl_value(*old(self)), 0, false)),
    {
        let val = bits::put_bit_u32(self.as_u32(), 0, false);
        self.set_u32(val);
    }
}

/// Stream descriptor status (SDSTS).
#[derive(Clone, Copy, Debug, PartialEq, Eq, Structural)]
pub struct HDAStreamDescriptorStatusReg(pub u8);

impl HDAStreamDescriptorStatusReg {
    /// Whether the FIFO holds enough data to keep the stream going.
    pub fn fifo_ready(&self) -> (r: bool)
        ensures
            r == bits::bit_u8(self.0, 5),
    {
        bits::get_bit_u8(self.0, 5)
    }

    /// Whether fetching a descriptor failed.
    pub fn descriptor_error(&self) -> (r: bool)
        ensures
            r == bits::bit_u8(self.0, 4),
    {
        bits::get_bit_u8(self.0, 4)
    }

    /// Whether a FIFO error occurred.
    pub fn fifo_error(&self) -> (r: bool)
        ensures
            r == bits::bit_u8(self.0, 3),
    {
        bits::get_bit_u8(self.0, 3)
    }

    /// Clears the FIFO error (by writing a 1).
    pub fn clear_fifo_error(&mut self)
        ensures
            final(self).0 == bits::with_bit_u8(old(self).0, 3, true),
    {
        self.0 = bits::put_bit_u8(self.0, 3, true);
    }

    /// Whether a buffer with its IOC bit was completed.
    pub fn buffer_completion_interrupt_status(&self) -> (r: bool)
        ensures
            r == bits::bit_u8(self.0, 2),
    {
        bits::get_bit_u8(self.0, 2)
    }

}

impl From<u8> for HDAStreamDescriptorStatusReg {
    fn from(val: u8) -> (r: HDAStreamDescriptorStatusReg) {
        HDAStreamDescriptorStatusReg(val)
    }
}

impl vstd::std_specs::convert::FromSpecImpl<u8> for HDAStreamDescriptorStatusReg {
    open spec fn obeys_from_spec() -> bool {
        true
    }

    open spec fn from_spec(val: u8) -> HDAStreamDescriptorStatusReg {
        HDAStreamDescriptorStatusReg(val)
    }
}

/// The link position in the cyclic buffer (SDLPIB).
#[derive(Clone, Copy, Debug, PartialEq, Eq, Structural)]
pub struct HDAStreamDescriptorLinkPosReg(pub u32);

impl HDAStreamDescriptorLinkPosReg {
    /// The number of bytes taken off the link.
    pub fn link_pos_in_buffer(&self) -> (r: u32)
        ensures
            r == self.0,
    {
        self.0
    }

}

impl From<u32> for HDAStreamDescriptorLinkPosReg {
    fn from(val: u32) -> (r: HDAStreamDescriptorLinkPosReg) {
        HDAStreamDescriptorLinkPosReg(val)
    }
}

impl vstd::std_specs::convert::FromSpecImpl<u32> for HDAStreamDescriptorLinkPosReg {
    open spec fn obeys_from_spec() -> bool {
        true
    }

    open spec fn from_spec(val: u32) -> HDAStreamDescriptorLinkPosReg {
        HDAStreamDescriptorLinkPosReg(val)
    }
}

/// The length of the cyclic buffer (SDCBL).
#[derive(Clone, Copy, Debug, PartialEq, Eq, Structural)]
pub struct HDAStreamDescriptorCyclicBufferLenReg(pub u32);

impl HDAStreamDescriptorCyclicBufferLenReg {
    /// The number of bytes in the cyclic buffer.
    pub fn cyclic_buffer_len(&self) -> (r: u32)
        ensures
            r == self.0,
    {
        self.0
    }

    /// Sets the number of bytes in the cyclic buffer.
    pub fn set_cyclic_buffer_len(&mut self, len: usize)
        requires
            len <= u32::MAX,
        ensures
            final(self).0 == len,
    {
        self.0 = len as u32;
    }

}

impl From<u32> for HDAStreamDescriptorCyclicBufferLenReg {
    fn from(val: u32) -> (r: HDAStreamDescriptorCyclicBufferLenReg) {
        HDAStreamDescriptorCyclicBufferLenReg(val)
    }
}

impl vstd::std_specs::convert::FromSpecImpl<u32> for HDAStreamDescriptorCyclicBufferLenReg {
    open spec fn obeys_from_spec() -> bool {
        true
    }

    open spec fn from_spec(val: u32) -> HDAStreamDescriptorCyclicBufferLenReg {
        HDAStreamDescriptorCyclicBufferLenReg(val)
    }
}

/// The last valid index of the buffer descriptor list (SDLVI).
#[derive(Clone, Copy, Debug, PartialEq, Eq, Structural)]
pub struct HDAStreamDescriptorLastValidIndexReg(pub u16);

impl HDAStreamDescriptorLastValidIndexReg {
    /// The index of the last valid buffer descriptor.
    pub fn last_valid_index(&self) -> (r: u8)
        ensures
            r == bits::field_u16(self.0, 0, 8) as u8,
    {
        bits::get_field_u16(self.0, 0, 8) as u8
    }

    /// Sets the index of the last valid buffer descriptor.
    pub fn set_last_valid_index(&mut self, idx: u8)
        ensures
            final(self).0 == bits::with_field_u16(old(self).0, 0, 8, idx as u16),
    {
        self.0 = bits::put_field_u16(self.0, 0, 8, idx as u16);
    }

}

impl From<u16> for HDAStreamDescriptorLastValidIndexReg {
    fn from(val: u16) -> (r: HDAStreamDescriptorLastValidIndexReg) {
        HDAStreamDescriptorLastValidIndexReg(val)
    }
}

impl vstd::std_specs::convert::FromSpecImpl<u16> for HDAStreamDescriptorLastValidIndexReg {
    open spec fn obeys_from_spec() -> bool {
        true
    }

    open spec fn from_spec(val: u16) -> HDAStreamDescriptorLastValidIndexReg {
        HDAStreamDescriptorLastValidIndexReg(val)
    }
}

/// The FIFO size of a stream (SDFIFOS).
#[derive(Clone, Copy, Debug, PartialEq, Eq, Structural)]
pub struct HDAStreamDescriptorFIFOSizeReg(pub u16);

impl HDAStreamDescriptorFIFOSizeReg {
    /// The largest number of bytes fetched at a time.
    pub fn fifo_size(&self) -> (r: u16)
        ensures
            r == self.0,
    {
        self.0
    }

}

impl From<u16> for HDAStreamDescriptorFIFOSizeReg {
    fn from(val: u16) -> (r: HDAStreamDescriptorFIFOSizeReg) {
        HDAStreamDescriptorFIFOSizeReg(val)
    }
}

impl vstd::std_specs::convert::FromSpecImpl<u16> for HDAStreamDescriptorFIFOSizeReg {
    open spec fn obeys_from_spec() -> bool {
        true
    }

    open spec fn from_spec(val: u16) -> HDAStreamDescriptorFIFOSizeReg {
        HDAStreamDescriptorFIFOSizeReg(val)
    }
}

/// The base sample rate of a stream.
#[derive(Clone, Copy, Debug, PartialEq, Eq, Structural)]
pub enum SampleBaseRate {
    /// 44.1 kHz
    KHz44P1,
    /// 48 kHz
    KHz48,
}

/// The multiple of the base sample rate.
#[derive(Clone, Copy, Debug, PartialEq, Eq, Structural)]
pub enum SampleBaseRateMultiple {
    KHz48OrLess,
    X2,
    X3,
    X4,
}

impl SampleBaseRateMultiple {
    /// The encoding of the value in its register field.
    pub open spec fn bits(self) -> u8 {
        match self {
            SampleBaseRateMultiple::KHz48OrLess => 0,
            SampleBaseRateMultiple::X2 => 1,
            SampleBaseRateMultiple::X3 => 2,
            SampleBaseRateMultiple::X4 => 3,
        }
    }

    /// The encoding of the value in its register field.
    pub fn as_bits(&self) -> (r: u8)
        ensures
            r == self.bits(),
    {
        match *self {
            SampleBaseRateMultiple::KHz48OrLess => 0,
            SampleBaseRateMultiple::X2 => 1,
            SampleBaseRateMultiple::X3 => 2,
            SampleBaseRateMultiple::X4 => 3,
        }
    }
}

/// The value that a register field encodes, if any.
pub open spec fn decode_samplebaseratemultiple(v: u8) -> Result<SampleBaseRateMultiple, ()> {
    match v {
            0 => Ok(SampleBaseRateMultiple::KHz48OrLess),
            1 => Ok(SampleBaseRateMultiple::X2),
            2 => Ok(SampleBaseRateMultiple::X3),
            3 => Ok(SampleBaseRateMultiple::X4),
        _ => Err(()),
    }
}

impl TryFrom<u8> for SampleBaseRateMultiple {
    type Error = ();

    fn try_from(v: u8) -> (r: Result<SampleBaseRateMultiple, ()>) {
        match v {
            0 => Ok(SampleBaseRateMultiple::KHz48OrLess),
            1 => Ok(SampleBaseRateMultiple::X2),
            2 => Ok(SampleBaseRateMultiple::X3),
            3 => Ok(SampleBaseRateMultiple::X4),
            _ => Err(()),
        }
    }
}

impl vstd::std_specs::convert::TryFromSpecImpl<u8> for SampleBaseRateMultiple {
    open spec fn obeys_try_from_spec() -> bool {
        true
    }

    open spec fn try_from_spec(v: u8) -> Result<SampleBaseRateMultiple, ()> {
        decode_samplebaseratemultiple(v)
    }
}

/// The divisor of the base sample rate.
#[derive(Clone, Copy, Debug, PartialEq, Eq, Structural)]
pub enum SampleBaseRateDivisor {
    One,
    Two,
    Three,
    Four,
    Five,
    Six,
    Seven,
    Eight,
}

impl SampleBaseRateDivisor {
    /// The encoding of the value in its register field.
    pub open spec fn bits(self) -> u8 {
        match self {
            SampleBaseRateDivisor::One => 0,
            SampleBaseRateDivisor::Two => 1,
            SampleBaseRateDivisor::Three => 2,
            SampleBaseRateDivisor::Four => 3,
            SampleBaseRateDivisor::Five => 4,
            SampleBaseRateDivisor::Six => 5,
            SampleBaseRateDivisor::Seven => 6,
            SampleBaseRateDivisor::Eight => 7,
        }
    }

    /// The encoding of the value in its register field.
    pub fn as_bits(&self) -> (r: u8)
        ensures
            r == self.bits(),
    {
        match *self {
            SampleBaseRateDivisor::One => 0,
            SampleBaseRateDivisor::Two => 1,
            SampleBaseRateDivisor::Three => 2,
            SampleBaseRateDivisor::Four => 3,
            SampleBaseRateDivisor::Five => 4,
            SampleBaseRateDivisor::Six => 5,
            SampleBaseRateDivisor::Seven => 6,
            SampleBaseRateDivisor::Eight => 7,
        }
    }
}

/// The value that a register field encodes, if any.
pub open spec fn decode_samplebaseratedivisor(v: u8) -> Result<SampleBaseRateDivisor, ()> {
    match v {
            0 => Ok(SampleBaseRateDivisor::One),
            1 => Ok(SampleBaseRateDivisor::Two),
            2 => Ok(SampleBaseRateDivisor::Three),
            3 => Ok(SampleBaseRateDivisor::Four),
            4 => Ok(SampleBaseRateDivisor::Five),
            5 => Ok(SampleBaseRateDivisor::Six),
            6 => Ok(SampleBaseRateDivisor::Seven),
            7 => Ok(SampleBaseRateDivisor::Eight),
        _ => Err(()),
    }
}

impl TryFrom<u8> for SampleBaseRateDivisor {
    type Error = ();

    fn try_from(v: u8) -> (r: Result<SampleBaseRateDivisor, ()>) {
        match v {
            0 => Ok(SampleBaseRateDivisor::One),
            1 => Ok(SampleBaseRateDivisor::Two),
            2 => Ok(SampleBaseRateDivisor::Three),
            3 => Ok(SampleBaseRateDivisor::Four),
            4 => Ok(SampleBaseRateDivisor::Five),
            5 => Ok(SampleBaseRateDivisor::Six),
            6 => Ok(SampleBaseRateDivisor::Seven),
            7 => Ok(SampleBaseRateDivisor::Eight),
            _ => Err(()),
        }
    }
}

impl vstd::std_specs::convert::TryFromSpecImpl<u8> for SampleBaseRateDivisor {
    open spec fn obeys_try_from_spec() -> bool {
        true
    }

    open spec fn try_from_spec(v: u8) -> Result<SampleBaseRateDivisor, ()> {
        decode_samplebaseratedivisor(v)
    }
}

/// The number of bits per sample.
#[derive(Clone, Copy, Debug, PartialEq, Eq, Structural)]
pub enum BitsPerSample {
    Eight,
    Sixteen,
    Twenty,
    TwentyFour,
    ThirtyTwo,
}

impl BitsPerSample {
    /// The encoding of the value in its register field.
    pub open spec fn bits(self) -> u8 {
        match self {
            BitsPerSample::Eight => 0,
            BitsPerSample::Sixteen => 1,
            BitsPerSample::Twenty => 2,
            BitsPerSample::TwentyFour => 3,
            BitsPerSample::ThirtyTwo => 4,
        }
    }

    /// The encoding of the value in its register field.
    pub fn as_bits(&self) -> (r: u8)
        ensures
            r == self.bits(),
    {
        match *self {
            BitsPerSample::Eight => 0,
            BitsPerSample::Sixteen => 1,
            BitsPerSample::Twenty => 2,
            BitsPerSample::TwentyFour => 3,
            BitsPerSample::ThirtyTwo => 4,
        }
    }
}

/// The value that a register field encodes, if any.
pub open spec fn decode_bitspersample(v: u8) -> Result<BitsPerSample, ()> {
    match v {
            0 => Ok(BitsPerSample::Eight),
            1 => Ok(BitsPerSample::Sixteen),
            2 => Ok(BitsPerSample::Twenty),
            3 => Ok(BitsPerSample::TwentyFour),
            4 => Ok(BitsPerSample::ThirtyTwo),
        _ => Err(()),
    }
}

impl TryFrom<u8> for BitsPerSample {
    type Error = ();

    fn try_from(v: u8) -> (r: Result<BitsPerSample, ()>) {
        match v {
            0 => Ok(BitsPerSample::Eight),
            1 => Ok(BitsPerSample::Sixteen),
            2 => Ok(BitsPerSample::Twenty),
            3 => Ok(BitsPerSample::TwentyFour),
            4 => Ok(BitsPerSample::ThirtyTwo),
            _ => Err(()),
        }
    }
}

impl vstd::std_specs::convert::TryFromSpecImpl<u8> for BitsPerSample {
    open spec fn obeys_try_from_spec() -> bool {
        true
    }

    open spec fn try_from_spec(v: u8) -> Result<BitsPerSample, ()> {
        decode_bitspersample(v)
    }
}

/// The number of channels of a stream.
#[derive(Clone, Copy, Debug, PartialEq, Eq, Structural)]
pub enum NumOfChannels {
    One,
    Two,
    Three,
    Four,
    Five,
    Six,
    Seven,
    Eight,
    Nine,
    Ten,
    Eleven,
    Twelve,
    Thirteen,
    Fourteen,
    Fifteen,
    Sixteen,
}

impl NumOfChannels {
    /// The encoding of the value in its register field.
    pub open spec fn bits(self) -> u8 {
        match self {
            NumOfChannels::One => 0,
            NumOfChannels::Two => 1,
            NumOfChannels::Three => 2,
            NumOfChannels::Four => 3,
            NumOfChannels::Five => 4,
            NumOfChannels::Six => 5,
            NumOfChannels::Seven => 6,
            NumOfChannels::Eight => 7,
            NumOfChannels::Nine => 8,
            NumOfChannels::Ten => 9,
            NumOfChannels::Eleven => 10,
            NumOfChannels::Twelve => 11,
            NumOfChannels::Thirteen => 12,
            NumOfChannels::Fourteen => 13,
            NumOfChannels::Fifteen => 14,
            NumOfChannels::Sixteen => 15,
        }
    }

    /// The encoding of the value in its register field.
    pub fn as_bits(&self) -> (r: u8)
        ensures
            r == self.bits(),
    {
        match *self {
            NumOfChannels::One => 0,
            NumOfChannels::Two => 1,
            NumOfChannels::Three => 2,
            NumOfChannels::Four => 3,
            NumOfChannels::Five => 4,
            NumOfChannels::Six => 5,
            NumOfChannels::Seven => 6,
            NumOfChannels::Eight => 7,
            NumOfChannels::Nine => 8,
            NumOfChannels::Ten => 9,
            NumOfChannels::Eleven => 10,
            NumOfChannels::Twelve => 11,
            NumOfChannels::Thirteen => 12,
            NumOfChannels::Fourteen => 13,
            NumOfChannels::Fifteen => 14,
            NumOfChannels::Sixteen => 15,
        }
    }
}

/// The value that a register field encodes, if any.
pub open spec fn decode_numofchannels(v: u8) -> Result<NumOfChannels, ()> {
    match v {
            0 => Ok(NumOfChannels::One),
            1 => Ok(NumOfChannels::Two),
            2 => Ok(NumOfChannels::Three),
            3 => Ok(NumOfChannels::Four),
            4 => Ok(NumOfChannels::Five),
            5 => Ok(NumOfChannels::Six),
            6 => Ok(NumOfChannels::Seven),
            7 => Ok(NumOfChannels::Eight),
            8 => Ok(NumOfChannels::Nine),
            9 => Ok(NumOfChannels::Ten),
            10 => Ok(NumOfChannels::Eleven),
            11 => Ok(NumOfChannels::Twelve),
            12 => Ok(NumOfChannels::Thirteen),
            13 => Ok(NumOfChannels::Fourteen),
            14 => Ok(NumOfChannels::Fifteen),
            15 => Ok(NumOfChannels::Sixteen),
        _ => Err(()),
    }
}

impl TryFrom<u8> for NumOfChannels {
    type Error = ();

    fn try_from(v: u8) -> (r: Result<NumOfChannels, ()>) {
        match v {
            0 => Ok(NumOfChannels::One),
            1 => Ok(NumOfChannels::Two),
            2 => Ok(NumOfChannels::Three),
            3 => Ok(NumOfChannels::Four),
            4 => Ok(NumOfChannels::Five),
            5 => Ok(NumOfChannels::Six),
            6 => Ok(NumOfChannels::Seven),
            7 => Ok(NumOfChannels::Eight),
            8 => Ok(NumOfChannels::Nine),
            9 => Ok(NumOfChannels::Ten),
            10 => Ok(NumOfChannels::Eleven),
            11 => Ok(NumOfChannels::Twelve),
            12 => Ok(NumOfChannels::Thirteen),
            13 => Ok(NumOfChannels::Fourteen),
            14 => Ok(NumOfChannels::Fifteen),
            15 => Ok(NumOfChannels::Sixteen),
            _ => Err(()),
        }
    }
}

impl vstd::std_specs::convert::TryFromSpecImpl<u8> for NumOfChannels {
    open spec fn obeys_try_from_spec() -> bool {
        true
    }

    open spec fn try_from_spec(v: u8) -> Result<NumOfChannels, ()> {
        decode_numofchannels(v)
    }
}

/// The format of a stream (SDFMT).
#[derive(Clone, Copy, Debug, PartialEq, Eq, Structural)]
pub struct HDAStreamDescriptorFormatReg(pub u16);

impl HDAStreamDescriptorFormatReg {
    /// The base sample rate.
    pub fn sample_base_rate(&self) -> (r: SampleBaseRate)
        ensures
            r == if bits::bit_u16(self.0, 14) { SampleBaseRate::KHz44P1 } else { SampleBaseRate::KHz48 },
    {
        if bits::get_bit_u16(self.0, 14) {
            SampleBaseRate::KHz44P1
        } else {
            SampleBaseRate::KHz48
        }
    }

    /// Sets the base sample rate.
    pub fn set_sample_base_rate(&mut self, rate: SampleBaseRate)
        ensures
            final(self).0 == bits::with_bit_u16(old(self).0, 14, rate == SampleBaseRate::KHz44P1),
    {
        match rate {
            SampleBaseRate::KHz44P1 => self.0 = bits::put_bit_u16(self.0, 14, true),
            SampleBaseRate::KHz48 => self.0 = bits::put_bit_u16(self.0, 14, false),
        }
    }

    /// The multiple of the base sample rate.
    pub fn sample_base_rate_multiple(&self) -> (r: SampleBaseRateMultiple)
        requires
            bits::field_u16(self.0, 11, 3) <= 3,
        ensures
            decode_samplebaseratemultiple(bits::field_u16(self.0, 11, 3) as u8) == Ok::<SampleBaseRateMultiple, ()>(r),
    {
        proof {
            bits::lemma_field_le_mask_u16(self.0, 11, 3);
            bits::lemma_small_masks();
        }
        let v = bits::get_field_u16(self.0, 11, 3) as u8;
        match SampleBaseRateMultiple::try_from(v) {
            Ok(x) => x,
            Err(_) => SampleBaseRateMultiple::KHz48OrLess,
        }
    }

    /// Sets the multiple of the base sample rate.
    pub fn set_sample_base_rate_multiple(&mut self, v: SampleBaseRateMultiple)
        ensures
            final(self).0 == bits::with_field_u16(old(self).0, 11, 3, v.bits() as u16),
    {
        self.0 = bits::put_field_u16(self.0, 11, 3, v.as_bits() as u16);
    }

    /// The divisor of the base sample rate.
    pub fn sample_base_rate_divisor(&self) -> (r: SampleBaseRateDivisor)
        ensures
            decode_samplebaseratedivisor(bits::field_u16(self.0, 8, 3) as u8) == Ok::<SampleBaseRateDivisor, ()>(r),
    {
        proof {
            bits::lemma_field_le_mask_u16(self.0, 8, 3);
            bits::lemma_small_masks();
        }
        let v = bits::get_field_u16(self.0, 8, 3) as u8;
        match SampleBaseRateDivisor::try_from(v) {
            Ok(x) => x,
            Err(_) => SampleBaseRateDivisor::One,
        }
    }

    /// Sets the divisor of the base sample rate.
    pub fn set_sample_base_rate_divisor(&mut self, v: SampleBaseRateDivisor)
        ensures
            final(self).0 == bits::with_field_u16(old(self).0, 8, 3, v.bits() as u16),
    {
        self.0 = bits::put_field_u16(self.0, 8, 3, v.as_bits() as u16);
    }

    /// The number of bits per sample.
    pub fn bits_per_sample(&self) -> (r: BitsPerSample)
        requires
            bits::field_u16(self.0, 4, 3) <= 4,
        ensures
            decode_bitspersample(bits::field_u16(self.0, 4, 3) as u8) == Ok::<BitsPerSample, ()>(r),
    {
        proof {
            bits::lemma_field_le_mask_u16(self.0, 4, 3);
            bits::lemma_small_masks();
        }
        let v = bits::get_field_u16(self.0, 4, 3) as u8;
        match BitsPerSample::try_from(v) {
            Ok(x) => x,
            Err(_) => BitsPerSample::Eight,
        }
    }

    /// Sets the number of bits per sample.
    pub fn set_bits_per_sample(&mut self, v: BitsPerSample)
        ensures
            final(self).0 == bits::with_field_u16(old(self).0, 4, 3, v.bits() as u16),
    {
        self.0 = bits::put_field_u16(self.0, 4, 3, v.as_bits() as u16);
    }

    /// The number of channels.
    pub fn number_of_channels(&self) -> (r: NumOfChannels)
        ensures
            decode_numofchannels(bits::field_u16(self.0, 0, 4) as u8) == Ok::<NumOfChannels, ()>(r),
    {
        proof {
            bits::lemma_field_le_mask_u16(self.0, 0, 4);
            bits::lemma_small_masks();
        }
        let v = bits::get_field_u16(self.0, 0, 4) as u8;
        match NumOfChannels::try_from(v) {
            Ok(x) => x,
            Err(_) => NumOfChannels::One,
        }
    }

    /// Sets the number of channels.
    pub fn set_number_of_channels(&mut self, v: NumOfChannels)
        ensures
            final(self).0 == bits::with_field_u16(old(self).0, 0, 4, v.bits() as u16),
    {
        self.0 = bits::put_field_u16(self.0, 0, 4, v.as_bits() as u16);
    }

    /// The register value.
    pub fn reg_value(&self) -> (r: u16)
        ensures
            r == self.0,
    {
        self.0
    }

}

impl From<u16> for HDAStreamDescriptorFormatReg {
    fn from(val: u16) -> (r: HDAStreamDescriptorFormatReg) {
        HDAStreamDescriptorFormatReg(val)
    }
}

impl vstd::std_specs::convert::FromSpecImpl<u16> for HDAStreamDescriptorFormatReg {
    open spec fn obeys_from_spec() -> bool {
        true
    }

    open spec fn from_spec(val: u16) -> HDAStreamDescriptorFormatReg {
        HDAStreamDescriptorFormatReg(val)
    }
}

} // verus!
