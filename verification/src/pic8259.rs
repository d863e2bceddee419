//! The two chained 8259 programmable interrupt controllers: which of them an
//! interrupt belongs to, and the port writes that set them up and
//! acknowledge interrupts.
use vstd::prelude::*;
use crate::port::{Port, PortWrite, WAIT_PORT_NO};

verus! {

/// The command that ends an interrupt.
pub const END_OF_INTERRUPT: u8 = 0x20;
/// The command that starts the initialisation.
pub const CMD_INIT: u8 = 0x11;
/// The command port of the primary controller.
pub const PRIMARY_PIC_COMMAND_PORT: u16 = 0x20;
/// The data port of the primary controller.
pub const PRIMARY_PIC_DATA_PORT: u16 = 0x21;
/// The command port of the secondary controller.
pub const SECONDARY_PIC_COMMAND_PORT: u16 = 0xa0;
/// The data port of the secondary controller.
pub const SECONDARY_PIC_DATA_PORT: u16 = 0xa1;
/// The 8086 mode.
pub const MODE_8086: u8 = 0x01;
/// The first vector of the primary controller's lines, right after the exceptions.
pub const PIC_1_OFFSET: u8 = 32;
/// The first vector of the secondary controller's lines, after the primary's.
pub const PIC_2_OFFSET: u8 = 40;

/// One controller: the first vector of its eight lines and its ports.
#[derive(Copy, Clone, Debug, PartialEq, Eq, Structural)]
pub struct Pic {
    pub offset: u8,
    pub command: Port,
    pub data: Port,
}

/// Whether a controller handles the vector `irq`: one of its eight.
pub open spec fn pic_handles(irq: u8, pic: Pic) -> bool {
    pic.offset <= irq < pic.offset + 8
}

/// Whether the controller handles the vector `irq`.
pub fn handles_interrupt(irq: u8, pic: Pic) -> (r: bool)
    ensures
        r == pic_handles(irq, pic),
{
    pic.offset <= irq && (irq as u16) < (pic.offset as u16) + 8
}

/// The primary and the secondary controller.
#[derive(Copy, Clone, Debug, PartialEq, Eq, Structural)]
pub struct Pics {
    pub primary: Pic,
    pub secondary: Pic,
}

/// A write of `value` to `port` and a write to the waiting port.
pub open spec fn write_then_wait(port: u16, value: u8) -> Seq<PortWrite> {
    seq![PortWrite { port, value }, PortWrite { port: WAIT_PORT_NO, value: 0 }]
}

impl Pics {
    /// The controllers at their usual ports, their lines at vectors 32 to 47.
    pub fn new() -> (r: Pics)
        ensures
            r.primary.offset == PIC_1_OFFSET,
            r.primary.command.number == PRIMARY_PIC_COMMAND_PORT,
            r.primary.data.number == PRIMARY_PIC_DATA_PORT,
            r.secondary.offset == PIC_2_OFFSET,
            r.secondary.command.number == SECONDARY_PIC_COMMAND_PORT,
            r.secondary.data.number == SECONDARY_PIC_DATA_PORT,
    {
        Pics {
            primary: Pic {
                offset: PIC_1_OFFSET,
                command: Port::new(PRIMARY_PIC_COMMAND_PORT),
                data: Port::new(PRIMARY_PIC_DATA_PORT),
            },
            secondary: Pic {
                offset: PIC_2_OFFSET,
                command: Port::new(SECONDARY_PIC_COMMAND_PORT),
                data: Port::new(SECONDARY_PIC_DATA_PORT),
            },
        }
    }

    /// The writes that end the interrupt `irq`: to the primary controller
    /// for one of its lines; to the secondary and then the primary for one
    /// of the secondary's; none for another vector.
    pub fn end_of_interrupt(&self, irq: u8) -> (r: std::vec::Vec<PortWrite>)
        ensures
            pic_handles(irq, self.primary) ==> r@ == seq![
                PortWrite { port: self.primary.command.number, value: END_OF_INTERRUPT },
            ],
            !pic_handles(irq, self.primary) && pic_handles(irq, self.secondary) ==> r@ == seq![
                PortWrite { port: self.secondary.command.number, value: END_OF_INTERRUPT },
                PortWrite { port: self.primary.command.number, value: END_OF_INTERRUPT },
            ],
            !pic_handles(irq, self.primary) && !pic_handles(irq, self.secondary) ==> r@ == Seq::<PortWrite>::empty(),
    {
        let mut writes: std::vec::Vec<PortWrite> = std::vec::Vec::new();
        if handles_interrupt(irq, self.primary) {
            writes.push(PortWrite { port: self.primary.command.number, value: END_OF_INTERRUPT });
        } else if handles_interrupt(irq, self.secondary) {
            writes.push(PortWrite { port: self.secondary.command.number, value: END_OF_INTERRUPT });
            writes.push(PortWrite { port: self.primary.command.number, value: END_OF_INTERRUPT });
        }
        writes
    }

    /// The writes that set the interrupt masks.
    pub fn write_masks(&self, primary_mask: u8, secondary_mask: u8) -> (r: std::vec::Vec<PortWrite>)
        ensures
            r@ == seq![
                PortWrite { port: self.primary.data.number, value: primary_mask },
                PortWrite { port: self.secondary.data.number, value: secondary_mask },
            ],
    {
        let mut writes: std::vec::Vec<PortWrite> = std::vec::Vec::new();
        writes.push(PortWrite { port: self.primary.data.number, value: primary_mask });
        writes.push(PortWrite { port: self.secondary.data.number, value: secondary_mask });
        writes
    }

    /// The ports that the interrupt masks are read from.
    pub fn read_masks(&self) -> (r: (u16, u16))
        ensures
            r == (self.primary.data.number, self.secondary.data.number),
    {
        (self.primary.data.number, self.secondary.data.number)
    }

    /// The writes that remap the controllers to their offsets: the start of
    /// the initialisation, the offsets, the cascade on line 2, the 8086 mode,
    /// each followed by a wait; then the masks that let through only the
    /// keyboard and line 11.
    pub fn init(&self) -> (r: std::vec::Vec<PortWrite>)
        ensures
            r@ == write_then_wait(self.primary.command.number, CMD_INIT) + write_then_wait(
                self.secondary.command.number,
                CMD_INIT,
            ) + write_then_wait(self.primary.data.number, self.primary.offset) + write_then_wait(
                self.secondary.data.number,
                self.secondary.offset,
            ) + write_then_wait(self.primary.data.number, 4) + write_then_wait(self.secondary.data.number, 2)
                + write_then_wait(self.primary.data.number, MODE_8086) + write_then_wait(
                self.secondary.data.number,
                MODE_8086,
            ) + seq![
                PortWrite { port: self.primary.data.number, value: 0b11111_0_0_0 },
                PortWrite { port: self.secondary.data.number, value: 0b1111_0111 },
            ],
    {
        let mut w: std::vec::Vec<PortWrite> = std::vec::Vec::new();
        let p_cmd = self.primary.command.number;
        let s_cmd = self.secondary.command.number;
        let p_data = self.primary.data.number;
        let s_data = self.secondary.data.number;
        w.push(PortWrite { port: p_cmd, value: CMD_INIT });
        w.push(PortWrite { port: WAIT_PORT_NO, value: 0 });
        w.push(PortWrite { port: s_cmd, value: CMD_INIT });
        w.push(PortWrite { port: WAIT_PORT_NO, value: 0 });
        w.push(PortWrite { port: p_data, value: self.primary.offset });
        w.push(PortWrite { port: WAIT_PORT_NO, value: 0 });
        w.push(PortWrite { port: s_data, value: self.secondary.offset });
        w.push(PortWrite { port: WAIT_PORT_NO, value: 0 });
        w.push(PortWrite { port: p_data, value: 4 });
        w.push(PortWrite { port: WAIT_PORT_NO, value: 0 });
        w.push(PortWrite { port: s_data, value: 2 });
        w.push(PortWrite { port: WAIT_PORT_NO, value: 0 });
        w.push(PortWrite { port: p_data, value: MODE_8086 });
        w.push(PortWrite { port: WAIT_PORT_NO, value: 0 });
        w.push(PortWrite { port: s_data, value: MODE_8086 });
        w.push(PortWrite { port: WAIT_PORT_NO, value: 0 });
        let masks = self.write_masks(0b11111_0_0_0, 0b1111_0111);
        w.push(masks[0]);
        w.push(masks[1]);
        assert(w@ =~= write_then_wait(p_cmd, CMD_INIT) + write_then_wait(s_cmd, CMD_INIT) + write_then_wait(
            p_data,
            self.primary.offset,
        ) + write_then_wait(s_data, self.secondary.offset) + write_then_wait(p_data, 4) + write_then_wait(
            s_data,
            2,
        ) + write_then_wait(p_data, MODE_8086) + write_then_wait(s_data, MODE_8086) + seq![
            PortWrite { port: p_data, value: 0b11111_0_0_0 },
            PortWrite { port: s_data, value: 0b1111_0111 },
        ]);
        w
    }
}

} // verus!
