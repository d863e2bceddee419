//! I/O ports: their numbers, and the writes that device set-up consists of.
use vstd::prelude::*;

verus! {

/// An I/O port.
#[derive(Copy, Clone, Debug, PartialEq, Eq, Structural)]
pub struct Port {
    pub number: u16,
}

impl Port {
    /// The port with number `port`.
    pub fn new(port: u16) -> (r: Port)
        ensures
            r.number == port,
    {
        Port { number: port }
    }
}

/// Reading and writing an I/O port.
pub trait PortReadWrite {
    type T;

    /// The value the port gives.
    fn read(&self) -> Self::T;

    /// Gives the port a value.
    fn write(&mut self, value: Self::T);
}

/// A byte to write to a port.
#[derive(Copy, Clone, Debug, PartialEq, Eq, Structural)]
pub struct PortWrite {
    pub port: u16,
    pub value: u8,
}

/// A word to write to a port.
#[derive(Copy, Clone, Debug, PartialEq, Eq, Structural)]
pub struct PortWrite16 {
    pub port: u16,
    pub value: u16,
}

/// The port whose writes only let a little time pass.
pub const WAIT_PORT_NO: u16 = 0x80;

} // verus!
