//! The real-time clock in the CMOS: which registers hold the time, how a
//! register is selected, and the time they make up.
use vstd::prelude::*;

verus! {

/// The port that selects a CMOS register.
pub const CMOS_SELECT_PORT: u16 = 0x70;
/// The port that gives the selected register's value.
pub const CMOS_DATA_PORT: u16 = 0x71;
/// The bit of the selecting byte that keeps non-maskable interrupts enabled.
pub const NMI_ENABLED: u8 = 0x80;

/// The registers of the time, in the order read: seconds, minutes, hours,
/// weekday, day of the month, month, year.
pub const TIME_REGISTERS: [u8; 7] = [0x00, 0x02, 0x04, 0x06, 0x07, 0x08, 0x09];

/// The byte that selects register `register_no` and keeps non-maskable
/// interrupts as they are.
pub fn register_select_value(register_no: u8) -> (r: u8)
    ensures
        r == NMI_ENABLED | register_no,
{
    NMI_ENABLED | register_no
}

/// The time that the clock gives.
#[derive(Copy, Clone, Debug, PartialEq, Eq, Structural)]
pub struct RTCTime {
    pub year: usize,
    pub month: usize,
    pub day_of_month: usize,
    pub weekday: usize,
    pub hours: usize,
    pub minutes: usize,
    pub seconds: usize,
}

impl RTCTime {
    /// The time whose registers, in the order of `TIME_REGISTERS`, hold `values`.
    pub fn from_register_values(values: [u8; 7]) -> (r: RTCTime)
        ensures
            r.seconds == values@[0],
            r.minutes == values@[1],
            r.hours == values@[2],
            r.weekday == values@[3],
            r.day_of_month == values@[4],
            r.month == values@[5],
            r.year == values@[6],
    {
        RTCTime {
            seconds: values[0] as usize,
            minutes: values[1] as usize,
            hours: values[2] as usize,
            weekday: values[3] as usize,
            day_of_month: values[4] as usize,
            month: values[5] as usize,
            year: values[6] as usize,
        }
    }

    /// The sum of the fields, a number that changes with the time.
    pub fn sum_of_fields(&self) -> (r: usize)
        requires
            self.year + self.month + self.day_of_month + self.weekday + self.hours + self.minutes + self.seconds
                <= usize::MAX,
        ensures
            r == self.year + self.month + self.day_of_month + self.weekday + self.hours + self.minutes + self.seconds,
    {
        self.year + self.month + self.day_of_month + self.weekday + self.hours + self.minutes + self.seconds
    }
}

} // verus!
