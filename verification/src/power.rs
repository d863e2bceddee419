//! Powering the machine off through ACPI: the checks on the tables, and the
//! port writes that enter the soft-off sleep state.
use vstd::prelude::*;
use crate::acpi::{RSDP, FADT, DSDT, le32, sdt_complete, sdt_length, first_s5_from, slp_values, SDT_HEADER_SIZE};
use crate::port::PortWrite16;

verus! {

/// The bit of the power management control register that enters the sleep
/// state.
pub const SLP_EN: u16 = 0x2000;

/// The address of the root table, from a root system description pointer
/// that was found and whose checksum is valid; `Err(())` otherwise.
pub fn rsdt_address(rsdp: &Option<RSDP>) -> (r: Result<u32, ()>)
    requires
        rsdp matches Some(p) ==> p.wf(),
    ensures
        match rsdp {
            Some(RSDP::V1(d)) => if crate::acpi::sums_to_zero(d.bytes@) {
                r == Ok::<u32, ()>(le32(d.bytes@, 16) as u32)
            } else {
                r is Err
            },
            Some(RSDP::V2(d)) => if crate::acpi::sums_to_zero(d.bytes@) && crate::acpi::sums_to_zero(
                d.bytes@.subrange(0, 20),
            ) {
                r == Ok::<u32, ()>(le32(d.bytes@, 16) as u32)
            } else {
                r is Err
            },
            _ => r is Err,
        },
{
    match rsdp {
        None => Err(()),
        Some(p) => {
            if let RSDP::Absent = p {
                return Err(());
            }
            if !p.is_valid() {
                return Err(());
            }
            Ok(p.rsdt_ptr())
        },
    }
}

/// The writes that put the machine in the soft-off state: the first sleep
/// type with the enable bit to the first control block, and, when there is
/// a second block, the second sleep type to it; `Err(())` when the
/// differentiated table has no \_S5 object.
pub fn shutdown_writes(fadt: &FADT, dsdt: &DSDT) -> (r: Result<std::vec::Vec<PortWrite16>, ()>)
    requires
        fadt.bytes@.len() >= 72,
        sdt_complete(dsdt.bytes@),
        sdt_length(dsdt.bytes@) + 7 <= dsdt.bytes@.len(),
    ensures
        ({
            let p = first_s5_from(dsdt.bytes@, SDT_HEADER_SIZE as int);
            let a = le32(fadt.bytes@, 64);
            let b = le32(fadt.bytes@, 68);
            if p < sdt_length(dsdt.bytes@) {
                let (ta, tb) = slp_values(dsdt.bytes@, p);
                r matches Ok(w) && w@ == if b != 0 {
                    seq![
                        PortWrite16 { port: a as u16, value: (ta as u16 | SLP_EN) },
                        PortWrite16 { port: b as u16, value: (tb as u16 | SLP_EN) },
                    ]
                } else {
                    seq![PortWrite16 { port: a as u16, value: (ta as u16 | SLP_EN) }]
                }
            } else {
                r is Err
            }
        }),
{
    let (slp_typa, slp_typb) = match dsdt.get_slp_typ() {
        Some(t) => t,
        None => {
            return Err(());
        },
    };
    let mut writes: std::vec::Vec<PortWrite16> = std::vec::Vec::new();
    let a = fadt.pm1a_ctrl_block();
    writes.push(PortWrite16 { port: a as u16, value: slp_typa as u16 | SLP_EN });
    let b = fadt.pm1b_ctrl_block();
    if b != 0 {
        writes.push(PortWrite16 { port: b as u16, value: slp_typb as u16 | SLP_EN });
    }
    Ok(writes)
}

} // verus!
