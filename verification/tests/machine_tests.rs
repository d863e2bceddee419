use lib::acpi::{DSDT, FADT, RSDP, RSDPDescriptorV1};
use lib::cmos::{register_select_value, RTCTime, TIME_REGISTERS};
use lib::gdt::{Descriptor, GlobalDescriptorTable, SegmentSelector, CODE_SEGMENT, DATA_SEGMENT};
use lib::interrupts::{CPUException, IDTEntry, InterruptDescriptorTable, IRQ};
use lib::memory::Addr;
use lib::pic8259::{handles_interrupt, Pics, END_OF_INTERRUPT};
use lib::port::{PortWrite, PortWrite16, WAIT_PORT_NO};
use lib::power::{rsdt_address, shutdown_writes, SLP_EN};
use lib::registers::{interrupts_enabled, RFlags};
use lib::tss::TaskStateSegment;

#[test]
fn segment_descriptors_and_selectors() {
    assert_eq!(Descriptor::code_segment(), Descriptor::NonSystemSegment(CODE_SEGMENT));
    assert_eq!(Descriptor::data_segment(), Descriptor::NonSystemSegment(DATA_SEGMENT));
    assert_eq!(CODE_SEGMENT, 0x00a0_9b00_0000_ffff);
    let tss = Descriptor::tss_segment(0x1234_5678_9abc);
    // Limit 103, base bits 0-23 at 16, type 9, present, base bits 24-31 at 56.
    assert_eq!(tss, Descriptor::SystemSegment(0x5600_8978_9abc_0067, 0x1234));
    assert_eq!(SegmentSelector::new(3), SegmentSelector(24));

    let mut gdt = GlobalDescriptorTable::new();
    assert_eq!(gdt.add_entry(Descriptor::code_segment()), SegmentSelector(8));
    assert_eq!(gdt.add_entry(tss), SegmentSelector(16));
    assert_eq!(gdt.add_entry(Descriptor::data_segment()), SegmentSelector(32));
    let pointer = gdt.as_pointer(0x5000);
    assert_eq!(pointer.limit, 71);
    assert_eq!(pointer.base, Addr(0x5000));
}

#[test]
fn idt_entries() {
    let mut entry = IDTEntry::empty();
    entry.set_handler_addr(Addr(0x0000_1234_5678_9abc), 8);
    assert_eq!(entry.handler_ptr_low, 0x9abc);
    assert_eq!(entry.handler_ptr_middle, 0x5678);
    assert_eq!(entry.handler_ptr_high, 0x1234);
    assert_eq!(entry.gdt_selector, 8);
    assert_eq!(entry.options.0, 0x8e00);
    entry.set_ist_stack_index(0);
    assert_eq!(entry.options.0, 0x8e01);

    let mut idt = InterruptDescriptorTable::new();
    idt.set_irq_entry(IRQ::Keyboard, entry);
    assert_eq!(idt.irq_entry(IRQ::Keyboard), entry);
    assert_eq!(idt.entry(33), entry);
    assert_eq!(idt.entry(32), IDTEntry::empty());
    idt.set_exception_entry(CPUException::PageFault, entry);
    assert_eq!(idt.exceptions[14], entry);
    assert_eq!(CPUException::PageFault.as_u8(), 14);
    assert_eq!(IRQ::Sound.as_u8(), 11);
    let pointer = idt.as_pointer(0x9000);
    assert_eq!(pointer.limit, 4095);
}

#[test]
fn pic_remapping_and_end_of_interrupt() {
    let pics = Pics::new();
    assert!(handles_interrupt(32, pics.primary));
    assert!(handles_interrupt(39, pics.primary));
    assert!(!handles_interrupt(40, pics.primary));
    assert!(handles_interrupt(40, pics.secondary));
    assert_eq!(pics.end_of_interrupt(33), vec![PortWrite { port: 0x20, value: END_OF_INTERRUPT }]);
    assert_eq!(
        pics.end_of_interrupt(43),
        vec![PortWrite { port: 0xa0, value: END_OF_INTERRUPT }, PortWrite { port: 0x20, value: END_OF_INTERRUPT }]
    );
    assert!(pics.end_of_interrupt(100).is_empty());
    let init = pics.init();
    assert_eq!(init.len(), 18);
    assert_eq!(init[0], PortWrite { port: 0x20, value: 0x11 });
    assert_eq!(init[1], PortWrite { port: WAIT_PORT_NO, value: 0 });
    assert_eq!(init[4], PortWrite { port: 0x21, value: 32 });
    assert_eq!(init[6], PortWrite { port: 0xa1, value: 40 });
    assert_eq!(init[16], PortWrite { port: 0x21, value: 0b1111_1000 });
    assert_eq!(init[17], PortWrite { port: 0xa1, value: 0b1111_0111 });
    assert_eq!(pics.read_masks(), (0x21, 0xa1));
}

#[test]
fn clock_registers() {
    assert_eq!(TIME_REGISTERS, [0, 2, 4, 6, 7, 8, 9]);
    assert_eq!(register_select_value(0x0a), 0x8a);
    let time = RTCTime::from_register_values([30, 15, 12, 3, 24, 12, 25]);
    assert_eq!(time.seconds, 30);
    assert_eq!(time.year, 25);
    assert_eq!(time.sum_of_fields(), 30 + 15 + 12 + 3 + 24 + 12 + 25);
}

#[test]
fn flags_and_tss() {
    assert!(interrupts_enabled(RFlags(0x202)));
    assert!(!interrupts_enabled(RFlags(0x2)));
    assert!(RFlags(0x202).contains(0x2));
    let tss = TaskStateSegment::new();
    assert_eq!(tss.io_map_base_addr, 104);
}

fn put_u32(b: &mut [u8], i: usize, v: u32) {
    b[i..i + 4].copy_from_slice(&v.to_le_bytes());
}

#[test]
fn power_off_writes() {
    let mut rsdp = vec![0u8; 20];
    rsdp[..8].copy_from_slice(b"RSD PTR ");
    put_u32(&mut rsdp, 16, 0x7fe0_0000);
    let sum: u32 = rsdp.iter().map(|&x| x as u32).sum();
    rsdp[8] = ((0x100 - sum % 0x100) % 0x100) as u8;
    assert_eq!(rsdt_address(&Some(RSDP::V1(RSDPDescriptorV1 { bytes: rsdp.clone() }))), Ok(0x7fe0_0000));
    rsdp[8] = rsdp[8].wrapping_add(1);
    assert_eq!(rsdt_address(&Some(RSDP::V1(RSDPDescriptorV1 { bytes: rsdp }))), Err(()));
    assert_eq!(rsdt_address(&None), Err(()));
    assert_eq!(rsdt_address(&Some(RSDP::Absent)), Err(()));

    let mut fadt = vec![0u8; 72];
    put_u32(&mut fadt, 64, 0x604);
    let mut dsdt = vec![0u8; 36 + 12 + 7];
    put_u32(&mut dsdt, 4, 48);
    dsdt[36..48].copy_from_slice(&[0x08, b'_', b'S', b'5', b'_', 0x12, 0x06, 0x04, 0x0a, 0x05, 0x0a, 0x07]);
    let writes = shutdown_writes(&FADT { bytes: fadt.clone() }, &DSDT { bytes: dsdt.clone() }).unwrap();
    assert_eq!(writes, vec![PortWrite16 { port: 0x604, value: 5 | SLP_EN }]);
    put_u32(&mut fadt, 68, 0x605);
    let writes = shutdown_writes(&FADT { bytes: fadt.clone() }, &DSDT { bytes: dsdt }).unwrap();
    assert_eq!(
        writes,
        vec![PortWrite16 { port: 0x604, value: 5 | SLP_EN }, PortWrite16 { port: 0x605, value: 7 | SLP_EN }]
    );
    let mut no_s5 = vec![0u8; 36 + 12 + 7];
    put_u32(&mut no_s5, 4, 48);
    assert_eq!(shutdown_writes(&FADT { bytes: fadt }, &DSDT { bytes: no_s5 }).map(|w| w.len()), Err(()));
}
