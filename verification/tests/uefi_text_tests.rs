use lib::efi_keyboard::{
    key_event_from_efi, map_ascii_number, map_latin_lowercase_alphabet, modifier_state_is_valid, EFIInputKey,
    EFIScanCode,
};
use lib::keyboard::{KeyCode, KeyDirection, KeyEvent};
use lib::text_writer::{is_printable, Color as TextColor, ColorCode as TextColorCode, VGAScreenChar, Writer};
use lib::uefi::{
    efi_graphics_output_protocol_guid, exit_boot_services_step, find_rsdp_in_config_table, guid_eq,
    read_key_outcome, status_is_error, ACPIVersion, EFIConfigurationTableEntry, EFIEventType, EFITimerType,
    EFITpl, ExitStep, Guid, ERROR_BIT,
};
use std::convert::TryFrom;

fn key(scancode: EFIScanCode, unicode_char: u16) -> EFIInputKey {
    EFIInputKey { scancode, unicode_char }
}

#[test]
fn efi_keys_become_key_events() {
    let event = key_event_from_efi(key(EFIScanCode::Null, b'a' as u16)).unwrap();
    assert_eq!(event.keycode, KeyCode::A);
    assert_eq!(event.direction, KeyDirection::Down);
    assert!(!event.key_modifiers.lshift);
    let event = key_event_from_efi(key(EFIScanCode::Null, b'A' as u16)).unwrap();
    assert_eq!(event.keycode, KeyCode::A);
    assert!(event.key_modifiers.caps_lock);
    let event = key_event_from_efi(key(EFIScanCode::Null, b'!' as u16)).unwrap();
    assert_eq!(event.keycode, KeyCode::One);
    assert!(event.key_modifiers.lshift);
    let event = key_event_from_efi(key(EFIScanCode::Null, 13)).unwrap();
    assert_eq!(event.keycode, KeyCode::Enter);
    let event = KeyEvent::try_from(key(EFIScanCode::CursorUp, 0)).unwrap();
    assert_eq!(event.keycode, KeyCode::ArrowUp);
    assert!(key_event_from_efi(key(EFIScanCode::Null, 200)).is_err());
    assert!(key_event_from_efi(key(EFIScanCode::Null, 1)).is_err());
    assert_eq!(map_ascii_number(b'7' as u16), KeyCode::Seven);
    assert_eq!(map_latin_lowercase_alphabet(b'z' as u16), KeyCode::Z);
    assert!(modifier_state_is_valid(0x8000_0001));
    assert!(!modifier_state_is_valid(0x1));
}

fn acpi_guid(version: u8) -> Guid {
    if version == 1 {
        Guid { first: 0xeb9d2d30, second: 0x2d88, third: 0x11d3, fourth: [0x9a, 0x16, 0x00, 0x90, 0x27, 0x3f, 0xc1, 0x4d] }
    } else {
        Guid { first: 0x8868e871, second: 0xe4f1, third: 0x11d3, fourth: [0xbc, 0x22, 0x00, 0x80, 0xc7, 0x3c, 0x88, 0x81] }
    }
}

#[test]
fn configuration_table_lookup() {
    let other = EFIConfigurationTableEntry { vendor_guid: efi_graphics_output_protocol_guid(), vendor_table: 1 };
    let v2 = EFIConfigurationTableEntry { vendor_guid: acpi_guid(2), vendor_table: 0x2000 };
    let v1 = EFIConfigurationTableEntry { vendor_guid: acpi_guid(1), vendor_table: 0x1000 };
    assert_eq!(find_rsdp_in_config_table(&[other, v2, v1]), Some((ACPIVersion::Other, 0x2000)));
    assert_eq!(find_rsdp_in_config_table(&[v1, v2]), Some((ACPIVersion::One, 0x1000)));
    assert_eq!(find_rsdp_in_config_table(&[other]), None);
    assert!(guid_eq(&acpi_guid(1), &acpi_guid(1)));
    assert!(acpi_guid(1) != acpi_guid(2));
}

#[test]
fn status_codes() {
    assert!(!status_is_error(0));
    assert!(status_is_error(ERROR_BIT | 5));
    assert_eq!(read_key_outcome(0), Ok(true));
    assert_eq!(read_key_outcome(ERROR_BIT | 6), Ok(false));
    assert_eq!(read_key_outcome(ERROR_BIT | 7), Err("Failed to read input"));
    assert_eq!(exit_boot_services_step(0), ExitStep::Done);
    assert_eq!(exit_boot_services_step(ERROR_BIT | 2), ExitStep::Retry);
    assert_eq!(exit_boot_services_step(ERROR_BIT | 7), ExitStep::Fail);
}

#[test]
fn event_timer_and_priority_numbers() {
    assert_eq!(EFIEventType::Timer.combine(EFIEventType::NotifySignal), 0x8000_0200);
    assert_eq!(EFITpl::Callback.as_usize(), 8);
    assert_eq!(EFITimerType::Periodic.as_u32(), 1);
}

fn text_writer() -> Writer {
    let blank = VGAScreenChar { ascii_code: b' ', color_code: TextColorCode(0x0f) };
    Writer { column_pos: 0, color_code: TextColorCode(0x0f), chars: vec![vec![blank; 80]; 25] }
}

#[test]
fn text_writer_writes_on_the_bottom_line() {
    let mut w = text_writer();
    w.write_string("Hi");
    assert_eq!(w.column_pos, 2);
    assert_eq!(w.chars[24][0].ascii_code, b'H');
    assert_eq!(w.chars[24][1].ascii_code, b'i');
    w.write_string("\n");
    assert_eq!(w.column_pos, 0);
    assert_eq!(w.chars[23][0].ascii_code, b'H');
    assert_eq!(w.chars[24][0].ascii_code, b' ');
    w.write_string("\u{e9}");
    // Each byte of a character outside ASCII is shown as a block.
    assert_eq!(w.chars[24][0].ascii_code, 0xfe);
    assert_eq!(w.chars[24][1].ascii_code, 0xfe);
}

#[test]
fn a_full_text_line_wraps() {
    let mut w = text_writer();
    let line: String = std::iter::repeat('x').take(81).collect();
    w.write_string(&line);
    assert_eq!(w.column_pos, 1);
    assert_eq!(w.chars[23][79].ascii_code, b'x');
    assert_eq!(w.chars[24][0].ascii_code, b'x');
    w.clear_screen();
    assert!(w.chars.iter().all(|l| l.iter().all(|c| c.ascii_code == b' ')));
}

#[test]
fn text_colors_and_printable_bytes() {
    assert_eq!(TextColorCode::new(TextColor::Yellow, TextColor::Black).0, 0x0e);
    assert_eq!(TextColorCode::new(TextColor::White, TextColor::Blue).0, 0x1f);
    assert!(is_printable(b'a'));
    assert!(is_printable(b'\n'));
    assert!(!is_printable(0x7f));
}
