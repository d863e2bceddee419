use lib::acpi::{
    detect_rsdp, parse_rsdp, read_u32, read_u64, sum_bytes, SDTTable, DSDT, FADT, MADT, RSDP, RSDT,
    FADT_SIGNATURE, MADT_SIGNATURE,
};
use lib::wav::WavFile;

fn put_u32(b: &mut [u8], i: usize, v: u32) {
    b[i..i + 4].copy_from_slice(&v.to_le_bytes());
}

/// Sets the byte at `at` so that the bytes `0..len` add up to a multiple of 0x100.
fn fix_checksum(b: &mut [u8], len: usize, at: usize) {
    b[at] = 0;
    let sum: u32 = b[..len].iter().map(|&x| x as u32).sum();
    b[at] = ((0x100 - sum % 0x100) % 0x100) as u8;
}

fn rsdp_v1(rsdt: u32) -> Vec<u8> {
    let mut b = vec![0u8; 20];
    b[..8].copy_from_slice(b"RSD PTR ");
    b[15] = 0;
    put_u32(&mut b, 16, rsdt);
    fix_checksum(&mut b, 20, 8);
    b
}

#[test]
fn little_endian_reads_and_sums() {
    let b = [1u8, 2, 3, 4, 5, 6, 7, 8];
    assert_eq!(read_u32(&b, 0), 0x0403_0201);
    assert_eq!(read_u64(&b, 0), 0x0807_0605_0403_0201);
    assert_eq!(sum_bytes(&b, 2, 5), 12);
}

#[test]
fn the_bios_area_counts_over_the_ebda() {
    let mut ebda = vec![0u8; 1024 + 36];
    let mut bios = vec![0u8; 0x20000 + 36];
    assert_eq!(detect_rsdp(&ebda, &bios), Some(RSDP::Absent));

    ebda[16..36].copy_from_slice(&rsdp_v1(0x1111));
    match detect_rsdp(&ebda, &bios) {
        Some(p) => {
            assert!(p.is_valid());
            assert_eq!(p.rsdt_ptr(), 0x1111);
        },
        None => panic!("the pointer in the data area was not found"),
    }

    bios[0x100..0x114].copy_from_slice(&rsdp_v1(0x2222));
    assert_eq!(detect_rsdp(&ebda, &bios).unwrap().rsdt_ptr(), 0x2222);
}

#[test]
fn unknown_revisions_and_bad_checksums() {
    let mut b = vec![0u8; 40];
    b[..20].copy_from_slice(&rsdp_v1(0x3333));
    b[15] = 1;
    assert_eq!(parse_rsdp(&b, 0), None);
    b[15] = 0;
    b[9] = b[9].wrapping_add(1);
    assert!(!parse_rsdp(&b, 0).unwrap().is_valid());
    assert!(!RSDP::Absent.is_valid());
}

fn table(signature: &[u8; 4], body: &[u8], padding: usize) -> Vec<u8> {
    let len = 36 + body.len();
    let mut b = vec![0u8; len + padding];
    b[..4].copy_from_slice(signature);
    put_u32(&mut b, 4, len as u32);
    b[36..len].copy_from_slice(body);
    fix_checksum(&mut b, len, 9);
    b
}

#[test]
fn rsdt_entries_and_lookup() {
    let mut body = [0u8; 8];
    put_u32(&mut body, 0, 0xaaaa_0000);
    put_u32(&mut body, 4, 0xbbbb_0000);
    let rsdt = RSDT { bytes: table(b"RSDT", &body, 0) };
    assert!(rsdt.is_valid());
    let addrs = rsdt.entry_addrs();
    assert_eq!(addrs.len(), 5);
    assert_eq!(addrs[0], 0xaaaa_0000);
    assert_eq!(addrs[4], 0xbbbb_0000);
    let mut sigs = [[0u8; 4]; 5];
    sigs[0] = MADT_SIGNATURE;
    sigs[4] = FADT_SIGNATURE;
    assert_eq!(rsdt.find_fadt(&sigs), Some(0xbbbb_0000));
    assert_eq!(rsdt.find_madt(&sigs), Some(0xaaaa_0000));
    assert_eq!(rsdt.find_table(&sigs, *b"HPET"), None);
}

#[test]
fn fadt_fields() {
    let mut body = [0u8; 40];
    put_u32(&mut body, 4, 0x00de_0000);
    put_u32(&mut body, 28, 0x404);
    put_u32(&mut body, 32, 0x505);
    let fadt = FADT { bytes: table(b"FACP", &body, 0) };
    assert_eq!(fadt.dsdt_ptr(), 0x00de_0000);
    assert_eq!(fadt.pm1a_ctrl_block(), 0x404);
    assert_eq!(fadt.pm1b_ctrl_block(), 0x505);
}

#[test]
fn dsdt_sleep_type_of_s5() {
    let body = [0x08, b'_', b'S', b'5', b'_', 0x12, 0x06, 0x04, 0x0a, 0x05, 0x0a, 0x07];
    let dsdt = DSDT { bytes: table(b"DSDT", &body, 7) };
    assert!(dsdt.is_valid());
    assert_eq!(dsdt.get_slp_typ(), Some((5, 7)));
    let dsdt = DSDT { bytes: table(b"DSDT", &[0u8; 12], 7) };
    assert_eq!(dsdt.get_slp_typ(), None);
}

#[test]
fn madt_entries() {
    let mut body = vec![0u8; 8];
    put_u32(&mut body, 0, 0xfee0_0000);
    put_u32(&mut body, 4, 1);
    body.extend_from_slice(&[0, 8, 0, 0, 1, 0, 0, 0]);
    body.extend_from_slice(&[1, 12, 0, 0, 0, 0, 0xc0, 0xfe, 0, 0, 0, 0]);
    let madt = MADT { bytes: table(b"APIC", &body, 0) };
    assert_eq!(madt.local_interrupt_controller_addr(), 0xfee0_0000);
    assert!(madt.flags().pc_at_compatible());
    let mut it = madt.interrupt_controllers();
    let first = it.next().unwrap();
    assert_eq!((first.type_(), first.length), (0, 8));
    let second = it.next().unwrap();
    assert_eq!((second.type_(), second.length), (1, 12));
}

fn wav_bytes() -> Vec<u8> {
    let mut b = Vec::new();
    b.extend_from_slice(b"RIFF");
    b.extend_from_slice(&52u32.to_le_bytes());
    b.extend_from_slice(b"WAVE");
    b.extend_from_slice(b"fmt ");
    b.extend_from_slice(&16u32.to_le_bytes());
    b.extend_from_slice(&1u16.to_le_bytes());
    b.extend_from_slice(&2u16.to_le_bytes());
    b.extend_from_slice(&44100u32.to_le_bytes());
    b.extend_from_slice(&(44100u32 * 4).to_le_bytes());
    b.extend_from_slice(&4u16.to_le_bytes());
    b.extend_from_slice(&16u16.to_le_bytes());
    b.extend_from_slice(b"data");
    b.extend_from_slice(&8u32.to_le_bytes());
    b.extend_from_slice(&[1, 2, 3, 4, 5, 6, 7, 8]);
    b
}

#[test]
fn wav_header_fields() {
    let bytes = wav_bytes();
    let wav = WavFile::from(&bytes).unwrap();
    assert_eq!(wav.num_of_channels(), 2);
    assert_eq!(wav.sample_rate(), 44100);
    assert_eq!(wav.bits_per_sample(), 16);
    // The data runs from the chunk's id, as many bytes as its header gives.
    assert_eq!(wav.data, bytes[36..44].to_vec());
}

#[test]
fn wav_errors() {
    let mut bytes = wav_bytes();
    bytes[0] = b'X';
    assert_eq!(WavFile::from(&bytes).err(), Some("Unexpected file chunk id"));
    let mut bytes = wav_bytes();
    bytes[8] = b'X';
    assert_eq!(WavFile::from(&bytes).err(), Some("Unexpected format"));
    let mut bytes = wav_bytes();
    bytes[12] = b'X';
    assert_eq!(WavFile::from(&bytes).err(), Some("Unexpected fmt_chunk_header id"));
    let mut bytes = wav_bytes();
    bytes[4..8].copy_from_slice(&36u32.to_le_bytes());
    assert_eq!(WavFile::from(&bytes).err(), Some("Couldn't find the data chunk"));
}
