use ralf::elfheader::{Class, ElfHeader, Endian, FormatError, Machine, OSABI, TYPE};
use ralf::elfheader::encode_entry_64;
use ralf::utils::{into_u32_le, into_u64_le};

/// A 64-byte little-endian 64-bit-class header with the given enumerated
/// codes and entry point, and all other fields zero.
fn header64(osabi: u8, e_type: u16, machine: u16, entry: u64) -> Vec<u8> {
    let mut b = vec![0u8; 64];
    b[0] = 0x7f;
    b[1] = 0x45;
    b[2] = 0x4c;
    b[3] = 0x46;
    b[4] = 2; // class: 64-bit
    b[5] = 1; // data: little-endian
    b[7] = osabi;
    b[0x10] = e_type as u8;
    b[0x11] = (e_type >> 8) as u8;
    b[0x12] = machine as u8;
    b[0x13] = (machine >> 8) as u8;
    for i in 0..8 {
        b[0x18 + i] = (entry >> (8 * i)) as u8;
    }
    b
}

#[test]
fn rejects_bad_magic() {
    assert_eq!(ElfHeader::new(&[0, 1, 2, 3, 4, 5, 6, 7]), Err(FormatError::NotThisFormat));
    assert_eq!(ElfHeader::new(&[0x7f, 0x45, 0x4c, 0x00]), Err(FormatError::NotThisFormat));
    assert_eq!(ElfHeader::new(&[]), Err(FormatError::NotThisFormat));
    assert_eq!(ElfHeader::new(&[0x7f, 0x45]), Err(FormatError::NotThisFormat));
}

#[test]
fn rejects_unknown_class() {
    let mut b = header64(0, 0, 0, 0);
    b[4] = 3;
    assert_eq!(ElfHeader::new(&b), Err(FormatError::UnknownClass));
    b[4] = 0;
    assert_eq!(ElfHeader::new(&b), Err(FormatError::UnknownClass));
}

#[test]
fn rejects_unknown_byte_order() {
    let mut b = header64(0, 0, 0, 0);
    b[5] = 0;
    assert_eq!(ElfHeader::new(&b), Err(FormatError::UnknownByteOrder));
    b[5] = 9;
    assert_eq!(ElfHeader::new(&b), Err(FormatError::UnknownByteOrder));
}

#[test]
fn rejects_truncated_16_byte_buffer() {
    // magic and mode bytes only: must fail cleanly, not read past the end
    let b = &header64(0, 0, 0, 0)[..16];
    assert_eq!(ElfHeader::new(b), Err(FormatError::TruncatedHeader));
}

#[test]
fn rejects_truncated_by_class() {
    let full = header64(0, 0, 0, 0);
    // 64-bit class needs 64 bytes: 63 is one too few
    assert_eq!(ElfHeader::new(&full[..63]), Err(FormatError::TruncatedHeader));
    assert!(ElfHeader::new(&full).is_ok());
    // 32-bit class needs only 52
    let mut b32 = full[..52].to_vec();
    b32[4] = 1;
    assert!(ElfHeader::new(&b32).is_ok());
    assert_eq!(ElfHeader::new(&b32[..51]), Err(FormatError::TruncatedHeader));
}

#[test]
fn unknown_osabi_code_falls_back() {
    // 0x05 is unassigned: decodes to Unknown, not an error
    let h = ElfHeader::new(&header64(0x05, 0, 0, 0)).unwrap();
    assert_eq!(h.osabi, OSABI::Unknown);
    let h = ElfHeader::new(&header64(0xee, 0, 0, 0)).unwrap();
    assert_eq!(h.osabi, OSABI::Unknown);
}

#[test]
fn known_osabi_codes_decode() {
    assert_eq!(ElfHeader::new(&header64(0x00, 0, 0, 0)).unwrap().osabi, OSABI::SystemV);
    assert_eq!(ElfHeader::new(&header64(0x03, 0, 0, 0)).unwrap().osabi, OSABI::Linux);
    assert_eq!(ElfHeader::new(&header64(0x09, 0, 0, 0)).unwrap().osabi, OSABI::FreeBSD);
    assert_eq!(ElfHeader::new(&header64(0x11, 0, 0, 0)).unwrap().osabi, OSABI::CloudABI);
}

#[test]
fn unknown_machine_code_falls_back() {
    let h = ElfHeader::new(&header64(0, 0, 0x9999, 0)).unwrap();
    assert_eq!(h.machine, Machine::Unknown);
}

#[test]
fn known_machine_codes_decode() {
    assert_eq!(ElfHeader::new(&header64(0, 0, 0x3e, 0)).unwrap().machine, Machine::X8664);
    assert_eq!(ElfHeader::new(&header64(0, 0, 0x02, 0)).unwrap().machine, Machine::SPARC);
    assert_eq!(ElfHeader::new(&header64(0, 0, 0xf3, 0)).unwrap().machine, Machine::RISCV);
    assert_eq!(ElfHeader::new(&header64(0, 0, 0xb7, 0)).unwrap().machine, Machine::AArch64);
}

#[test]
fn type_codes_decode_with_none_fallback() {
    assert_eq!(ElfHeader::new(&header64(0, 0x02, 0, 0)).unwrap().e_type, TYPE::EXEC);
    assert_eq!(ElfHeader::new(&header64(0, 0x03, 0, 0)).unwrap().e_type, TYPE::DYN);
    assert_eq!(ElfHeader::new(&header64(0, 0xfe00, 0, 0)).unwrap().e_type, TYPE::LOOS);
    assert_eq!(ElfHeader::new(&header64(0, 0xffff, 0, 0)).unwrap().e_type, TYPE::HIPROC);
    // a code outside the table falls back to NONE
    assert_eq!(ElfHeader::new(&header64(0, 0x1234, 0, 0)).unwrap().e_type, TYPE::NONE);
}

#[test]
fn round_trip_entry_point() {
    let buf = encode_entry_64(0x400080);
    assert_eq!(buf.len(), 64);
    let h = ElfHeader::new(&buf).unwrap();
    assert_eq!(h.class, Class::ELF64);
    assert_eq!(h.entry, 0x400080);
    // and for a value using all eight bytes
    let buf = encode_entry_64(0x1122_3344_5566_7788);
    assert_eq!(ElfHeader::new(&buf).unwrap().entry, 0x1122_3344_5566_7788);
}

#[test]
fn class_selects_offset_table() {
    // the same tail bytes mean different things in the two classes
    let mut b = header64(0, 0, 0, 0);
    for i in 0x18..64 {
        b[i] = i as u8;
    }
    let h64 = ElfHeader::new(&b).unwrap();
    assert_eq!(h64.entry, 0x1f1e_1d1c_1b1a_1918);
    assert_eq!(h64.phoff, 0x2726_2524_2322_2120);
    assert_eq!(h64.shoff, 0x2f2e_2d2c_2b2a_2928);
    assert_eq!(h64.ehsize, 0x3534);
    assert_eq!(h64.shstrndx, 0x3f3e);

    b[4] = 1; // reinterpret as 32-bit class
    let h32 = ElfHeader::new(&b).unwrap();
    assert_eq!(h32.entry, 0x1b1a_1918);
    assert_eq!(h32.phoff, 0x1f1e_1d1c);
    assert_eq!(h32.shoff, 0x2322_2120);
    assert_eq!(h32.ehsize, 0x2928);
    assert_eq!(h32.shstrndx, 0x3332);
}

#[test]
fn full_record_scenario() {
    let b = header64(0x03, 0x02, 0x3e, 0x401020);
    let h = ElfHeader::new(&b).unwrap();
    assert_eq!(h.class, Class::ELF64);
    assert_eq!(h.data, Endian::Little);
    assert_eq!(h.osabi, OSABI::Linux);
    assert_eq!(h.abiversion, 0);
    assert_eq!(h.e_type, TYPE::EXEC);
    assert_eq!(h.machine, Machine::X8664);
    assert_eq!(h.entry, 0x401020);
    assert_eq!(h.phoff, 0);
    assert_eq!(h.shoff, 0);
}

#[test]
fn byte_order_aware_decoding_agrees_on_little_endian() {
    let b = header64(0x03, 0x02, 0x3e, 0x401020);
    assert_eq!(ElfHeader::new_byte_order_aware(&b), ElfHeader::new(&b));
}

#[test]
fn byte_order_aware_decoding_differs_on_big_endian() {
    let mut b = header64(0, 0, 0, 0);
    b[5] = 2; // declared big-endian
    // entry written big-endian: eight bytes, most significant first
    for i in 0x18..0x20 {
        b[i] = 0;
    }
    b[0x1d] = 0x40;
    b[0x1e] = 0x10;
    b[0x1f] = 0x20;

    // the legacy decoding still reads the field little-endian
    let legacy = ElfHeader::new(&b).unwrap();
    assert_eq!(legacy.data, Endian::Big);
    assert_eq!(legacy.entry, 0x2010_4000_0000_0000);

    // the byte-order-aware decoding honors the declared order
    let aware = ElfHeader::new_byte_order_aware(&b).unwrap();
    assert_eq!(aware.data, Endian::Big);
    assert_eq!(aware.entry, 0x401020);
}

#[test]
fn le_readers_read_exact_values() {
    assert_eq!(into_u32_le(&[0x78, 0x56, 0x34, 0x12]), 0x12345678);
    assert_eq!(into_u32_le(&[0xff, 0xff, 0xff, 0xff]), u32::MAX);
    assert_eq!(into_u64_le(&[1, 2, 3, 4, 5, 6, 7, 8]), 0x0807_0605_0403_0201);
    assert_eq!(into_u64_le(&[0, 0, 0, 0, 0, 0, 0, 0]), 0);
}
