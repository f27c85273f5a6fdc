use ralf::elfheader::ElfHeader;
use ralf::elfheader::{Class, Endian, Machine, OSABI, TYPE};
use ralf::render::{u64_to_dec, u64_to_hex};

fn header64(osabi: u8, e_type: u16, machine: u16, entry: u64) -> Vec<u8> {
    let mut b = vec![0u8; 64];
    b[0] = 0x7f;
    b[1] = 0x45;
    b[2] = 0x4c;
    b[3] = 0x46;
    b[4] = 2;
    b[5] = 1;
    b[7] = osabi;
    b[0x10] = e_type as u8;
    b[0x11] = (e_type >> 8) as u8;
    b[0x12] = machine as u8;
    b[0x13] = (machine >> 8) as u8;
    for i in 0..8 {
        b[0x18 + i] = (entry >> (8 * i)) as u8;
    }
    b
}

#[test]
fn decimal_rendering() {
    assert_eq!(u64_to_dec(0), "0");
    assert_eq!(u64_to_dec(7), "7");
    assert_eq!(u64_to_dec(10), "10");
    assert_eq!(u64_to_dec(12345), "12345");
    assert_eq!(u64_to_dec(u64::MAX), "18446744073709551615");
}

#[test]
fn hexadecimal_rendering() {
    assert_eq!(u64_to_hex(0), "0");
    assert_eq!(u64_to_hex(0x401020), "401020");
    assert_eq!(u64_to_hex(0xdeadbeef), "deadbeef");
    assert_eq!(u64_to_hex(u64::MAX), "ffffffffffffffff");
}

#[test]
fn enum_labels() {
    assert_eq!(Class::ELF32.name(), "ELF32");
    assert_eq!(Endian::Big.name(), "Big endian");
    assert_eq!(OSABI::Linux.name(), "Linux");
    assert_eq!(OSABI::Unknown.name(), "Unknown");
    assert_eq!(TYPE::EXEC.name(), "EXEC");
    assert_eq!(Machine::X8664.name(), "x86-64");
    assert_eq!(Machine::Unknown.name(), "Unknown ISA");
}

#[test]
fn display_lines_of_a_decoded_record() {
    let b = header64(0x03, 0x02, 0x3e, 0x401020);
    let h = ElfHeader::new(&b).unwrap();
    let lines = h.to_lines();
    assert_eq!(lines.len(), 16);
    assert_eq!(lines[0], "Elf Header:");
    assert_eq!(lines[1], "  Class: \tELF64");
    assert_eq!(lines[2], "  Data: \tLittle endian");
    assert_eq!(lines[3], "  OS/ABI: \tLinux");
    assert_eq!(lines[4], "  ABI Version:\t0");
    assert_eq!(lines[5], "  Type: \tEXEC");
    assert_eq!(lines[6], "  Machine: \tx86-64");
    assert_eq!(lines[7], "  Entry point address:\t0x401020");
    assert_eq!(lines[8], "  Start of program headers:\t0 (bytes into file)");
    assert_eq!(lines[9], "  Start of section headers:\t0 (bytes into file)");
    assert_eq!(lines[10], "  Size of this header:\t0 (bytes)");
    assert_eq!(lines[11], "  Size of program headers:\t0 (bytes)");
    assert_eq!(lines[12], "  Number of program headers:\t0");
    assert_eq!(lines[13], "  Size of section headers:\t0 (bytes)");
    assert_eq!(lines[14], "  Number of section headers:\t0");
    assert_eq!(lines[15], "  Section header string table index:\t0");
}
