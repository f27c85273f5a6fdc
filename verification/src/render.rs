//! Human-readable presentation of a decoded header.
//!
//! Purely presentational: fixed labels, decimal and hexadecimal digit
//! strings, one line per field in a fixed order.  Nothing here alters a
//! field; every line is proved to be exactly its label followed by the
//! rendering of the field's value.

use vstd::prelude::*;
use vstd::string::StringExecFns;
use crate::elfheader::{Class, ElfHeader, Endian, Machine, OSABI, TYPE};

verus! {

/// The character for one digit value (decimal or hexadecimal).
pub open spec fn spec_digit(d: int) -> char {
    if d == 0 {
        '0'
    } else if d == 1 {
        '1'
    } else if d == 2 {
        '2'
    } else if d == 3 {
        '3'
    } else if d == 4 {
        '4'
    } else if d == 5 {
        '5'
    } else if d == 6 {
        '6'
    } else if d == 7 {
        '7'
    } else if d == 8 {
        '8'
    } else if d == 9 {
        '9'
    } else if d == 10 {
        'a'
    } else if d == 11 {
        'b'
    } else if d == 12 {
        'c'
    } else if d == 13 {
        'd'
    } else if d == 14 {
        'e'
    } else {
        'f'
    }
}

/// The decimal digit string of `n`, most significant digit first, with no
/// leading zeros (a single `'0'` for zero).
pub open spec fn spec_dec(n: nat) -> Seq<char>
    decreases n,
{
    if n < 10 {
        seq![spec_digit(n as int)]
    } else {
        spec_dec(n / 10).push(spec_digit((n % 10) as int))
    }
}

/// The lowercase hexadecimal digit string of `n`, most significant digit
/// first, with no leading zeros (a single `'0'` for zero).
pub open spec fn spec_hex(n: nat) -> Seq<char>
    decreases n,
{
    if n < 16 {
        seq![spec_digit(n as int)]
    } else {
        spec_hex(n / 16).push(spec_digit((n % 16) as int))
    }
}

/// The one-character string for a digit value.
fn digit_str(d: u64) -> (r: &'static str)
    requires
        d < 16,
    ensures
        r@ == seq![spec_digit(d as int)],
{
    let r: &'static str = if d == 0 {
        "0"
    } else if d == 1 {
        "1"
    } else if d == 2 {
        "2"
    } else if d == 3 {
        "3"
    } else if d == 4 {
        "4"
    } else if d == 5 {
        "5"
    } else if d == 6 {
        "6"
    } else if d == 7 {
        "7"
    } else if d == 8 {
        "8"
    } else if d == 9 {
        "9"
    } else if d == 10 {
        "a"
    } else if d == 11 {
        "b"
    } else if d == 12 {
        "c"
    } else if d == 13 {
        "d"
    } else if d == 14 {
        "e"
    } else {
        "f"
    };
    proof {
        reveal_strlit("0");
        reveal_strlit("1");
        reveal_strlit("2");
        reveal_strlit("3");
        reveal_strlit("4");
        reveal_strlit("5");
        reveal_strlit("6");
        reveal_strlit("7");
        reveal_strlit("8");
        reveal_strlit("9");
        reveal_strlit("a");
        reveal_strlit("b");
        reveal_strlit("c");
        reveal_strlit("d");
        reveal_strlit("e");
        reveal_strlit("f");
        assert(r@ =~= seq![spec_digit(d as int)]);
    }
    r
}

/// Renders `n` in decimal.
pub fn u64_to_dec(n: u64) -> (r: String)
    ensures
        r@ == spec_dec(n as nat),
    decreases n,
{
    if n < 10 {
        String::from_str(digit_str(n))
    } else {
        let mut s = u64_to_dec(n / 10);
        s.append(digit_str(n % 10));
        proof {
            assert(s@ =~= spec_dec(n as nat));
        }
        s
    }
}

/// Renders `n` in lowercase hexadecimal, without a `0x` prefix.
pub fn u64_to_hex(n: u64) -> (r: String)
    ensures
        r@ == spec_hex(n as nat),
    decreases n,
{
    if n < 16 {
        String::from_str(digit_str(n))
    } else {
        let mut s = u64_to_hex(n / 16);
        s.append(digit_str(n % 16));
        proof {
            assert(s@ =~= spec_hex(n as nat));
        }
        s
    }
}

/// The display label of a word-size class.
pub open spec fn spec_class_name(c: Class) -> Seq<char> {
    match c {
        Class::ELF32 => "ELF32"@,
        Class::ELF64 => "ELF64"@,
    }
}

/// The display label of a byte order.
pub open spec fn spec_endian_name(e: Endian) -> Seq<char> {
    match e {
        Endian::Little => "Little endian"@,
        Endian::Big => "Big endian"@,
    }
}

/// The display label of an OS/ABI.
pub open spec fn spec_osabi_name(o: OSABI) -> Seq<char> {
    match o {
        OSABI::SystemV => "System V"@,
        OSABI::HPUX => "HP-UX"@,
        OSABI::NetBSD => "NetBSD"@,
        OSABI::Linux => "Linux"@,
        OSABI::GNUHard => "GNU Hard"@,
        OSABI::Solaris => "Solaris"@,
        OSABI::AIX => "AIX"@,
        OSABI::IRIX => "IRIX"@,
        OSABI::FreeBSD => "FreeBSD"@,
        OSABI::Tru64 => "Tru64"@,
        OSABI::NovellModesto => "Novell Modesto"@,
        OSABI::OpenBSD => "OpenBSD"@,
        OSABI::OpenVMS => "OpenVMS"@,
        OSABI::NonStopKernel => "NonStop Kernel"@,
        OSABI::AROS => "AROS"@,
        OSABI::FenixOS => "Fenix OS"@,
        OSABI::CloudABI => "CloudABI"@,
        OSABI::Unknown => "Unknown"@,
    }
}

/// The display label of an object type.
pub open spec fn spec_type_name(t: TYPE) -> Seq<char> {
    match t {
        TYPE::NONE => "NONE"@,
        TYPE::REL => "REL"@,
        TYPE::EXEC => "EXEC"@,
        TYPE::DYN => "DYN"@,
        TYPE::CORE => "CORE"@,
        TYPE::LOOS => "LOOS"@,
        TYPE::HIOS => "HIOS"@,
        TYPE::LOPROC => "LOPROC"@,
        TYPE::HIPROC => "HIPROC"@,
    }
}

/// The display label of a target architecture.
pub open spec fn spec_machine_name(m: Machine) -> Seq<char> {
    match m {
        Machine::Unknown => "Unknown ISA"@,
        Machine::SPARC => "SPARC"@,
        Machine::X86 => "x86"@,
        Machine::MIPS => "MIPS"@,
        Machine::PowerPC => "POWERPC"@,
        Machine::S390 => "S390"@,
        Machine::ARM => "ARM"@,
        Machine::SuperH => "SuperH"@,
        Machine::IA64 => "IA-64"@,
        Machine::X8664 => "x86-64"@,
        Machine::AArch64 => "AARch64"@,
        Machine::RISCV => "RISC-V"@,
    }
}

impl Class {
    /// The display label of this class.
    pub fn name(&self) -> (r: &'static str)
        ensures
            r@ == spec_class_name(*self),
    {
        match self {
            Class::ELF32 => "ELF32",
            Class::ELF64 => "ELF64",
        }
    }
}

impl Endian {
    /// The display label of this byte order.
    pub fn name(&self) -> (r: &'static str)
        ensures
            r@ == spec_endian_name(*self),
    {
        match self {
            Endian::Little => "Little endian",
            Endian::Big => "Big endian",
        }
    }
}

impl OSABI {
    /// The display label of this OS/ABI.
    pub fn name(&self) -> (r: &'static str)
        ensures
            r@ == spec_osabi_name(*self),
    {
        match self {
            OSABI::SystemV => "System V",
            OSABI::HPUX => "HP-UX",
            OSABI::NetBSD => "NetBSD",
            OSABI::Linux => "Linux",
            OSABI::GNUHard => "GNU Hard",
            OSABI::Solaris => "Solaris",
            OSABI::AIX => "AIX",
            OSABI::IRIX => "IRIX",
            OSABI::FreeBSD => "FreeBSD",
            OSABI::Tru64 => "Tru64",
            OSABI::NovellModesto => "Novell Modesto",
            OSABI::OpenBSD => "OpenBSD",
            OSABI::OpenVMS => "OpenVMS",
            OSABI::NonStopKernel => "NonStop Kernel",
            OSABI::AROS => "AROS",
            OSABI::FenixOS => "Fenix OS",
            OSABI::CloudABI => "CloudABI",
            OSABI::Unknown => "Unknown",
        }
    }
}

impl TYPE {
    /// The display label of this object type.
    pub fn name(&self) -> (r: &'static str)
        ensures
            r@ == spec_type_name(*self),
    {
        match self {
            TYPE::NONE => "NONE",
            TYPE::REL => "REL",
            TYPE::EXEC => "EXEC",
            TYPE::DYN => "DYN",
            TYPE::CORE => "CORE",
            TYPE::LOOS => "LOOS",
            TYPE::HIOS => "HIOS",
            TYPE::LOPROC => "LOPROC",
            TYPE::HIPROC => "HIPROC",
        }
    }
}

impl Machine {
    /// The display label of this architecture.
    pub fn name(&self) -> (r: &'static str)
        ensures
            r@ == spec_machine_name(*self),
    {
        match self {
            Machine::Unknown => "Unknown ISA",
            Machine::SPARC => "SPARC",
            Machine::X86 => "x86",
            Machine::MIPS => "MIPS",
            Machine::PowerPC => "POWERPC",
            Machine::S390 => "S390",
            Machine::ARM => "ARM",
            Machine::SuperH => "SuperH",
            Machine::IA64 => "IA-64",
            Machine::X8664 => "x86-64",
            Machine::AArch64 => "AARch64",
            Machine::RISCV => "RISC-V",
        }
    }
}

impl ElfHeader {
    /// Renders the record as its fixed sequence of display lines, one per
    /// field, without altering any field.
    pub fn to_lines(&self) -> (r: Vec<String>)
        ensures
            r@.len() == 16,
            r@[0]@ == "Elf Header:"@,
            r@[1]@ == "  Class: \t"@ + spec_class_name(self.class),
            r@[2]@ == "  Data: \t"@ + spec_endian_name(self.data),
            r@[3]@ == "  OS/ABI: \t"@ + spec_osabi_name(self.osabi),
            r@[4]@ == "  ABI Version:\t"@ + spec_dec(self.abiversion as nat),
            r@[5]@ == "  Type: \t"@ + spec_type_name(self.e_type),
            r@[6]@ == "  Machine: \t"@ + spec_machine_name(self.machine),
            r@[7]@ == "  Entry point address:\t0x"@ + spec_hex(self.entry as nat),
            r@[8]@ == "  Start of program headers:\t"@ + spec_dec(self.phoff as nat)
                + " (bytes into file)"@,
            r@[9]@ == "  Start of section headers:\t"@ + spec_dec(self.shoff as nat)
                + " (bytes into file)"@,
            r@[10]@ == "  Size of this header:\t"@ + spec_dec(self.ehsize as nat) + " (bytes)"@,
            r@[11]@ == "  Size of program headers:\t"@ + spec_dec(self.phentsize as nat)
                + " (bytes)"@,
            r@[12]@ == "  Number of program headers:\t"@ + spec_dec(self.phnum as nat),
            r@[13]@ == "  Size of section headers:\t"@ + spec_dec(self.shentsize as nat)
                + " (bytes)"@,
            r@[14]@ == "  Number of section headers:\t"@ + spec_dec(self.shnum as nat),
            r@[15]@ == "  Section header string table index:\t"@ + spec_dec(self.shstrndx as nat),
    {
        let mut out: Vec<String> = Vec::new();
        out.push(String::from_str("Elf Header:"));
        out.push(String::from_str("  Class: \t").concat(self.class.name()));
        out.push(String::from_str("  Data: \t").concat(self.data.name()));
        out.push(String::from_str("  OS/ABI: \t").concat(self.osabi.name()));
        let abiversion_s: String = u64_to_dec(self.abiversion as u64);
        out.push(String::from_str("  ABI Version:\t").concat(abiversion_s.as_str()));
        out.push(String::from_str("  Type: \t").concat(self.e_type.name()));
        out.push(String::from_str("  Machine: \t").concat(self.machine.name()));
        let entry_s: String = u64_to_hex(self.entry);
        out.push(String::from_str("  Entry point address:\t0x").concat(entry_s.as_str()));
        let phoff_s: String = u64_to_dec(self.phoff);
        out.push(
            String::from_str("  Start of program headers:\t").concat(phoff_s.as_str()).concat(
                " (bytes into file)",
            ),
        );
        let shoff_s: String = u64_to_dec(self.shoff);
        out.push(
            String::from_str("  Start of section headers:\t").concat(shoff_s.as_str()).concat(
                " (bytes into file)",
            ),
        );
        let ehsize_s: String = u64_to_dec(self.ehsize as u64);
        out.push(
            String::from_str("  Size of this header:\t").concat(ehsize_s.as_str()).concat(
                " (bytes)",
            ),
        );
        let phentsize_s: String = u64_to_dec(self.phentsize as u64);
        out.push(
            String::from_str("  Size of program headers:\t").concat(phentsize_s.as_str()).concat(
                " (bytes)",
            ),
        );
        let phnum_s: String = u64_to_dec(self.phnum as u64);
        out.push(String::from_str("  Number of program headers:\t").concat(phnum_s.as_str()));
        let shentsize_s: String = u64_to_dec(self.shentsize as u64);
        out.push(
            String::from_str("  Size of section headers:\t").concat(shentsize_s.as_str()).concat(
                " (bytes)",
            ),
        );
        let shnum_s: String = u64_to_dec(self.shnum as u64);
        out.push(String::from_str("  Number of section headers:\t").concat(shnum_s.as_str()));
        let shstrndx_s: String = u64_to_dec(self.shstrndx as u64);
        out.push(
            String::from_str("  Section header string table index:\t").concat(
                shstrndx_s.as_str(),
            ),
        );
        out
    }
}

} // verus!
