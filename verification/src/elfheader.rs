//! Decoder for the fixed-layout ELF file header.
//!
//! A buffer is validated (magic signature, mode bytes, length) before any
//! field is trusted; every field is then read from the offset table of the
//! detected word-size class and decoded against fixed code tables.  The
//! function [`ElfHeader::new`] is proved to return exactly [`spec_decode`]
//! of the buffer's contents.

use vstd::prelude::*;
use crate::utils::{be_bytes, le_bytes, read_u16_at, read_u32_at, read_u64_at};

verus! {

/// Word-size class of the header: governs the widths and byte offsets of
/// every field past the identification bytes.
#[derive(Copy, Clone, Debug, PartialEq, Eq, Structural)]
pub enum Class {
    ELF32,
    ELF64,
}

/// Declared byte order of the file.
///
/// The flag is decoded and stored, but [`ElfHeader::new`] reads all
/// multi-byte fields little-endian regardless of its value; only
/// [`ElfHeader::new_byte_order_aware`] honors it.
#[derive(Copy, Clone, Debug, PartialEq, Eq, Structural)]
pub enum Endian {
    Little,
    Big,
}

/// OS/ABI of the file, from a fixed code table; codes outside the table
/// decode to `Unknown`, never to an error.
#[derive(Copy, Clone, Debug, PartialEq, Eq, Structural)]
pub enum OSABI {
    SystemV,
    HPUX,
    NetBSD,
    Linux,
    GNUHard,
    Solaris,
    AIX,
    IRIX,
    FreeBSD,
    Tru64,
    NovellModesto,
    OpenBSD,
    OpenVMS,
    NonStopKernel,
    AROS,
    FenixOS,
    CloudABI,
    Unknown,
}

/// Object type of the file, from a fixed code table; codes outside the
/// table fall back to `NONE`.
#[allow(non_camel_case_types)]
#[derive(Copy, Clone, Debug, PartialEq, Eq, Structural)]
pub enum TYPE {
    NONE,
    REL,
    EXEC,
    DYN,
    CORE,
    LOOS,
    HIOS,
    LOPROC,
    HIPROC,
}

/// Target architecture of the file, from a fixed code table; codes outside
/// the table decode to `Unknown`, never to an error.
#[derive(Copy, Clone, Debug, PartialEq, Eq, Structural)]
pub enum Machine {
    Unknown,
    SPARC,
    X86,
    MIPS,
    PowerPC,
    S390,
    ARM,
    SuperH,
    IA64,
    X8664,
    AArch64,
    RISCV,
}

/// Why a buffer could not be decoded as an ELF header.
#[derive(Copy, Clone, Debug, PartialEq, Eq, Structural)]
pub enum FormatError {
    /// The buffer does not begin with the 4-byte magic signature.
    NotThisFormat,
    /// The class byte is outside the defined set {1, 2}.
    UnknownClass,
    /// The byte-order byte is outside the defined set {1, 2}.
    UnknownByteOrder,
    /// The buffer is shorter than the header size its mode bytes demand.
    TruncatedHeader,
}

/// The decoded, immutable ELF header record.
#[derive(Copy, Clone, Debug, PartialEq, Eq, Structural)]
pub struct ElfHeader {
    pub class: Class,
    pub data: Endian,
    pub osabi: OSABI,
    pub abiversion: u8,
    pub e_type: TYPE,
    pub machine: Machine,
    pub entry: u64,
    pub phoff: u64,
    pub shoff: u64,
    pub ehsize: u16,
    pub phentsize: u16,
    pub phnum: u16,
    pub shentsize: u16,
    pub shnum: u16,
    pub shstrndx: u16,
}

/// Whether `b` begins with the 4-byte signature `{0x7f, 'E', 'L', 'F'}`.
pub open spec fn spec_magic_ok(b: Seq<u8>) -> bool {
    &&& b.len() >= 4
    &&& b[0] == 0x7f
    &&& b[1] == 0x45
    &&& b[2] == 0x4c
    &&& b[3] == 0x46
}

/// Whether a class byte is in the defined set {1, 2}.
pub open spec fn class_code_ok(c: u8) -> bool {
    c == 1 || c == 2
}

/// The class a defined class byte selects (meaningful when `class_code_ok`).
pub open spec fn spec_class_of(c: u8) -> Class {
    if c == 1 {
        Class::ELF32
    } else {
        Class::ELF64
    }
}

/// Whether a byte-order byte is in the defined set {1, 2}.
pub open spec fn endian_code_ok(c: u8) -> bool {
    c == 1 || c == 2
}

/// The byte order a defined byte selects (meaningful when `endian_code_ok`).
pub open spec fn spec_endian_of(c: u8) -> Endian {
    if c == 1 {
        Endian::Little
    } else {
        Endian::Big
    }
}

/// Whether an OS/ABI code is in the fixed code table.
pub open spec fn osabi_code_known(c: u8) -> bool {
    c <= 0x04 || (0x06 <= c && c <= 0x11)
}

/// Total decoding of an OS/ABI code: table lookup with `Unknown` fallback.
pub open spec fn spec_osabi_of(c: u8) -> OSABI {
    if c == 0x00 {
        OSABI::SystemV
    } else if c == 0x01 {
        OSABI::HPUX
    } else if c == 0x02 {
        OSABI::NetBSD
    } else if c == 0x03 {
        OSABI::Linux
    } else if c == 0x04 {
        OSABI::GNUHard
    } else if c == 0x06 {
        OSABI::Solaris
    } else if c == 0x07 {
        OSABI::AIX
    } else if c == 0x08 {
        OSABI::IRIX
    } else if c == 0x09 {
        OSABI::FreeBSD
    } else if c == 0x0a {
        OSABI::Tru64
    } else if c == 0x0b {
        OSABI::NovellModesto
    } else if c == 0x0c {
        OSABI::OpenBSD
    } else if c == 0x0d {
        OSABI::OpenVMS
    } else if c == 0x0e {
        OSABI::NonStopKernel
    } else if c == 0x0f {
        OSABI::AROS
    } else if c == 0x10 {
        OSABI::FenixOS
    } else if c == 0x11 {
        OSABI::CloudABI
    } else {
        OSABI::Unknown
    }
}

/// Whether an object-type code is in the fixed code table.
pub open spec fn type_code_known(c: int) -> bool {
    ||| (0 <= c && c <= 4)
    ||| c == 0xfe00
    ||| c == 0xfeff
    ||| c == 0xff00
    ||| c == 0xffff
}

/// Total decoding of an object-type code: table lookup falling back to
/// `NONE` for codes outside the table.
pub open spec fn spec_type_of(c: int) -> TYPE {
    if c == 0x00 {
        TYPE::NONE
    } else if c == 0x01 {
        TYPE::REL
    } else if c == 0x02 {
        TYPE::EXEC
    } else if c == 0x03 {
        TYPE::DYN
    } else if c == 0x04 {
        TYPE::CORE
    } else if c == 0xfe00 {
        TYPE::LOOS
    } else if c == 0xfeff {
        TYPE::HIOS
    } else if c == 0xff00 {
        TYPE::LOPROC
    } else if c == 0xffff {
        TYPE::HIPROC
    } else {
        TYPE::NONE
    }
}

/// Whether an architecture code is in the fixed code table.
pub open spec fn machine_code_known(c: int) -> bool {
    ||| c == 0x02
    ||| c == 0x03
    ||| c == 0x08
    ||| c == 0x14
    ||| c == 0x16
    ||| c == 0x28
    ||| c == 0x2a
    ||| c == 0x32
    ||| c == 0x3e
    ||| c == 0xb7
    ||| c == 0xf3
}

/// Total decoding of an architecture code: table lookup with `Unknown`
/// fallback.
pub open spec fn spec_machine_of(c: int) -> Machine {
    if c == 0x02 {
        Machine::SPARC
    } else if c == 0x03 {
        Machine::X86
    } else if c == 0x08 {
        Machine::MIPS
    } else if c == 0x14 {
        Machine::PowerPC
    } else if c == 0x16 {
        Machine::S390
    } else if c == 0x28 {
        Machine::ARM
    } else if c == 0x2a {
        Machine::SuperH
    } else if c == 0x32 {
        Machine::IA64
    } else if c == 0x3e {
        Machine::X8664
    } else if c == 0xb7 {
        Machine::AArch64
    } else if c == 0xf3 {
        Machine::RISCV
    } else {
        Machine::Unknown
    }
}

/// The number of bytes the full header occupies in each class.
pub open spec fn spec_header_size(c: Class) -> int {
    match c {
        Class::ELF32 => 52,
        Class::ELF64 => 64,
    }
}

/// The integer at `off`, read big-endian when `big` and little-endian
/// otherwise.
pub open spec fn field_bytes(b: Seq<u8>, off: int, width: int, big: bool) -> int {
    if big {
        be_bytes(b, off, width)
    } else {
        le_bytes(b, off, width)
    }
}

/// The fields of the record, read from the offset table of `class`, with
/// multi-byte fields assembled big-endian when `big` and little-endian
/// otherwise.  Meaningful when `b` is at least `spec_header_size(class)`
/// bytes long.
///
/// The two classes are genuinely different physical layouts past the first
/// 16 bytes, so each numeric field names its offset per class; the three
/// address/offset fields are 4 bytes wide in the 32-bit class and 8 bytes
/// wide in the 64-bit class, both normalized to `u64`.
pub open spec fn spec_fields(b: Seq<u8>, class: Class, data: Endian, big: bool) -> ElfHeader {
    ElfHeader {
        class: class,
        data: data,
        osabi: spec_osabi_of(b[7]),
        abiversion: b[8],
        e_type: spec_type_of(field_bytes(b, 0x10, 2, big)),
        machine: spec_machine_of(field_bytes(b, 0x12, 2, big)),
        entry: match class {
            Class::ELF32 => field_bytes(b, 0x18, 4, big) as u64,
            Class::ELF64 => field_bytes(b, 0x18, 8, big) as u64,
        },
        phoff: match class {
            Class::ELF32 => field_bytes(b, 0x1c, 4, big) as u64,
            Class::ELF64 => field_bytes(b, 0x20, 8, big) as u64,
        },
        shoff: match class {
            Class::ELF32 => field_bytes(b, 0x20, 4, big) as u64,
            Class::ELF64 => field_bytes(b, 0x28, 8, big) as u64,
        },
        ehsize: match class {
            Class::ELF32 => field_bytes(b, 0x28, 2, big) as u16,
            Class::ELF64 => field_bytes(b, 0x34, 2, big) as u16,
        },
        phentsize: match class {
            Class::ELF32 => field_bytes(b, 0x2a, 2, big) as u16,
            Class::ELF64 => field_bytes(b, 0x36, 2, big) as u16,
        },
        phnum: match class {
            Class::ELF32 => field_bytes(b, 0x2c, 2, big) as u16,
            Class::ELF64 => field_bytes(b, 0x38, 2, big) as u16,
        },
        shentsize: match class {
            Class::ELF32 => field_bytes(b, 0x2e, 2, big) as u16,
            Class::ELF64 => field_bytes(b, 0x3a, 2, big) as u16,
        },
        shnum: match class {
            Class::ELF32 => field_bytes(b, 0x30, 2, big) as u16,
            Class::ELF64 => field_bytes(b, 0x3c, 2, big) as u16,
        },
        shstrndx: match class {
            Class::ELF32 => field_bytes(b, 0x32, 2, big) as u16,
            Class::ELF64 => field_bytes(b, 0x3e, 2, big) as u16,
        },
    }
}

/// Whether `b` decodes successfully: magic present, both mode bytes in
/// their defined sets, and the buffer at least as long as the header size
/// of the detected class.
pub open spec fn spec_well_formed(b: Seq<u8>) -> bool {
    &&& spec_magic_ok(b)
    &&& b.len() >= 6
    &&& class_code_ok(b[4])
    &&& endian_code_ok(b[5])
    &&& b.len() >= spec_header_size(spec_class_of(b[4]))
}

/// The complete mathematical model of header decoding: which error each
/// ill-formed buffer yields, and the exact record a well-formed buffer
/// yields.  Multi-byte fields are assembled little-endian whatever the
/// declared byte order says; see [`spec_decode_aware`] for the variant
/// that honors it.
pub open spec fn spec_decode(b: Seq<u8>) -> Result<ElfHeader, FormatError> {
    if !spec_magic_ok(b) {
        Result::Err(FormatError::NotThisFormat)
    } else if b.len() < 6 {
        Result::Err(FormatError::TruncatedHeader)
    } else if !class_code_ok(b[4]) {
        Result::Err(FormatError::UnknownClass)
    } else if !endian_code_ok(b[5]) {
        Result::Err(FormatError::UnknownByteOrder)
    } else if b.len() < spec_header_size(spec_class_of(b[4])) {
        Result::Err(FormatError::TruncatedHeader)
    } else {
        Result::Ok(spec_fields(b, spec_class_of(b[4]), spec_endian_of(b[5]), false))
    }
}

/// The model of byte-order-aware decoding: identical to [`spec_decode`]
/// except that a buffer declaring big-endian byte order has its multi-byte
/// fields assembled big-endian.
pub open spec fn spec_decode_aware(b: Seq<u8>) -> Result<ElfHeader, FormatError> {
    if !spec_magic_ok(b) {
        Result::Err(FormatError::NotThisFormat)
    } else if b.len() < 6 {
        Result::Err(FormatError::TruncatedHeader)
    } else if !class_code_ok(b[4]) {
        Result::Err(FormatError::UnknownClass)
    } else if !endian_code_ok(b[5]) {
        Result::Err(FormatError::UnknownByteOrder)
    } else if b.len() < spec_header_size(spec_class_of(b[4])) {
        Result::Err(FormatError::TruncatedHeader)
    } else {
        Result::Ok(
            spec_fields(
                b,
                spec_class_of(b[4]),
                spec_endian_of(b[5]),
                spec_endian_of(b[5]) is Big,
            ),
        )
    }
}

impl ElfHeader {
    /// Decodes the header at the start of `header`, exactly as
    /// [`spec_decode`] says: all multi-byte fields little-endian, whatever
    /// the declared byte order.
    pub fn new(header: &[u8]) -> (r: Result<ElfHeader, FormatError>)
        ensures
            r == spec_decode(header@),
    {
        decode(header, false)
    }

    /// Decodes the header at the start of `header`, honoring the declared
    /// byte order, exactly as [`spec_decode_aware`] says.
    pub fn new_byte_order_aware(header: &[u8]) -> (r: Result<ElfHeader, FormatError>)
        ensures
            r == spec_decode_aware(header@),
    {
        decode(header, true)
    }
}

/// Validates the magic signature and both mode bytes, checks that the
/// buffer holds the full header of the detected class, then reads every
/// field from that class's offset table: a fully populated record, or the
/// classified error, never a partial record.  Multi-byte fields honor the
/// declared byte order only when `honor_byte_order` is set.
fn decode(header: &[u8], honor_byte_order: bool) -> (r: Result<ElfHeader, FormatError>)
    ensures
        honor_byte_order ==> r == spec_decode_aware(header@),
        !honor_byte_order ==> r == spec_decode(header@),
{
    if header.len() < 4 || header[0] != 0x7f || header[1] != 0x45 || header[2] != 0x4c
        || header[3] != 0x46 {
        return Result::Err(FormatError::NotThisFormat);
    }
    if header.len() < 6 {
        return Result::Err(FormatError::TruncatedHeader);
    }

    let class: Class = match header[4] {
        1 => Class::ELF32,
        2 => Class::ELF64,
        _ => {
            return Result::Err(FormatError::UnknownClass);
        },
    };

    let data: Endian = match header[5] {
        1 => Endian::Little,
        2 => Endian::Big,
        _ => {
            return Result::Err(FormatError::UnknownByteOrder);
        },
    };

    let required: usize = match class {
        Class::ELF32 => 52,
        Class::ELF64 => 64,
    };
    if header.len() < required {
        return Result::Err(FormatError::TruncatedHeader);
    }

    let big: bool = honor_byte_order && matches!(data, Endian::Big);

    let osabi: OSABI = match header[7] {
        0x00 => OSABI::SystemV,
        0x01 => OSABI::HPUX,
        0x02 => OSABI::NetBSD,
        0x03 => OSABI::Linux,
        0x04 => OSABI::GNUHard,
        0x06 => OSABI::Solaris,
        0x07 => OSABI::AIX,
        0x08 => OSABI::IRIX,
        0x09 => OSABI::FreeBSD,
        0x0a => OSABI::Tru64,
        0x0b => OSABI::NovellModesto,
        0x0c => OSABI::OpenBSD,
        0x0d => OSABI::OpenVMS,
        0x0e => OSABI::NonStopKernel,
        0x0f => OSABI::AROS,
        0x10 => OSABI::FenixOS,
        0x11 => OSABI::CloudABI,
        _ => OSABI::Unknown,
    };

    let abiversion: u8 = header[8];

    let type_code: u16 = read_u16_at(header, 0x10, big);
    let e_type: TYPE = match type_code {
        0x00 => TYPE::NONE,
        0x01 => TYPE::REL,
        0x02 => TYPE::EXEC,
        0x03 => TYPE::DYN,
        0x04 => TYPE::CORE,
        0xfe00 => TYPE::LOOS,
        0xfeff => TYPE::HIOS,
        0xff00 => TYPE::LOPROC,
        0xffff => TYPE::HIPROC,
        _ => TYPE::NONE,
    };

    let machine_code: u16 = read_u16_at(header, 0x12, big);
    let machine: Machine = match machine_code {
        0x02 => Machine::SPARC,
        0x03 => Machine::X86,
        0x08 => Machine::MIPS,
        0x14 => Machine::PowerPC,
        0x16 => Machine::S390,
        0x28 => Machine::ARM,
        0x2a => Machine::SuperH,
        0x32 => Machine::IA64,
        0x3e => Machine::X8664,
        0xb7 => Machine::AArch64,
        0xf3 => Machine::RISCV,
        _ => Machine::Unknown,
    };

    let entry: u64 = match class {
        Class::ELF32 => read_u32_at(header, 0x18, big) as u64,
        Class::ELF64 => read_u64_at(header, 0x18, big),
    };

    let phoff: u64 = match class {
        Class::ELF32 => read_u32_at(header, 0x1c, big) as u64,
        Class::ELF64 => read_u64_at(header, 0x20, big),
    };

    let shoff: u64 = match class {
        Class::ELF32 => read_u32_at(header, 0x20, big) as u64,
        Class::ELF64 => read_u64_at(header, 0x28, big),
    };

    let ehsize: u16 = match class {
        Class::ELF32 => read_u16_at(header, 0x28, big),
        Class::ELF64 => read_u16_at(header, 0x34, big),
    };

    let phentsize: u16 = match class {
        Class::ELF32 => read_u16_at(header, 0x2a, big),
        Class::ELF64 => read_u16_at(header, 0x36, big),
    };

    let phnum: u16 = match class {
        Class::ELF32 => read_u16_at(header, 0x2c, big),
        Class::ELF64 => read_u16_at(header, 0x38, big),
    };

    let shentsize: u16 = match class {
        Class::ELF32 => read_u16_at(header, 0x2e, big),
        Class::ELF64 => read_u16_at(header, 0x3a, big),
    };

    let shnum: u16 = match class {
        Class::ELF32 => read_u16_at(header, 0x30, big),
        Class::ELF64 => read_u16_at(header, 0x3c, big),
    };

    let shstrndx: u16 = match class {
        Class::ELF32 => read_u16_at(header, 0x32, big),
        Class::ELF64 => read_u16_at(header, 0x3e, big),
    };

    Result::Ok(
        ElfHeader {
            class,
            data,
            osabi,
            abiversion,
            e_type,
            machine,
            entry,
            phoff,
            shoff,
            ehsize,
            phentsize,
            phnum,
            shentsize,
            shnum,
            shstrndx,
        },
    )
}

/// Appends `n` zero bytes to `v`.
fn push_zeros(v: &mut Vec<u8>, n: usize)
    ensures
        final(v)@ == old(v)@ + Seq::new(n as nat, |i: int| 0u8),
{
    let mut k: usize = 0;
    while k < n
        invariant
            k <= n,
            v@ == old(v)@ + Seq::new(k as nat, |i: int| 0u8),
        decreases n - k,
    {
        v.push(0);
        k = k + 1;
        proof {
            assert(Seq::new(k as nat, |i: int| 0u8) =~= Seq::new((k - 1) as nat, |i: int| 0u8)
                + seq![0u8]);
            assert(v@ =~= old(v)@ + Seq::new(k as nat, |i: int| 0u8));
        }
    }
    proof {
        assert(v@ =~= old(v)@ + Seq::new(n as nat, |i: int| 0u8));
    }
}

/// The record that [`encode_entry_64`] builds a buffer for: a minimal
/// little-endian 64-bit-class header whose only nonzero numeric field is
/// the entry point.
pub open spec fn spec_minimal_header_64(entry: u64) -> ElfHeader {
    ElfHeader {
        class: Class::ELF64,
        data: Endian::Little,
        osabi: OSABI::SystemV,
        abiversion: 0,
        e_type: TYPE::NONE,
        machine: Machine::Unknown,
        entry: entry,
        phoff: 0,
        shoff: 0,
        ehsize: 0,
        phentsize: 0,
        phnum: 0,
        shentsize: 0,
        shnum: 0,
        shstrndx: 0,
    }
}

/// Law (round trip): for every entry-point value, the 64-byte
/// 64-bit-class buffer built around it decodes back to a record holding
/// exactly that entry point.
pub fn encode_entry_64(entry: u64) -> (r: Vec<u8>)
    ensures
        r@.len() == 64,
        spec_decode(r@) == Result::<ElfHeader, FormatError>::Ok(spec_minimal_header_64(entry)),
{
    let mut v: Vec<u8> = Vec::new();
    v.push(0x7f);
    v.push(0x45);
    v.push(0x4c);
    v.push(0x46);
    v.push(2);  // class: 64-bit
    v.push(1);  // byte order: little-endian
    push_zeros(&mut v, 18);  // version/OS-ABI/padding and type/machine/version fields
    let e0: u64 = entry;
    let e1: u64 = e0 / 256;
    let e2: u64 = e1 / 256;
    let e3: u64 = e2 / 256;
    let e4: u64 = e3 / 256;
    let e5: u64 = e4 / 256;
    let e6: u64 = e5 / 256;
    let e7: u64 = e6 / 256;
    v.push((e0 % 256) as u8);
    v.push((e1 % 256) as u8);
    v.push((e2 % 256) as u8);
    v.push((e3 % 256) as u8);
    v.push((e4 % 256) as u8);
    v.push((e5 % 256) as u8);
    v.push((e6 % 256) as u8);
    v.push((e7 % 256) as u8);
    push_zeros(&mut v, 32);  // table offsets, flags and size/count fields
    proof {
        reveal_with_fuel(le_bytes, 9);
        assert(v@.len() == 64);
        assert(e7 % 256 == e7) by {
            assert(e7 < 256);
        }
        assert(le_bytes(v@, 0x18, 8) == entry);
        assert(spec_fields(v@, Class::ELF64, Endian::Little, false) == spec_minimal_header_64(
            entry,
        ));
    }
    v
}

/// Law: a buffer that does not begin with the magic signature decodes to
/// `NotThisFormat`, whatever else it holds.
pub proof fn lemma_bad_magic_rejected(b: Seq<u8>)
    requires
        !spec_magic_ok(b),
    ensures
        spec_decode(b) == Result::<ElfHeader, FormatError>::Err(FormatError::NotThisFormat),
{
}

/// Law: a buffer with valid magic and mode bytes but shorter than the
/// header size of its detected class decodes to `TruncatedHeader`; no
/// field past the mode bytes is read from it.
pub proof fn lemma_short_buffer_rejected(b: Seq<u8>)
    requires
        spec_magic_ok(b),
        b.len() >= 6,
        class_code_ok(b[4]),
        endian_code_ok(b[5]),
        b.len() < spec_header_size(spec_class_of(b[4])),
    ensures
        spec_decode(b) == Result::<ElfHeader, FormatError>::Err(FormatError::TruncatedHeader),
{
}

/// Law: decoding succeeds exactly on well-formed buffers.
pub proof fn lemma_ok_iff_well_formed(b: Seq<u8>)
    ensures
        spec_decode(b) is Ok <==> spec_well_formed(b),
{
}

/// Law: an OS/ABI code outside the fixed table is not an error: a
/// well-formed buffer still decodes, to a record whose OS/ABI is the
/// `Unknown` fallback.
pub proof fn lemma_unknown_osabi_falls_back(b: Seq<u8>)
    requires
        spec_well_formed(b),
        !osabi_code_known(b[7]),
    ensures
        spec_decode(b) is Ok,
        spec_decode(b)->Ok_0.osabi == OSABI::Unknown,
{
}

/// Law: an object-type code outside the fixed table is not an error: a
/// well-formed buffer still decodes, to a record whose type is `NONE` —
/// the fallback is asymmetric, conflating an unrecognized code with an
/// explicit none, unlike the `Unknown` fallbacks of OS/ABI and
/// architecture.
pub proof fn lemma_unknown_type_falls_back(b: Seq<u8>)
    requires
        spec_well_formed(b),
        !type_code_known(le_bytes(b, 0x10, 2)),
    ensures
        spec_decode(b) is Ok,
        spec_decode(b)->Ok_0.e_type == TYPE::NONE,
{
}

/// Law: an architecture code outside the fixed table is not an error: a
/// well-formed buffer still decodes, to a record whose machine is the
/// `Unknown` fallback.
pub proof fn lemma_unknown_machine_falls_back(b: Seq<u8>)
    requires
        spec_well_formed(b),
        !machine_code_known(le_bytes(b, 0x12, 2)),
    ensures
        spec_decode(b) is Ok,
        spec_decode(b)->Ok_0.machine == Machine::Unknown,
{
}

/// Law: the two decodings agree on every buffer that does not declare
/// big-endian byte order; they differ only in how a big-endian-declared
/// buffer's multi-byte fields are assembled.
pub proof fn lemma_aware_agrees_on_little(b: Seq<u8>)
    requires
        b.len() >= 6 ==> b[5] != 2,
    ensures
        spec_decode_aware(b) == spec_decode(b),
{
}

/// Law: the word-size class selects the offset table.  With class byte 1
/// the three address/offset fields are read 4 bytes wide from the 32-bit
/// offsets; with class byte 2 they are read 8 bytes wide from the distinct
/// 64-bit offsets.
pub proof fn lemma_class_selects_offsets(b: Seq<u8>)
    requires
        spec_well_formed(b),
    ensures
        b[4] == 1 ==> spec_decode(b)->Ok_0.class == Class::ELF32,
        b[4] == 1 ==> spec_decode(b)->Ok_0.entry == le_bytes(b, 0x18, 4),
        b[4] == 1 ==> spec_decode(b)->Ok_0.phoff == le_bytes(b, 0x1c, 4),
        b[4] == 1 ==> spec_decode(b)->Ok_0.shoff == le_bytes(b, 0x20, 4),
        b[4] == 2 ==> spec_decode(b)->Ok_0.class == Class::ELF64,
        b[4] == 2 ==> spec_decode(b)->Ok_0.entry == le_bytes(b, 0x18, 8),
        b[4] == 2 ==> spec_decode(b)->Ok_0.phoff == le_bytes(b, 0x20, 8),
        b[4] == 2 ==> spec_decode(b)->Ok_0.shoff == le_bytes(b, 0x28, 8),
{
    crate::utils::lemma_le_bytes_4_bound(b, 0x18);
    crate::utils::lemma_le_bytes_4_bound(b, 0x1c);
    crate::utils::lemma_le_bytes_4_bound(b, 0x20);
    crate::utils::lemma_le_bytes_8_bound(b, 0x18);
    crate::utils::lemma_le_bytes_8_bound(b, 0x20);
    crate::utils::lemma_le_bytes_8_bound(b, 0x28);
}

} // verus!
