//! Format model: constant definitions and fixed-layout facts for the ELF
//! container format on x86-64 — header sizes, section/segment type codes,
//! the supported relocation-type table, dynamic-tag codes, the PLT entry
//! byte template and TLS module numbering. Pure data plus classification.

use vstd::prelude::*;
use crate::errors::LinkError;

verus! {

/// The module number for TLS variables in the current executable.
pub const CURRENT_EXE_TLS_MOD: u64 = 1;

// Section flag bit values (`sh_flags`).
pub const SHF_WRITE: u64 = 0x1;
pub const SHF_ALLOC: u64 = 0x2;
pub const SHF_EXECINSTR: u64 = 0x4;
pub const SHF_MERGE: u64 = 0x10;
pub const SHF_STRINGS: u64 = 0x20;
pub const SHF_INFO_LINK: u64 = 0x40;
pub const SHF_LINK_ORDER: u64 = 0x80;
pub const SHF_OS_NONCONFORMING: u64 = 0x100;
pub const SHF_GROUP: u64 = 0x200;
pub const SHF_TLS: u64 = 0x400;
pub const SHF_GNU_RETAIN: u64 = 0x200_000;

// Byte offsets of fields within a RELA record.
pub const RELA_ADDRESS_OFFSET: usize = 0;
pub const RELA_ADDEND_OFFSET: usize = 16;

// `DT_FLAGS_1` bit values.
pub const FLAGS_1_NOW: u64 = 0x1;
pub const FLAGS_1_PIE: u64 = 0x08000000;

// `DT_FLAGS` bit values.
pub const FLAGS_BIND_NOW: u64 = 0x8;

/// The offset of the pc_begin field in an FDE.
pub const FDE_PC_BEGIN_OFFSET: usize = 8;

/// Offset in the file where the program headers are stored: always straight
/// after the file header.
pub const PHEADER_OFFSET: u64 = 0x40;

// These sizes are from the spec (for 64 bit ELF).
pub const FILE_HEADER_SIZE: u16 = 0x40;
pub const PROGRAM_HEADER_SIZE: u16 = 0x38;
pub const SECTION_HEADER_SIZE: u16 = 0x40;

pub const GOT_ENTRY_SIZE: u64 = 0x8;
pub const PLT_ENTRY_SIZE: u64 = 0x10;
pub const RELA_ENTRY_SIZE: u64 = 0x18;
pub const SYMTAB_ENTRY_SIZE: u64 = 0x18;

pub const SYMBOL_TYPE_MASK: u8 = 0xf;
pub const SYMBOL_VISIBILITY_MASK: u8 = 0xf0;

pub const SYMBOL_TYPE_IFUNC: u8 = 10;
pub const SYMBOL_TYPE_FUNC: u8 = 2;

/// The spec-level byte sequence of one PLT entry: endbr64, a bnd jmp through
/// a GOT slot (relative address patched in later) and alignment padding.
pub open spec fn plt_entry_template_spec() -> Seq<u8> {
    seq![
        0xf3u8, 0x0fu8, 0x1eu8, 0xfau8, // endbr64
        0xf2u8, 0xffu8, 0x25u8, 0x0u8, 0x0u8, 0x0u8, 0x0u8, // bnd jmp *{GOT}(%rip)
        0x0fu8, 0x1fu8, 0x44u8, 0x0u8, 0x0u8, // nopl 0x0(%rax,%rax,1)
    ]
}

/// One PLT entry's bytes, before the GOT-relative address is patched in.
pub fn plt_entry_template() -> (r: Vec<u8>)
    ensures
        r@ == plt_entry_template_spec(),
        r@.len() == PLT_ENTRY_SIZE,
{
    let mut v: Vec<u8> = Vec::new();
    v.push(0xf3); v.push(0x0f); v.push(0x1e); v.push(0xfa);
    v.push(0xf2); v.push(0xff); v.push(0x25); v.push(0x0);
    v.push(0x0); v.push(0x0); v.push(0x0);
    v.push(0x0f); v.push(0x1f); v.push(0x44); v.push(0x0); v.push(0x0);
    proof {
        assert(v@ =~= plt_entry_template_spec());
    }
    v
}

// Relocation-type codes for x86-64 (`r_type` values), as fixed by the psABI.
pub const R_X86_64_NONE: u32 = 0;
pub const R_X86_64_64: u32 = 1;
pub const R_X86_64_PC32: u32 = 2;
pub const R_X86_64_GOT32: u32 = 3;
pub const R_X86_64_PLT32: u32 = 4;
pub const R_X86_64_GOTPCREL: u32 = 9;
pub const R_X86_64_32: u32 = 10;
pub const R_X86_64_32S: u32 = 11;
pub const R_X86_64_16: u32 = 12;
pub const R_X86_64_PC16: u32 = 13;
pub const R_X86_64_8: u32 = 14;
pub const R_X86_64_PC8: u32 = 15;
pub const R_X86_64_TLSGD: u32 = 19;
pub const R_X86_64_TLSLD: u32 = 20;
pub const R_X86_64_DTPOFF32: u32 = 21;
pub const R_X86_64_GOTTPOFF: u32 = 22;
pub const R_X86_64_TPOFF32: u32 = 23;
pub const R_X86_64_IRELATIVE: u32 = 37;
pub const R_X86_64_GOTPCRELX: u32 = 41;
pub const R_X86_64_REX_GOTPCRELX: u32 = 42;

/// File type codes (`e_type`).
#[derive(Clone, Copy, Debug, PartialEq, Eq, Structural)]
pub enum FileType {
    Unknown,
    Relocatable,
    Executable,
    SharedObject,
    CoreFile,
}

impl FileType {
    /// The numeric `e_type` code of this file type.
    pub open spec fn spec_code(self) -> u16 {
        match self {
            FileType::Unknown => 0,
            FileType::Relocatable => 0x1,
            FileType::Executable => 0x2,
            FileType::SharedObject => 0x3,
            FileType::CoreFile => 0x4,
        }
    }

    /// Returns the numeric `e_type` code of this file type.
    #[verifier::when_used_as_spec(spec_code)]
    pub fn code(self) -> (c: u16)
        ensures
            c == self.spec_code(),
    {
        match self {
            FileType::Unknown => 0,
            FileType::Relocatable => 0x1,
            FileType::Executable => 0x2,
            FileType::SharedObject => 0x3,
            FileType::CoreFile => 0x4,
        }
    }
}

/// Section type codes (`sh_type`).
#[derive(Clone, Copy, Debug, PartialEq, Eq, Structural)]
pub enum Sht {
    Null,
    Progbits,
    Symtab,
    Strtab,
    Rela,
    Hash,
    Dynamic,
    Note,
    Nobits,
    Rel,
    Shlib,
    DynSym,
    InitArray,
    FiniArray,
    PreinitArray,
    Group,
    SymtabShndx,
    Num,
}

impl Sht {
    /// The numeric `sh_type` code of this section type.
    pub open spec fn spec_code(self) -> u32 {
        match self {
            Sht::Null => 0x0,
            Sht::Progbits => 0x1,
            Sht::Symtab => 0x2,
            Sht::Strtab => 0x3,
            Sht::Rela => 0x4,
            Sht::Hash => 0x5,
            Sht::Dynamic => 0x6,
            Sht::Note => 0x7,
            Sht::Nobits => 0x8,
            Sht::Rel => 0x9,
            Sht::Shlib => 0xa,
            Sht::DynSym => 0xb,
            Sht::InitArray => 0xe,
            Sht::FiniArray => 0xf,
            Sht::PreinitArray => 0x10,
            Sht::Group => 0x11,
            Sht::SymtabShndx => 0x12,
            Sht::Num => 0x13,
        }
    }

    /// Returns the numeric `sh_type` code of this section type.
    #[verifier::when_used_as_spec(spec_code)]
    pub fn code(self) -> (c: u32)
        ensures
            c == self.spec_code(),
    {
        match self {
            Sht::Null => 0x0,
            Sht::Progbits => 0x1,
            Sht::Symtab => 0x2,
            Sht::Strtab => 0x3,
            Sht::Rela => 0x4,
            Sht::Hash => 0x5,
            Sht::Dynamic => 0x6,
            Sht::Note => 0x7,
            Sht::Nobits => 0x8,
            Sht::Rel => 0x9,
            Sht::Shlib => 0xa,
            Sht::DynSym => 0xb,
            Sht::InitArray => 0xe,
            Sht::FiniArray => 0xf,
            Sht::PreinitArray => 0x10,
            Sht::Group => 0x11,
            Sht::SymtabShndx => 0x12,
            Sht::Num => 0x13,
        }
    }
}

/// Symbol binding codes.
#[derive(Clone, Copy, Debug, PartialEq, Eq, Structural)]
pub enum Binding {
    Local,
    Global,
    Weak,
}

impl Binding {
    /// The numeric binding code.
    pub open spec fn spec_code(self) -> u8 {
        match self {
            Binding::Local => 0,
            Binding::Global => 1,
            Binding::Weak => 2,
        }
    }

    /// Returns the numeric binding code.
    #[verifier::when_used_as_spec(spec_code)]
    pub fn code(self) -> (c: u8)
        ensures
            c == self.spec_code(),
    {
        match self {
            Binding::Local => 0,
            Binding::Global => 1,
            Binding::Weak => 2,
        }
    }
}

/// Segment type codes (`p_type`).
#[derive(Clone, Copy, Debug, PartialEq, Eq, Structural)]
pub enum SegmentType {
    Null,
    Load,
    Dynamic,
    Interp,
    Note,
    Shlib,
    Phdr,
    Tls,
    EhFrame,
}

impl SegmentType {
    /// The numeric `p_type` code of this segment type.
    pub open spec fn spec_code(self) -> u32 {
        match self {
            SegmentType::Null => 0,
            SegmentType::Load => 1,
            SegmentType::Dynamic => 2,
            SegmentType::Interp => 3,
            SegmentType::Note => 4,
            SegmentType::Shlib => 5,
            SegmentType::Phdr => 6,
            SegmentType::Tls => 7,
            SegmentType::EhFrame => 0x6474e550,
        }
    }

    /// Returns the numeric `p_type` code of this segment type.
    #[verifier::when_used_as_spec(spec_code)]
    pub fn code(self) -> (c: u32)
        ensures
            c == self.spec_code(),
    {
        match self {
            SegmentType::Null => 0,
            SegmentType::Load => 1,
            SegmentType::Dynamic => 2,
            SegmentType::Interp => 3,
            SegmentType::Note => 4,
            SegmentType::Shlib => 5,
            SegmentType::Phdr => 6,
            SegmentType::Tls => 7,
            SegmentType::EhFrame => 0x6474e550,
        }
    }
}

/// Dynamic-table tag codes (`d_tag`).
#[derive(Clone, Copy, Debug, PartialEq, Eq, Structural)]
pub enum DynamicTag {
    Null,
    Needed,
    PltRelSize,
    PltGot,
    Hash,
    StrTab,
    SymTab,
    Rela,
    RelaSize,
    RelaEnt,
    StrSize,
    SymEnt,
    Init,
    Fini,
    SoName,
    Rpath,
    Symbolic,
    Rel,
    RelSize,
    RelEnt,
    PltRel,
    Debug,
    TextRel,
    JmpRel,
    BindNow,
    InitArray,
    FiniArray,
    InitArraySize,
    FiniArraySize,
    Flags,
    GnuHash,
    VerSym,
    Flags1,
    RelaCount,
    VerNeed,
    VerNeedNum,
}

impl DynamicTag {
    /// The numeric `d_tag` code of this dynamic tag.
    pub open spec fn spec_code(self) -> u64 {
        match self {
            DynamicTag::Null => 0,
            DynamicTag::Needed => 1,
            DynamicTag::PltRelSize => 2,
            DynamicTag::PltGot => 3,
            DynamicTag::Hash => 4,
            DynamicTag::StrTab => 5,
            DynamicTag::SymTab => 6,
            DynamicTag::Rela => 7,
            DynamicTag::RelaSize => 8,
            DynamicTag::RelaEnt => 9,
            DynamicTag::StrSize => 10,
            DynamicTag::SymEnt => 11,
            DynamicTag::Init => 12,
            DynamicTag::Fini => 13,
            DynamicTag::SoName => 14,
            DynamicTag::Rpath => 15,
            DynamicTag::Symbolic => 16,
            DynamicTag::Rel => 17,
            DynamicTag::RelSize => 18,
            DynamicTag::RelEnt => 19,
            DynamicTag::PltRel => 20,
            DynamicTag::Debug => 21,
            DynamicTag::TextRel => 22,
            DynamicTag::JmpRel => 23,
            DynamicTag::BindNow => 24,
            DynamicTag::InitArray => 25,
            DynamicTag::FiniArray => 26,
            DynamicTag::InitArraySize => 27,
            DynamicTag::FiniArraySize => 28,
            DynamicTag::Flags => 30,
            DynamicTag::GnuHash => 0x6ffffef5,
            DynamicTag::VerSym => 0x6ffffff0,
            DynamicTag::Flags1 => 0x6ffffffb,
            DynamicTag::RelaCount => 0x6ffffff9,
            DynamicTag::VerNeed => 0x6ffffffe,
            DynamicTag::VerNeedNum => 0x6fffffff,
        }
    }

    /// Returns the numeric `d_tag` code of this dynamic tag.
    #[verifier::when_used_as_spec(spec_code)]
    pub fn code(self) -> (c: u64)
        ensures
            c == self.spec_code(),
    {
        match self {
            DynamicTag::Null => 0,
            DynamicTag::Needed => 1,
            DynamicTag::PltRelSize => 2,
            DynamicTag::PltGot => 3,
            DynamicTag::Hash => 4,
            DynamicTag::StrTab => 5,
            DynamicTag::SymTab => 6,
            DynamicTag::Rela => 7,
            DynamicTag::RelaSize => 8,
            DynamicTag::RelaEnt => 9,
            DynamicTag::StrSize => 10,
            DynamicTag::SymEnt => 11,
            DynamicTag::Init => 12,
            DynamicTag::Fini => 13,
            DynamicTag::SoName => 14,
            DynamicTag::Rpath => 15,
            DynamicTag::Symbolic => 16,
            DynamicTag::Rel => 17,
            DynamicTag::RelSize => 18,
            DynamicTag::RelEnt => 19,
            DynamicTag::PltRel => 20,
            DynamicTag::Debug => 21,
            DynamicTag::TextRel => 22,
            DynamicTag::JmpRel => 23,
            DynamicTag::BindNow => 24,
            DynamicTag::InitArray => 25,
            DynamicTag::FiniArray => 26,
            DynamicTag::InitArraySize => 27,
            DynamicTag::FiniArraySize => 28,
            DynamicTag::Flags => 30,
            DynamicTag::GnuHash => 0x6ffffef5,
            DynamicTag::VerSym => 0x6ffffff0,
            DynamicTag::Flags1 => 0x6ffffffb,
            DynamicTag::RelaCount => 0x6ffffff9,
            DynamicTag::VerNeed => 0x6ffffffe,
            DynamicTag::VerNeedNum => 0x6fffffff,
        }
    }
}

/// The semantic meaning of one relocation, independent of its raw code.
#[derive(Clone, Copy, Debug, PartialEq, Eq, Structural)]
pub enum RelocationKind {
    /// The absolute address (or fixed value) of the target.
    Absolute,
    /// The target address relative to the relocation site.
    Relative,
    /// The offset of the target's GOT slot within the GOT.
    Got,
    /// The target's PLT stub address relative to the relocation site.
    PltRelative,
    /// The target's GOT slot address relative to the relocation site.
    GotRelative,
    /// General-dynamic TLS access through a pair of GOT entries.
    TlsGd,
    /// Local-dynamic TLS access through a pair of GOT entries.
    TlsLd,
    /// Offset of the variable within its module's TLS block.
    DtpOff,
    /// Address of a GOT slot holding a thread-pointer offset, site-relative.
    GotTpOff,
    /// Offset of the variable from the thread pointer.
    TpOff,
    /// No relocation needs to be applied. Produced when a relocation has been
    /// eliminated by an optimisation; applying it is a guaranteed no-op.
    NoOp,
}

/// Classification result for one relocation-type code: its semantic kind and
/// the number of bytes to patch at the relocation site.
#[derive(Clone, Copy, Debug, PartialEq, Eq, Structural)]
pub struct RelocationKindInfo {
    pub kind: RelocationKind,
    pub byte_size: usize,
}

/// The supported relocation table: what a raw x86-64 relocation-type code
/// classifies to, or `None` when the code is outside the table.
pub open spec fn spec_classify(r_type: u32) -> Option<RelocationKindInfo> {
    if r_type == R_X86_64_64 {
        Some(RelocationKindInfo { kind: RelocationKind::Absolute, byte_size: 8 })
    } else if r_type == R_X86_64_PC32 {
        Some(RelocationKindInfo { kind: RelocationKind::Relative, byte_size: 4 })
    } else if r_type == R_X86_64_GOT32 {
        Some(RelocationKindInfo { kind: RelocationKind::Got, byte_size: 4 })
    } else if r_type == R_X86_64_PLT32 {
        Some(RelocationKindInfo { kind: RelocationKind::PltRelative, byte_size: 4 })
    } else if r_type == R_X86_64_GOTPCREL {
        Some(RelocationKindInfo { kind: RelocationKind::GotRelative, byte_size: 4 })
    } else if r_type == R_X86_64_32 || r_type == R_X86_64_32S {
        Some(RelocationKindInfo { kind: RelocationKind::Absolute, byte_size: 4 })
    } else if r_type == R_X86_64_16 {
        Some(RelocationKindInfo { kind: RelocationKind::Absolute, byte_size: 2 })
    } else if r_type == R_X86_64_PC16 {
        Some(RelocationKindInfo { kind: RelocationKind::Relative, byte_size: 2 })
    } else if r_type == R_X86_64_8 {
        Some(RelocationKindInfo { kind: RelocationKind::Absolute, byte_size: 1 })
    } else if r_type == R_X86_64_PC8 {
        Some(RelocationKindInfo { kind: RelocationKind::Relative, byte_size: 1 })
    } else if r_type == R_X86_64_TLSGD {
        Some(RelocationKindInfo { kind: RelocationKind::TlsGd, byte_size: 4 })
    } else if r_type == R_X86_64_TLSLD {
        Some(RelocationKindInfo { kind: RelocationKind::TlsLd, byte_size: 4 })
    } else if r_type == R_X86_64_DTPOFF32 {
        Some(RelocationKindInfo { kind: RelocationKind::DtpOff, byte_size: 4 })
    } else if r_type == R_X86_64_GOTTPOFF {
        Some(RelocationKindInfo { kind: RelocationKind::GotTpOff, byte_size: 4 })
    } else if r_type == R_X86_64_GOTPCRELX || r_type == R_X86_64_REX_GOTPCRELX {
        Some(RelocationKindInfo { kind: RelocationKind::GotRelative, byte_size: 4 })
    } else if r_type == R_X86_64_TPOFF32 {
        Some(RelocationKindInfo { kind: RelocationKind::TpOff, byte_size: 4 })
    } else if r_type == R_X86_64_NONE {
        Some(RelocationKindInfo { kind: RelocationKind::NoOp, byte_size: 0 })
    } else {
        None
    }
}

impl RelocationKindInfo {
    /// Classify a raw relocation-type code, failing for any code outside the
    /// supported table; the error names the offending code.
    pub fn from_raw(r_type: u32) -> (r: Result<Self, LinkError>)
        ensures
            r == match spec_classify(r_type) {
                Some(i) => Ok::<RelocationKindInfo, LinkError>(i),
                None => Err::<RelocationKindInfo, LinkError>(
                    LinkError::UnsupportedRelocationType { code: r_type },
                ),
            },
    {
        let (kind, size): (RelocationKind, usize) = if r_type == R_X86_64_64 {
            (RelocationKind::Absolute, 8)
        } else if r_type == R_X86_64_PC32 {
            (RelocationKind::Relative, 4)
        } else if r_type == R_X86_64_GOT32 {
            (RelocationKind::Got, 4)
        } else if r_type == R_X86_64_PLT32 {
            (RelocationKind::PltRelative, 4)
        } else if r_type == R_X86_64_GOTPCREL {
            (RelocationKind::GotRelative, 4)
        } else if r_type == R_X86_64_32 || r_type == R_X86_64_32S {
            (RelocationKind::Absolute, 4)
        } else if r_type == R_X86_64_16 {
            (RelocationKind::Absolute, 2)
        } else if r_type == R_X86_64_PC16 {
            (RelocationKind::Relative, 2)
        } else if r_type == R_X86_64_8 {
            (RelocationKind::Absolute, 1)
        } else if r_type == R_X86_64_PC8 {
            (RelocationKind::Relative, 1)
        } else if r_type == R_X86_64_TLSGD {
            (RelocationKind::TlsGd, 4)
        } else if r_type == R_X86_64_TLSLD {
            (RelocationKind::TlsLd, 4)
        } else if r_type == R_X86_64_DTPOFF32 {
            (RelocationKind::DtpOff, 4)
        } else if r_type == R_X86_64_GOTTPOFF {
            (RelocationKind::GotTpOff, 4)
        } else if r_type == R_X86_64_GOTPCRELX || r_type == R_X86_64_REX_GOTPCRELX {
            (RelocationKind::GotRelative, 4)
        } else if r_type == R_X86_64_TPOFF32 {
            (RelocationKind::TpOff, 4)
        } else if r_type == R_X86_64_NONE {
            (RelocationKind::NoOp, 0)
        } else {
            return Err(LinkError::UnsupportedRelocationType { code: r_type });
        };
        Ok(Self { kind, byte_size: size })
    }
}

/// Every code in the supported table classifies to a byte width of 0, 1, 2,
/// 4 or 8, and width 0 is given exactly to the no-op kind.
pub proof fn lemma_classify_widths(r_type: u32)
    ensures
        spec_classify(r_type) matches Some(i) ==> {
            &&& (i.byte_size == 0 || i.byte_size == 1 || i.byte_size == 2 || i.byte_size == 4
                || i.byte_size == 8)
            &&& (i.byte_size == 0 <==> i.kind == RelocationKind::NoOp)
        },
{
}

} // verus!
