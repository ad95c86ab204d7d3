//! Memory-layout engine: alignment and placement of sections by a single
//! sequential address cursor, assignment of GOT slots in stable symbol-id
//! order, and the `Resolution` records that relocation application and
//! validation consume. Everything here is a pure function of its inputs,
//! so two runs over the same inputs lay the image out identically.

use vstd::prelude::*;
use vstd::arithmetic::div_mod::{lemma_fundamental_div_mod, lemma_mod_multiples_basic};
use crate::errors::{LinkError, LinkErrorV};

verus! {

/// How TLS relocations like TLSLD and TLSGD are handled, chosen once from
/// the output kind: static executables use the cheapest local-exec form,
/// everything else preserves the general/descriptor TLS model.
#[derive(Clone, Copy, Debug, PartialEq, Eq, Structural)]
pub enum TlsMode {
    /// Convert TLS accesses to the local-exec model at apply time.
    LocalExec,
    /// Preserve the TLS model given in the input relocations.
    Preserve,
}

/// How a resolved target should be treated by relocation application and
/// validation.
#[derive(Clone, Copy, Debug, PartialEq, Eq, Structural)]
pub enum TargetResolutionKind {
    /// An ordinary symbol or section.
    Normal,
    /// An ifunc: its GOT slot is filled at runtime by the resolver.
    IFunc,
    /// A GOT slot holding a thread-pointer offset rather than an address.
    GotTlsOffset,
}

/// The value a resolution settles on.
#[derive(Clone, Copy, Debug, PartialEq, Eq, Structural)]
pub enum ResolutionValue {
    /// A fixed value that needs no base relocation.
    Absolute(u64),
    /// A load address, offset from the image base when position-independent.
    Address(u64),
    /// Deferred to the dynamic linker; the payload is the dynamic symbol
    /// index, no fixed value is known at link time.
    Dynamic(u64),
}

/// The final answer for where one symbol or section lives and how
/// references to it are satisfied. When `got_address` is set, the GOT slot
/// at that address must hold exactly the value implied by `value` for
/// non-dynamic values — the property the validator checks.
#[derive(Clone, Copy, Debug, PartialEq, Eq)]
pub struct Resolution {
    pub kind: TargetResolutionKind,
    pub got_address: Option<u64>,
    pub value: ResolutionValue,
}

/// The value the image's GOT slot must carry for `v`, or nothing for a
/// dynamic resolution (the dynamic linker fills those at load time).
pub open spec fn spec_expected_got_value(v: ResolutionValue) -> Option<u64> {
    match v {
        ResolutionValue::Absolute(x) => Some(x),
        ResolutionValue::Address(x) => Some(x),
        ResolutionValue::Dynamic(_) => None,
    }
}

/// A resolved global symbol, under its stable symbol id.
#[derive(Debug, Clone, PartialEq, Eq)]
pub struct SymbolResolution {
    pub name: String,
    pub symbol_id: usize,
    pub resolution: Resolution,
}

/// Spec-level shape of a `SymbolResolution`.
#[verifier::ext_equal]
pub struct SymbolResolutionV {
    pub name: Seq<char>,
    pub symbol_id: usize,
    pub resolution: Resolution,
}

impl View for SymbolResolution {
    type V = SymbolResolutionV;

    open spec fn view(&self) -> SymbolResolutionV {
        SymbolResolutionV {
            name: self.name@,
            symbol_id: self.symbol_id,
            resolution: self.resolution,
        }
    }
}

/// One section of one object, with its resolution; discarded sections
/// (not loaded, garbage-collected or merged away) have none.
#[derive(Debug, Clone, PartialEq, Eq)]
pub struct SectionSlot {
    pub name: String,
    pub resolution: Option<Resolution>,
}

/// Spec-level shape of a `SectionSlot`.
#[verifier::ext_equal]
pub struct SectionSlotV {
    pub name: Seq<char>,
    pub resolution: Option<Resolution>,
}

impl View for SectionSlot {
    type V = SectionSlotV;

    open spec fn view(&self) -> SectionSlotV {
        SectionSlotV { name: self.name@, resolution: self.resolution }
    }
}

/// The layout of one object file: a resolution per retained section.
#[derive(Debug, Clone, PartialEq, Eq)]
pub struct ObjectLayout {
    pub file_id: usize,
    pub sections: Vec<SectionSlot>,
}

/// Spec-level shape of an `ObjectLayout`.
#[verifier::ext_equal]
pub struct ObjectLayoutV {
    pub file_id: usize,
    pub sections: Seq<SectionSlotV>,
}

impl View for ObjectLayout {
    type V = ObjectLayoutV;

    open spec fn view(&self) -> ObjectLayoutV {
        ObjectLayoutV {
            file_id: self.file_id,
            sections: self.sections@.map_values(|s: SectionSlot| s@),
        }
    }
}

/// One input's place in the image: the two synthetic pseudo-files
/// (`Internal` first, `Epilogue` last) share the address space with real
/// objects and shared-object inputs; `NotLoaded` marks inputs excluded
/// entirely, such as unreferenced archive members.
#[derive(Debug, Clone, PartialEq, Eq)]
pub enum FileLayout {
    Internal(usize),
    Object(ObjectLayout),
    Dynamic(usize),
    Epilogue(usize),
    NotLoaded,
}

/// Spec-level shape of a `FileLayout`.
#[verifier::ext_equal]
pub enum FileLayoutV {
    Internal(usize),
    Object(ObjectLayoutV),
    Dynamic(usize),
    Epilogue(usize),
    NotLoaded,
}

impl View for FileLayout {
    type V = FileLayoutV;

    open spec fn view(&self) -> FileLayoutV {
        match self {
            FileLayout::Internal(f) => FileLayoutV::Internal(*f),
            FileLayout::Object(o) => FileLayoutV::Object(o@),
            FileLayout::Dynamic(f) => FileLayoutV::Dynamic(*f),
            FileLayout::Epilogue(f) => FileLayoutV::Epilogue(*f),
            FileLayout::NotLoaded => FileLayoutV::NotLoaded,
        }
    }
}

/// The finished global layout: final addresses for every symbol and
/// section, the GOT's base address and intended slot values.
#[derive(Debug, Clone, PartialEq, Eq)]
pub struct Layout {
    pub base_address: u64,
    pub is_relocatable: bool,
    pub tls_mode: TlsMode,
    pub got_base: u64,
    pub got_entries: Vec<u64>,
    pub symbol_resolutions: Vec<SymbolResolution>,
    pub file_layouts: Vec<FileLayout>,
}

/// Spec-level shape of a `Layout`.
#[verifier::ext_equal]
pub struct LayoutV {
    pub base_address: u64,
    pub is_relocatable: bool,
    pub tls_mode: TlsMode,
    pub got_base: u64,
    pub got_entries: Seq<u64>,
    pub symbol_resolutions: Seq<SymbolResolutionV>,
    pub file_layouts: Seq<FileLayoutV>,
}

impl View for Layout {
    type V = LayoutV;

    open spec fn view(&self) -> LayoutV {
        LayoutV {
            base_address: self.base_address,
            is_relocatable: self.is_relocatable,
            tls_mode: self.tls_mode,
            got_base: self.got_base,
            got_entries: self.got_entries@,
            symbol_resolutions: self.symbol_resolutions@.map_values(
                |s: SymbolResolution| s@,
            ),
            file_layouts: self.file_layouts@.map_values(|f: FileLayout| f@),
        }
    }
}

/// Whether `a` is a power of two.
pub open spec fn is_power_of_two(a: u64) -> bool {
    a > 0 && (a & (a - 1) as u64) == 0
}

/// What rounding `addr` up to `alignment` yields, when the alignment is
/// sound and the result fits the address space.
pub open spec fn spec_align_up(addr: u64, alignment: u64) -> Option<u64>
    recommends
        alignment > 0,
{
    if addr % alignment == 0 {
        Some(addr)
    } else if addr + (alignment - addr % alignment) <= u64::MAX {
        Some((addr + (alignment - addr % alignment)) as u64)
    } else {
        None
    }
}

/// Rounds the address cursor up to a section's alignment. Fails for an
/// alignment that is not a power of two, or when rounding would leave the
/// 64-bit address space.
pub fn align_up(addr: u64, alignment: u64) -> (r: Result<u64, LinkError>)
    ensures
        !is_power_of_two(alignment) ==> r == Err::<u64, LinkError>(
            LinkError::InvalidAlignment { alignment },
        ),
        is_power_of_two(alignment) ==> r == match spec_align_up(addr, alignment) {
            Some(v) => Ok::<u64, LinkError>(v),
            None => Err::<u64, LinkError>(LinkError::AddressSpaceOverflow),
        },
        r matches Ok(v) ==> v >= addr && v % alignment == 0 && v < addr + alignment,
{
    if alignment == 0 || (alignment & (alignment - 1)) != 0 {
        return Err(LinkError::InvalidAlignment { alignment });
    }
    let rem = addr % alignment;
    if rem == 0 {
        return Ok(addr);
    }
    let pad = alignment - rem;
    if addr > u64::MAX - pad {
        return Err(LinkError::AddressSpaceOverflow);
    }
    let v = addr + pad;
    proof {
        lemma_fundamental_div_mod(addr as int, alignment as int);
        assert(v as int == alignment * (addr as int / alignment as int) + alignment);
        assert(v as int == (addr as int / alignment as int + 1) * alignment) by (nonlinear_arith)
            requires
                v as int == alignment * (addr as int / alignment as int) + alignment,
        ;
        lemma_mod_multiples_basic(addr as int / alignment as int + 1, alignment as int);
    }
    Ok(v)
}

/// The size and alignment of one section to be placed.
#[derive(Debug, Clone, Copy, PartialEq, Eq, Structural)]
pub struct SectionExtent {
    pub size: u64,
    pub alignment: u64,
}

/// What the sequential placement pass yields from `k` onward: the address
/// of each remaining section, with the cursor rounded up to each section's
/// alignment before placing it.
pub open spec fn spec_place_from(
    sections: Seq<SectionExtent>,
    k: int,
    cursor: u64,
    acc: Seq<u64>,
) -> Result<(Seq<u64>, u64), LinkErrorV>
    decreases sections.len() - k,
{
    if k >= sections.len() {
        Ok((acc, cursor))
    } else {
        let s = sections[k];
        if !is_power_of_two(s.alignment) {
            Err(LinkErrorV::InvalidAlignment { alignment: s.alignment })
        } else {
            match spec_align_up(cursor, s.alignment) {
                None => Err(LinkErrorV::AddressSpaceOverflow),
                Some(addr) => if addr + s.size <= u64::MAX {
                    spec_place_from(
                        sections,
                        k + 1,
                        (addr + s.size) as u64,
                        acc.push(addr),
                    )
                } else {
                    Err(LinkErrorV::AddressSpaceOverflow)
                },
            }
        }
    }
}

/// Places sections one after another from `base`, in the order given —
/// the caller passes them in the fixed canonical order, so placement never
/// depends on worker scheduling. Returns each section's address and the
/// final cursor.
pub fn place_sections(base: u64, sections: &Vec<SectionExtent>) -> (r: Result<
    (Vec<u64>, u64),
    LinkError,
>)
    ensures
        match r {
            Ok(out) => spec_place_from(sections@, 0, base, Seq::empty()) == Ok::<
                (Seq<u64>, u64),
                LinkErrorV,
            >((out.0@, out.1)),
            Err(e) => spec_place_from(sections@, 0, base, Seq::empty()) == Err::<
                (Seq<u64>, u64),
                LinkErrorV,
            >(e@),
        },
{
    let mut addrs: Vec<u64> = Vec::new();
    let mut cursor: u64 = base;
    let mut k: usize = 0;
    proof {
        assert(addrs@ =~= Seq::<u64>::empty());
    }
    while k < sections.len()
        invariant
            k <= sections@.len(),
            spec_place_from(sections@, k as int, cursor, addrs@) == spec_place_from(
                sections@,
                0,
                base,
                Seq::empty(),
            ),
        decreases sections@.len() - k,
    {
        let s = sections[k];
        let addr = match align_up(cursor, s.alignment) {
            Ok(a) => a,
            Err(e) => {
                return Err(e);
            },
        };
        if addr > u64::MAX - s.size {
            return Err(LinkError::AddressSpaceOverflow);
        }
        addrs.push(addr);
        cursor = addr + s.size;
        k = k + 1;
    }
    Ok((addrs, cursor))
}

// The canonical placement categories, in the fixed order sections are
// laid out: read-only code, read-only data, writable data, TLS data,
// dynamic-linking sections, GOT, PLT, and the trailing epilogue
// structures.
pub const CAT_RO_CODE: u8 = 0;
pub const CAT_RO_DATA: u8 = 1;
pub const CAT_WRITABLE: u8 = 2;
pub const CAT_TLS: u8 = 3;
pub const CAT_DYNAMIC: u8 = 4;
pub const CAT_GOT: u8 = 5;
pub const CAT_PLT: u8 = 6;
pub const CAT_EPILOGUE: u8 = 7;

/// The canonical category an input section's flags place it in.
pub open spec fn spec_section_category(flags: u64) -> u8 {
    if flags & crate::format::SHF_TLS != 0 {
        CAT_TLS
    } else if flags & crate::format::SHF_WRITE != 0 {
        CAT_WRITABLE
    } else if flags & crate::format::SHF_EXECINSTR != 0 {
        CAT_RO_CODE
    } else {
        CAT_RO_DATA
    }
}

/// Computes the canonical category of an input section from its flags.
/// The linker-generated categories (dynamic, GOT, PLT, epilogue) have no
/// input flags; their sections are synthesised with their category.
pub fn section_category(flags: u64) -> (c: u8)
    ensures
        c == spec_section_category(flags),
{
    if flags & crate::format::SHF_TLS != 0 {
        CAT_TLS
    } else if flags & crate::format::SHF_WRITE != 0 {
        CAT_WRITABLE
    } else if flags & crate::format::SHF_EXECINSTR != 0 {
        CAT_RO_CODE
    } else {
        CAT_RO_DATA
    }
}

/// The positions of the sections with category `c`, in input order.
pub open spec fn indices_with_category(cats: Seq<u8>, c: u8) -> Seq<usize>
    decreases cats.len(),
{
    if cats.len() == 0 {
        Seq::empty()
    } else {
        let pre = indices_with_category(cats.drop_last(), c);
        if cats.last() == c {
            pre.push((cats.len() - 1) as usize)
        } else {
            pre
        }
    }
}

/// The canonical walk order over sections: all of category 0 in input
/// order, then all of category 1, and so on through the epilogue.
pub open spec fn spec_canonical_order(cats: Seq<u8>) -> Seq<usize> {
    indices_with_category(cats, CAT_RO_CODE) + indices_with_category(cats, CAT_RO_DATA)
        + indices_with_category(cats, CAT_WRITABLE) + indices_with_category(cats, CAT_TLS)
        + indices_with_category(cats, CAT_DYNAMIC) + indices_with_category(cats, CAT_GOT)
        + indices_with_category(cats, CAT_PLT) + indices_with_category(cats, CAT_EPILOGUE)
}

/// The canonical order up to (excluding) category `c`.
pub open spec fn canonical_order_below(cats: Seq<u8>, c: u8) -> Seq<usize>
    decreases c,
{
    if c == 0 {
        Seq::empty()
    } else {
        canonical_order_below(cats, (c - 1) as u8) + indices_with_category(cats, (c - 1) as u8)
    }
}

/// Orders section positions into the fixed canonical category order,
/// stable within each category — the placement order is a function of the
/// sections alone, independent of any worker schedule.
pub fn canonical_order(cats: &Vec<u8>) -> (r: Vec<usize>)
    requires
        forall|i: int| 0 <= i < cats@.len() ==> #[trigger] cats@[i] < 8,
    ensures
        r@ == spec_canonical_order(cats@),
{
    let mut out: Vec<usize> = Vec::new();
    let mut c: u8 = 0;
    proof {
        assert(out@ =~= canonical_order_below(cats@, 0));
    }
    while c < 8
        invariant
            c <= 8,
            forall|i: int| 0 <= i < cats@.len() ==> #[trigger] cats@[i] < 8,
            out@ == canonical_order_below(cats@, c),
        decreases 8 - c,
    {
        let ghost out0 = out@;
        let mut i: usize = 0;
        proof {
            assert(indices_with_category(cats@.subrange(0, 0), c) =~= Seq::<usize>::empty());
            assert(out@ =~= out0 + indices_with_category(cats@.subrange(0, 0), c));
        }
        while i < cats.len()
            invariant
                i <= cats@.len(),
                out@ == out0 + indices_with_category(cats@.subrange(0, i as int), c),
            decreases cats@.len() - i,
        {
            if cats[i] == c {
                out.push(i);
            }
            proof {
                let pre = cats@.subrange(0, i as int);
                let cur = cats@.subrange(0, i + 1 as int);
                assert(cur.drop_last() =~= pre);
                assert(cur.last() == cats@[i as int]);
                if cats@[i as int] == c {
                    assert(out@ =~= out0 + indices_with_category(cur, c));
                } else {
                    assert(out@ =~= out0 + indices_with_category(cur, c));
                }
            }
            i = i + 1;
        }
        proof {
            assert(cats@.subrange(0, cats@.len() as int) =~= cats@);
            assert(out@ =~= canonical_order_below(cats@, (c + 1) as u8));
        }
        c = c + 1;
    }
    proof {
        assert(canonical_order_below(cats@, 8) =~= spec_canonical_order(cats@)) by {
            reveal_with_fuel(canonical_order_below, 9);
        }
    }
    out
}

/// One symbol's layout request, before final addresses exist: whether it
/// needs a GOT slot, and the value its resolution will settle on.
#[derive(Debug, Clone, PartialEq, Eq)]
pub struct PendingSymbol {
    pub name: String,
    pub symbol_id: usize,
    pub kind: TargetResolutionKind,
    pub needs_got: bool,
    pub value: ResolutionValue,
}

/// Spec-level shape of a `PendingSymbol`.
#[verifier::ext_equal]
pub struct PendingSymbolV {
    pub name: Seq<char>,
    pub symbol_id: usize,
    pub kind: TargetResolutionKind,
    pub needs_got: bool,
    pub value: ResolutionValue,
}

impl View for PendingSymbol {
    type V = PendingSymbolV;

    open spec fn view(&self) -> PendingSymbolV {
        PendingSymbolV {
            name: self.name@,
            symbol_id: self.symbol_id,
            kind: self.kind,
            needs_got: self.needs_got,
            value: self.value,
        }
    }
}

/// The slot value the assembler stores for a pending symbol: dynamic
/// resolutions leave a zero placeholder for the dynamic linker.
pub open spec fn spec_slot_value(v: ResolutionValue) -> u64 {
    match spec_expected_got_value(v) {
        Some(x) => x,
        None => 0,
    }
}

/// What assigning GOT slots from `k` onward yields: each symbol that needs
/// a slot takes the next one, in the stable symbol order given.
pub open spec fn spec_assemble_from(
    pending: Seq<PendingSymbolV>,
    k: int,
    resolutions: Seq<SymbolResolutionV>,
    entries: Seq<u64>,
    got_base: u64,
) -> Result<(Seq<SymbolResolutionV>, Seq<u64>), LinkErrorV>
    decreases pending.len() - k,
{
    if k >= pending.len() {
        Ok((resolutions, entries))
    } else {
        let p = pending[k];
        if p.needs_got {
            if got_base + 8 * entries.len() + 8 > u64::MAX + 1 {
                Err(LinkErrorV::AddressSpaceOverflow)
            } else {
                let ga = (got_base + 8 * entries.len()) as u64;
                spec_assemble_from(
                    pending,
                    k + 1,
                    resolutions.push(
                        SymbolResolutionV {
                            name: p.name,
                            symbol_id: p.symbol_id,
                            resolution: Resolution {
                                kind: p.kind,
                                got_address: Some(ga),
                                value: p.value,
                            },
                        },
                    ),
                    entries.push(spec_slot_value(p.value)),
                    got_base,
                )
            }
        } else {
            spec_assemble_from(
                pending,
                k + 1,
                resolutions.push(
                    SymbolResolutionV {
                        name: p.name,
                        symbol_id: p.symbol_id,
                        resolution: Resolution {
                            kind: p.kind,
                            got_address: None,
                            value: p.value,
                        },
                    },
                ),
                entries,
                got_base,
            )
        }
    }
}

/// Assigns every pending symbol its final resolution and GOT slot, in the
/// stable symbol order given, accumulating the intended GOT contents.
pub fn assemble_symbols(got_base: u64, pending: &Vec<PendingSymbol>) -> (r: Result<
    (Vec<SymbolResolution>, Vec<u64>),
    LinkError,
>)
    ensures
        match r {
            Ok(out) => spec_assemble_from(
                pending@.map_values(|p: PendingSymbol| p@),
                0,
                Seq::empty(),
                Seq::empty(),
                got_base,
            ) == Ok::<(Seq<SymbolResolutionV>, Seq<u64>), LinkErrorV>((
                out.0@.map_values(|s: SymbolResolution| s@),
                out.1@,
            )),
            Err(e) => spec_assemble_from(
                pending@.map_values(|p: PendingSymbol| p@),
                0,
                Seq::empty(),
                Seq::empty(),
                got_base,
            ) == Err::<(Seq<SymbolResolutionV>, Seq<u64>), LinkErrorV>(e@),
        },
{
    let ghost pviews = pending@.map_values(|p: PendingSymbol| p@);
    let mut resolutions: Vec<SymbolResolution> = Vec::new();
    let mut entries: Vec<u64> = Vec::new();
    let mut k: usize = 0;
    proof {
        assert(resolutions@.map_values(|s: SymbolResolution| s@) =~= Seq::<
            SymbolResolutionV,
        >::empty());
        assert(entries@ =~= Seq::<u64>::empty());
    }
    while k < pending.len()
        invariant
            k <= pending@.len(),
            pviews == pending@.map_values(|p: PendingSymbol| p@),
            spec_assemble_from(
                pviews,
                k as int,
                resolutions@.map_values(|s: SymbolResolution| s@),
                entries@,
                got_base,
            ) == spec_assemble_from(pviews, 0, Seq::empty(), Seq::empty(), got_base),
        decreases pending@.len() - k,
    {
        let ghost res0 = resolutions@.map_values(|s: SymbolResolution| s@);
        let p = &pending[k];
        if p.needs_got {
            let ga_wide: u128 = got_base as u128 + 8 * (entries.len() as u128);
            if ga_wide + 8 > u64::MAX as u128 + 1 {
                return Err(LinkError::AddressSpaceOverflow);
            }
            let ga: u64 = ga_wide as u64;
            let res = Resolution { kind: p.kind, got_address: Some(ga), value: p.value };
            let slot_value: u64 = match p.value {
                ResolutionValue::Absolute(x) => x,
                ResolutionValue::Address(x) => x,
                ResolutionValue::Dynamic(_) => 0,
            };
            resolutions.push(
                SymbolResolution {
                    name: p.name.clone(),
                    symbol_id: p.symbol_id,
                    resolution: res,
                },
            );
            entries.push(slot_value);
            proof {
                assert(resolutions@.map_values(|s: SymbolResolution| s@) =~= res0.push(
                    SymbolResolutionV {
                        name: pviews[k as int].name,
                        symbol_id: pviews[k as int].symbol_id,
                        resolution: Resolution {
                            kind: pviews[k as int].kind,
                            got_address: Some(ga),
                            value: pviews[k as int].value,
                        },
                    },
                ));
            }
        } else {
            let res = Resolution { kind: p.kind, got_address: None, value: p.value };
            resolutions.push(
                SymbolResolution {
                    name: p.name.clone(),
                    symbol_id: p.symbol_id,
                    resolution: res,
                },
            );
            proof {
                assert(resolutions@.map_values(|s: SymbolResolution| s@) =~= res0.push(
                    SymbolResolutionV {
                        name: pviews[k as int].name,
                        symbol_id: pviews[k as int].symbol_id,
                        resolution: Resolution {
                            kind: pviews[k as int].kind,
                            got_address: None,
                            value: pviews[k as int].value,
                        },
                    },
                ));
            }
        }
        k = k + 1;
    }
    Ok((resolutions, entries))
}

/// One resolution's GOT constraint against the intended slot values: a
/// slot-bearing resolution's address names a real slot, and for
/// non-dynamic values the slot carries exactly the resolved value.
pub open spec fn sym_slot_ok(r: Resolution, got_base: u64, entries: Seq<u64>) -> bool {
    (r.kind != TargetResolutionKind::IFunc && r.kind != TargetResolutionKind::GotTlsOffset
        && r.got_address is Some) ==> {
        let ga = r.got_address->0;
        &&& ga >= got_base
        &&& (ga - got_base) % 8 == 0
        &&& (ga - got_base) / 8 < entries.len()
        &&& match spec_expected_got_value(r.value) {
            Some(exp) => entries[(ga - got_base) / 8] == exp,
            None => true,
        }
    }
}

/// The same constraint, read against a whole layout.
pub open spec fn res_slot_ok(l: LayoutV, r: Resolution) -> bool {
    sym_slot_ok(r, l.got_base, l.got_entries)
}

/// Every resolution the slot assembler has produced so far names a slot
/// among the entries accumulated so far.
pub open spec fn all_slots_ok(
    rs: Seq<SymbolResolutionV>,
    got_base: u64,
    entries: Seq<u64>,
) -> bool {
    forall|i: int| 0 <= i < rs.len() ==> sym_slot_ok(#[trigger] rs[i].resolution, got_base, entries)
}

/// The slot assembler establishes the GOT constraint by construction:
/// whatever resolutions and entries it completes from a sound partial
/// state, every produced resolution's slot is real and carries the
/// resolved value.
pub proof fn lemma_assemble_slots_ok(
    pending: Seq<PendingSymbolV>,
    k: int,
    rs0: Seq<SymbolResolutionV>,
    es0: Seq<u64>,
    got_base: u64,
    rs1: Seq<SymbolResolutionV>,
    es1: Seq<u64>,
)
    requires
        0 <= k <= pending.len(),
        spec_assemble_from(pending, k, rs0, es0, got_base) == Ok::<
            (Seq<SymbolResolutionV>, Seq<u64>),
            LinkErrorV,
        >((rs1, es1)),
        all_slots_ok(rs0, got_base, es0),
        es1.len() >= es0.len(),
    ensures
        all_slots_ok(rs1, got_base, es1),
        forall|j: int| 0 <= j < es0.len() ==> es1[j] == es0[j],
    decreases pending.len() - k,
{
    if k == pending.len() {
    } else {
        let p = pending[k];
        if p.needs_got {
            let ga = (got_base + 8 * es0.len()) as u64;
            let res = Resolution { kind: p.kind, got_address: Some(ga), value: p.value };
            let es = es0.push(spec_slot_value(p.value));
            let rs = rs0.push(
                SymbolResolutionV { name: p.name, symbol_id: p.symbol_id, resolution: res },
            );
            assert(ga - got_base == 8 * es0.len());
            assert((ga - got_base) % 8 == 0 && (ga - got_base) / 8 == es0.len()) by {
                vstd::arithmetic::div_mod::lemma_mod_multiples_basic(es0.len() as int, 8);
                vstd::arithmetic::div_mod::lemma_div_multiples_vanish(es0.len() as int, 8);
            }
            assert(sym_slot_ok(res, got_base, es));
            assert(all_slots_ok(rs, got_base, es));
            lemma_assemble_es_grow(pending, k + 1, rs, es, got_base, rs1, es1);
            lemma_assemble_slots_ok(pending, k + 1, rs, es, got_base, rs1, es1);
            assert(forall|j: int| 0 <= j < es0.len() ==> es1[j] == es0[j]);
        } else {
            let res = Resolution { kind: p.kind, got_address: None, value: p.value };
            let rs = rs0.push(
                SymbolResolutionV { name: p.name, symbol_id: p.symbol_id, resolution: res },
            );
            assert(all_slots_ok(rs, got_base, es0));
            lemma_assemble_slots_ok(pending, k + 1, rs, es0, got_base, rs1, es1);
        }
    }
}

/// The assembler only ever appends GOT entries: it never moves or
/// rewrites an already-assigned slot.
pub proof fn lemma_assemble_es_grow(
    pending: Seq<PendingSymbolV>,
    k: int,
    rs0: Seq<SymbolResolutionV>,
    es0: Seq<u64>,
    got_base: u64,
    rs1: Seq<SymbolResolutionV>,
    es1: Seq<u64>,
)
    requires
        0 <= k <= pending.len(),
        spec_assemble_from(pending, k, rs0, es0, got_base) == Ok::<
            (Seq<SymbolResolutionV>, Seq<u64>),
            LinkErrorV,
        >((rs1, es1)),
    ensures
        es1.len() >= es0.len(),
        forall|j: int| 0 <= j < es0.len() ==> es1[j] == es0[j],
    decreases pending.len() - k,
{
    if k < pending.len() {
        let p = pending[k];
        if p.needs_got {
            let ga = (got_base + 8 * es0.len()) as u64;
            let res = Resolution { kind: p.kind, got_address: Some(ga), value: p.value };
            let es = es0.push(spec_slot_value(p.value));
            let rs = rs0.push(
                SymbolResolutionV { name: p.name, symbol_id: p.symbol_id, resolution: res },
            );
            lemma_assemble_es_grow(pending, k + 1, rs, es, got_base, rs1, es1);
        } else {
            let res = Resolution { kind: p.kind, got_address: None, value: p.value };
            let rs = rs0.push(
                SymbolResolutionV { name: p.name, symbol_id: p.symbol_id, resolution: res },
            );
            lemma_assemble_es_grow(pending, k + 1, rs, es0, got_base, rs1, es1);
        }
    }
}

/// A layout whose symbol resolutions and GOT entries came out of the slot
/// assembler, and whose file layouts only carry slot-sound resolutions,
/// has a well-formed GOT — the premise of the validator round trip.
pub proof fn lemma_assembled_layout_wf(l: LayoutV, pending: Seq<PendingSymbolV>)
    requires
        spec_assemble_from(pending, 0, Seq::empty(), Seq::empty(), l.got_base) == Ok::<
            (Seq<SymbolResolutionV>, Seq<u64>),
            LinkErrorV,
        >((l.symbol_resolutions, l.got_entries)),
        forall|i: int| 0 <= i < l.file_layouts.len() ==> file_slots_ok(l, #[trigger] l.file_layouts[i]),
    ensures
        wf_got(l),
{
    lemma_assemble_es_grow(
        pending,
        0,
        Seq::empty(),
        Seq::empty(),
        l.got_base,
        l.symbol_resolutions,
        l.got_entries,
    );
    lemma_assemble_slots_ok(
        pending,
        0,
        Seq::empty(),
        Seq::empty(),
        l.got_base,
        l.symbol_resolutions,
        l.got_entries,
    );
}

/// Every GOT constraint of one file layout.
pub open spec fn file_slots_ok(l: LayoutV, f: FileLayoutV) -> bool {
    match f {
        FileLayoutV::Object(o) => forall|j: int|
            0 <= j < o.sections.len() ==> match #[trigger] o.sections[j].resolution {
                Some(r) => res_slot_ok(l, r),
                None => true,
            },
        _ => true,
    }
}

/// The layout's GOT is well-formed: every symbol and section resolution
/// that carries a GOT address points at a real slot holding its value.
pub open spec fn wf_got(l: LayoutV) -> bool {
    &&& forall|i: int|
        0 <= i < l.symbol_resolutions.len() ==> res_slot_ok(
            l,
            #[trigger] l.symbol_resolutions[i].resolution,
        )
    &&& forall|i: int|
        0 <= i < l.file_layouts.len() ==> file_slots_ok(l, #[trigger] l.file_layouts[i])
}

/// Whether a section is allocated into the image. Dead-section
/// elimination always runs: a section survives only when some retained
/// symbol lives in it. String-merge candidates that an earlier merge pass
/// marked as duplicates are dropped when merging is enabled, and debug
/// sections (never allocated) disappear under `--strip-debug` like any
/// other unallocated section.
pub open spec fn spec_section_is_loaded(
    flags: u64,
    merge_strings: bool,
    merge_duplicate: bool,
    has_retained_symbol: bool,
) -> bool {
    &&& flags & crate::format::SHF_ALLOC != 0
    &&& !(merge_strings && flags & crate::format::SHF_MERGE != 0 && flags
        & crate::format::SHF_STRINGS != 0 && merge_duplicate)
    &&& has_retained_symbol
}

/// Decides whether one section is allocated into the image.
pub fn section_is_loaded(
    flags: u64,
    merge_strings: bool,
    merge_duplicate: bool,
    has_retained_symbol: bool,
) -> (r: bool)
    ensures
        r == spec_section_is_loaded(flags, merge_strings, merge_duplicate, has_retained_symbol),
{
    (flags & crate::format::SHF_ALLOC != 0) && !(merge_strings && (flags
        & crate::format::SHF_MERGE != 0) && (flags & crate::format::SHF_STRINGS != 0)
        && merge_duplicate) && has_retained_symbol
}

/// Whether a classified relocation kind demands a GOT slot for its
/// target. The general-dynamic and local-dynamic TLS forms address their
/// targets through GOT entries as well.
pub open spec fn spec_kind_wants_got(kind: crate::format::RelocationKind) -> bool {
    match kind {
        crate::format::RelocationKind::Got => true,
        crate::format::RelocationKind::GotRelative => true,
        crate::format::RelocationKind::GotTpOff => true,
        crate::format::RelocationKind::TlsGd => true,
        crate::format::RelocationKind::TlsLd => true,
        _ => false,
    }
}

/// Whether the relocations `r_types[k..]` referencing one symbol demand a
/// GOT slot for it, or fail classification first.
pub open spec fn spec_needs_got_from(r_types: Seq<u32>, k: int) -> Result<bool, LinkErrorV>
    decreases r_types.len() - k,
{
    if k >= r_types.len() {
        Ok(false)
    } else {
        match crate::format::spec_classify(r_types[k]) {
            None => Err(
                LinkErrorV::UnsupportedRelocationType { code: r_types[k] },
            ),
            Some(info) => if spec_kind_wants_got(info.kind) {
                Ok(true)
            } else {
                spec_needs_got_from(r_types, k + 1)
            },
        }
    }
}

/// Decides whether a symbol referenced by the given relocation-type codes
/// needs a GOT slot. An unsupported code is a hard error here too: every
/// reference must classify before layout can proceed.
pub fn needs_got_slot(r_types: &Vec<u32>) -> (r: Result<bool, LinkError>)
    ensures
        match r {
            Ok(b) => spec_needs_got_from(r_types@, 0) == Ok::<bool, LinkErrorV>(b),
            Err(e) => spec_needs_got_from(r_types@, 0) == Err::<bool, LinkErrorV>(e@),
        },
{
    let mut k: usize = 0;
    while k < r_types.len()
        invariant
            k <= r_types@.len(),
            spec_needs_got_from(r_types@, k as int) == spec_needs_got_from(r_types@, 0),
        decreases r_types@.len() - k,
    {
        match crate::format::RelocationKindInfo::from_raw(r_types[k]) {
            Err(e) => {
                return Err(e);
            },
            Ok(info) => {
                let wants = match info.kind {
                    crate::format::RelocationKind::Got => true,
                    crate::format::RelocationKind::GotRelative => true,
                    crate::format::RelocationKind::GotTpOff => true,
                    crate::format::RelocationKind::TlsGd => true,
                    crate::format::RelocationKind::TlsLd => true,
                    _ => false,
                };
                if wants {
                    return Ok(true);
                }
            },
        }
        k = k + 1;
    }
    Ok(false)
}

/// Whether the relocations `r_types[k..]` demand a PLT stub: a PLT-indirect
/// reference needs one exactly when the definition may not be known until
/// runtime (`runtime_unknown`: a shared-library definition or an
/// interposable function symbol).
pub open spec fn spec_needs_plt_from(r_types: Seq<u32>, k: int, runtime_unknown: bool) -> Result<
    bool,
    LinkErrorV,
>
    decreases r_types.len() - k,
{
    if k >= r_types.len() {
        Ok(false)
    } else {
        match crate::format::spec_classify(r_types[k]) {
            None => Err(
                LinkErrorV::UnsupportedRelocationType { code: r_types[k] },
            ),
            Some(info) => if info.kind == crate::format::RelocationKind::PltRelative
                && runtime_unknown {
                Ok(true)
            } else {
                spec_needs_plt_from(r_types, k + 1, runtime_unknown)
            },
        }
    }
}

/// Decides whether a symbol referenced by the given relocation-type codes
/// needs a PLT stub.
pub fn needs_plt_slot(r_types: &Vec<u32>, runtime_unknown: bool) -> (r: Result<bool, LinkError>)
    ensures
        match r {
            Ok(b) => spec_needs_plt_from(r_types@, 0, runtime_unknown) == Ok::<bool, LinkErrorV>(
                b,
            ),
            Err(e) => spec_needs_plt_from(r_types@, 0, runtime_unknown) == Err::<
                bool,
                LinkErrorV,
            >(e@),
        },
{
    let mut k: usize = 0;
    while k < r_types.len()
        invariant
            k <= r_types@.len(),
            spec_needs_plt_from(r_types@, k as int, runtime_unknown) == spec_needs_plt_from(
                r_types@,
                0,
                runtime_unknown,
            ),
        decreases r_types@.len() - k,
    {
        match crate::format::RelocationKindInfo::from_raw(r_types[k]) {
            Err(e) => {
                return Err(e);
            },
            Ok(info) => {
                if matches!(info.kind, crate::format::RelocationKind::PltRelative)
                    && runtime_unknown {
                    return Ok(true);
                }
            },
        }
        k = k + 1;
    }
    Ok(false)
}

/// Determinism: every stage of the pipeline — symbol-database
/// construction, GOT-slot assignment, section placement — is a
/// mathematical function of the link inputs in their link-command order,
/// so two runs over the same inputs make identical decisions, and the
/// bytes written from them are identical. Worker-pool size plays no part:
/// no stage's specification mentions it.
pub proof fn lemma_pipeline_deterministic(
    defs: Seq<crate::symbol_db::SymbolDefV>,
    pending: Seq<PendingSymbolV>,
    got_base: u64,
    sections: Seq<SectionExtent>,
    base: u64,
    r1: (
        Map<Seq<char>, crate::symbol_db::SymbolEntryV>,
        Result<(Seq<SymbolResolutionV>, Seq<u64>), LinkErrorV>,
        Result<(Seq<u64>, u64), LinkErrorV>,
    ),
    r2: (
        Map<Seq<char>, crate::symbol_db::SymbolEntryV>,
        Result<(Seq<SymbolResolutionV>, Seq<u64>), LinkErrorV>,
        Result<(Seq<u64>, u64), LinkErrorV>,
    ),
)
    requires
        r1 == (
            crate::symbol_db::spec_build(defs),
            spec_assemble_from(pending, 0, Seq::empty(), Seq::empty(), got_base),
            spec_place_from(sections, 0, base, Seq::empty()),
        ),
        r2 == (
            crate::symbol_db::spec_build(defs),
            spec_assemble_from(pending, 0, Seq::empty(), Seq::empty(), got_base),
            spec_place_from(sections, 0, base, Seq::empty()),
        ),
    ensures
        r1 == r2,
{
}

/// The base address, TLS mode and relocatability of a link are settled by
/// the output kind and the position-independence flag alone: two
/// configurations that differ only in worker-pool size, timing flags or
/// debug-fuel budget drive the layout identically.
pub proof fn lemma_layout_ignores_scheduling(a1: crate::args::Args, a2: crate::args::Args)
    requires
        a1.pie == a2.pie,
        a1.output_kind == a2.output_kind,
    ensures
        a1.spec_base_address() == a2.spec_base_address(),
        (a1.pie || a1.output_kind != crate::args::OutputKind::StaticExecutable) == (a2.pie
            || a2.output_kind != crate::args::OutputKind::StaticExecutable),
{
}

/// The byte image of the intended GOT contents, little-endian.
pub fn got_image(entries: &Vec<u64>) -> (r: Vec<u8>)
    ensures
        r@.len() == 8 * entries@.len(),
        forall|j: int|
            0 <= j < entries@.len() ==> r@.subrange(8 * j, 8 * j + 8)
                == crate::bytes::spec_u64_to_le(#[trigger] entries@[j]),
{
    let mut out: Vec<u8> = Vec::new();
    let mut j: usize = 0;
    while j < entries.len()
        invariant
            j <= entries@.len(),
            out@.len() == 8 * j,
            forall|t: int|
                0 <= t < j ==> out@.subrange(8 * t, 8 * t + 8) == crate::bytes::spec_u64_to_le(
                    #[trigger] entries@[t],
                ),
        decreases entries@.len() - j,
    {
        let ghost out0 = out@;
        crate::bytes::write_u64_le(&mut out, entries[j]);
        proof {
            assert forall|t: int| 0 <= t < j + 1 implies out@.subrange(8 * t, 8 * t + 8)
                == crate::bytes::spec_u64_to_le(#[trigger] entries@[t]) by {
                if t < j {
                    assert(out@.subrange(8 * t, 8 * t + 8) =~= out0.subrange(8 * t, 8 * t + 8));
                } else {
                    assert(out@.subrange(8 * j, 8 * j + 8) =~= crate::bytes::spec_u64_to_le(
                        entries@[j as int],
                    ));
                }
            }
        }
        j = j + 1;
    }
    out
}

} // verus!
