//! Post-link validation: re-reads the emitted image and cross-checks that
//! every GOT slot contains the address the layout computed, catching
//! layout or application bugs before they ship. Skipped for relocatable
//! outputs, whose GOT entries legitimately depend on load-time values.

use vstd::prelude::*;
use object::Object;
use object::ObjectSection;
use crate::bytes::{lemma_u64_le_round_trip, read_u64_le, spec_u64_from_le, spec_u64_to_le};
use crate::errors::{LinkError, LinkErrorV};
use crate::layout::{FileLayout, FileLayoutV, Layout, LayoutV, Resolution, SectionSlotV,
    SymbolResolutionV, TargetResolutionKind, file_slots_ok, res_slot_ok,
    spec_expected_got_value, wf_got};

verus! {

/// What validating one resolution against the GOT bytes yields: ifunc and
/// TLS-offset slots are skipped (their contents are not plain addresses),
/// as are resolutions without a GOT slot and dynamic values; otherwise the
/// 8 bytes at the slot must decode to exactly the resolved value.
pub open spec fn spec_validate_resolution(
    name: Seq<char>,
    res: Resolution,
    got_addr: u64,
    got: Seq<u8>,
) -> Result<(), LinkErrorV> {
    if res.kind == TargetResolutionKind::IFunc || res.kind == TargetResolutionKind::GotTlsOffset {
        Ok(())
    } else {
        match res.got_address {
            None => Ok(()),
            Some(ga) => if ga < got_addr {
                Err(LinkErrorV::GotOffsetOutOfBounds { end_offset: 0 })
            } else if ga - got_addr + 8 > got.len() {
                Err(
                    LinkErrorV::GotOffsetOutOfBounds {
                        end_offset: if ga - got_addr + 8 <= u64::MAX {
                            (ga - got_addr + 8) as u64
                        } else {
                            u64::MAX
                        },
                    },
                )
            } else {
                match spec_expected_got_value(res.value) {
                    None => Ok(()),
                    Some(exp) => {
                        let found = spec_u64_from_le(
                            got.subrange(ga - got_addr, ga - got_addr + 8),
                        );
                        if found == exp {
                            Ok(())
                        } else {
                            Err(
                                LinkErrorV::GotValueMismatch {
                                    name,
                                    expected: exp,
                                    got_address: ga,
                                    found,
                                },
                            )
                        }
                    },
                }
            },
        }
    }
}

/// Checks one resolution's GOT slot against the section bytes.
pub fn validate_resolution(
    name: &String,
    res: &Resolution,
    got_address: u64,
    got_data: &Vec<u8>,
) -> (r: Result<(), LinkError>)
    ensures
        match r {
            Ok(u) => spec_validate_resolution(name@, *res, got_address, got_data@) == Ok::<
                (),
                LinkErrorV,
            >(()),
            Err(e) => spec_validate_resolution(name@, *res, got_address, got_data@) == Err::<
                (),
                LinkErrorV,
            >(e@),
        },
{
    if matches!(res.kind, TargetResolutionKind::IFunc | TargetResolutionKind::GotTlsOffset) {
        return Ok(());
    }
    let ga = match res.got_address {
        None => {
            return Ok(());
        },
        Some(g) => g,
    };
    if ga < got_address {
        return Err(LinkError::GotOffsetOutOfBounds { end_offset: 0 });
    }
    let start = ga - got_address;
    let len64 = got_data.len() as u64;
    if start > u64::MAX - 8 || start + 8 > len64 {
        let end: u64 = if start > u64::MAX - 8 {
            u64::MAX
        } else {
            start + 8
        };
        return Err(LinkError::GotOffsetOutOfBounds { end_offset: end });
    }
    let expected = match res.value {
        crate::layout::ResolutionValue::Absolute(v) => v,
        crate::layout::ResolutionValue::Address(v) => v,
        crate::layout::ResolutionValue::Dynamic(_) => {
            return Ok(());
        },
    };
    let found = read_u64_le(got_data, start as usize);
    if expected != found {
        return Err(
            LinkError::GotValueMismatch {
                name: name.clone(),
                expected,
                got_address: ga,
                found,
            },
        );
    }
    Ok(())
}

/// The first failure among the global symbols from position `k` on.
pub open spec fn spec_validate_symbols_from(
    rs: Seq<SymbolResolutionV>,
    k: int,
    got_addr: u64,
    got: Seq<u8>,
) -> Result<(), LinkErrorV>
    decreases rs.len() - k,
{
    if k >= rs.len() {
        Ok(())
    } else {
        match spec_validate_resolution(rs[k].name, rs[k].resolution, got_addr, got) {
            Err(e) => Err(e),
            Ok(u) => spec_validate_symbols_from(rs, k + 1, got_addr, got),
        }
    }
}

/// The first failure among one object's sections from position `k` on.
pub open spec fn spec_validate_sections_from(
    secs: Seq<SectionSlotV>,
    k: int,
    got_addr: u64,
    got: Seq<u8>,
) -> Result<(), LinkErrorV>
    decreases secs.len() - k,
{
    if k >= secs.len() {
        Ok(())
    } else {
        let step: Result<(), LinkErrorV> = match secs[k].resolution {
            Some(res) => spec_validate_resolution(secs[k].name, res, got_addr, got),
            None => Ok(()),
        };
        match step {
            Err(e) => Err(e),
            Ok(u) => spec_validate_sections_from(secs, k + 1, got_addr, got),
        }
    }
}

/// The first failure among the file layouts from position `k` on: only
/// object files carry per-section resolutions to check.
pub open spec fn spec_validate_files_from(
    fs: Seq<FileLayoutV>,
    k: int,
    got_addr: u64,
    got: Seq<u8>,
) -> Result<(), LinkErrorV>
    decreases fs.len() - k,
{
    if k >= fs.len() {
        Ok(())
    } else {
        let step: Result<(), LinkErrorV> = match fs[k] {
            FileLayoutV::Object(o) => spec_validate_sections_from(o.sections, 0, got_addr, got),
            _ => Ok(()),
        };
        match step {
            Err(e) => Err(e),
            Ok(u) => spec_validate_files_from(fs, k + 1, got_addr, got),
        }
    }
}

/// What validating a whole layout against the GOT section yields.
/// Relocatable outputs are not validated: their GOT entries all carry
/// dynamic relocations.
pub open spec fn spec_validate_object(l: LayoutV, got_addr: u64, got: Seq<u8>) -> Result<
    (),
    LinkErrorV,
> {
    if l.is_relocatable {
        Ok(())
    } else {
        match spec_validate_symbols_from(l.symbol_resolutions, 0, got_addr, got) {
            Err(e) => Err(e),
            Ok(u) => spec_validate_files_from(l.file_layouts, 0, got_addr, got),
        }
    }
}

/// Checks that every global symbol's and every section's GOT slot in the
/// emitted `.got` bytes matches what the layout intended.
pub fn validate_object(layout: &Layout, got_address: u64, got_data: &Vec<u8>) -> (r: Result<
    (),
    LinkError,
>)
    ensures
        match r {
            Ok(u) => spec_validate_object(layout@, got_address, got_data@) == Ok::<
                (),
                LinkErrorV,
            >(()),
            Err(e) => spec_validate_object(layout@, got_address, got_data@) == Err::<
                (),
                LinkErrorV,
            >(e@),
        },
{
    if layout.is_relocatable {
        // The only thing validated is GOT entries, and for relocatable
        // outputs they all have dynamic relocations.
        return Ok(());
    }
    let ghost rs = layout@.symbol_resolutions;
    let mut i: usize = 0;
    while i < layout.symbol_resolutions.len()
        invariant
            i <= rs.len(),
            rs == layout@.symbol_resolutions,
            !layout.is_relocatable,
            spec_validate_symbols_from(rs, i as int, got_address, got_data@)
                == spec_validate_symbols_from(rs, 0, got_address, got_data@),
        decreases rs.len() - i,
    {
        let sr = &layout.symbol_resolutions[i];
        proof {
            assert(rs[i as int] == layout.symbol_resolutions@[i as int]@);
        }
        match validate_resolution(&sr.name, &sr.resolution, got_address, got_data) {
            Ok(u) => {},
            Err(e) => {
                proof {
                    assert(spec_validate_symbols_from(rs, i as int, got_address, got_data@)
                        == Err::<(), LinkErrorV>(e@));
                }
                return Err(e);
            },
        }
        i = i + 1;
    }
    let ghost fs = layout@.file_layouts;
    let mut f: usize = 0;
    while f < layout.file_layouts.len()
        invariant
            f <= fs.len(),
            fs == layout@.file_layouts,
            rs == layout@.symbol_resolutions,
            !layout.is_relocatable,
            spec_validate_symbols_from(rs, 0, got_address, got_data@) == Ok::<(), LinkErrorV>(
                (),
            ),
            spec_validate_files_from(fs, f as int, got_address, got_data@)
                == spec_validate_files_from(fs, 0, got_address, got_data@),
        decreases fs.len() - f,
    {
        match &layout.file_layouts[f] {
            FileLayout::Internal(_) => {},
            FileLayout::Dynamic(_) => {},
            FileLayout::Epilogue(_) => {},
            FileLayout::NotLoaded => {},
            FileLayout::Object(obj) => {
                proof {
                    assert(fs[f as int] == layout.file_layouts@[f as int]@);
                }
                let ghost secs = obj@.sections;
                let mut s: usize = 0;
                while s < obj.sections.len()
                    invariant
                        s <= secs.len(),
                        secs == obj@.sections,
                        fs == layout@.file_layouts,
                        f < fs.len(),
                        fs[f as int] == FileLayoutV::Object(obj@),
                        !layout.is_relocatable,
                        rs == layout@.symbol_resolutions,
                        spec_validate_symbols_from(rs, 0, got_address, got_data@) == Ok::<
                            (),
                            LinkErrorV,
                        >(()),
                        spec_validate_files_from(fs, f as int, got_address, got_data@)
                            == spec_validate_files_from(fs, 0, got_address, got_data@),
                        spec_validate_sections_from(secs, s as int, got_address, got_data@)
                            == spec_validate_sections_from(secs, 0, got_address, got_data@),
                    decreases secs.len() - s,
                {
                    let slot = &obj.sections[s];
                    proof {
                        assert(secs[s as int] == obj.sections@[s as int]@);
                    }
                    match &slot.resolution {
                        None => {},
                        Some(res) => {
                            match validate_resolution(&slot.name, res, got_address, got_data) {
                                Ok(u) => {},
                                Err(e) => {
                                    proof {
                                        assert(spec_validate_sections_from(
                                            secs,
                                            s as int,
                                            got_address,
                                            got_data@,
                                        ) == Err::<(), LinkErrorV>(e@));
                                        assert(spec_validate_files_from(
                                            fs,
                                            f as int,
                                            got_address,
                                            got_data@,
                                        ) == Err::<(), LinkErrorV>(e@));
                                    }
                                    return Err(e);
                                },
                            }
                        },
                    }
                    s = s + 1;
                }
                proof {
                    assert(spec_validate_sections_from(secs, secs.len() as int, got_address,
                        got_data@) == Ok::<(), LinkErrorV>(()));
                }
            },
        }
        f = f + 1;
    }
    Ok(())
}

/// Where the `.got` section of an ELF image lies and what it holds, as a
/// function of the image bytes alone; nothing when the bytes do not parse
/// as an ELF image with a `.got` section.
pub uninterp spec fn got_section_of(bytes: Seq<u8>) -> Option<(u64, Seq<u8>)>;

/// Relies on object's `ElfFile64::parse`, `Object::section_by_name`,
/// `ObjectSection::address` and `ObjectSection::data` to locate the
/// `.got` section of an emitted image. The result is a function of the
/// bytes alone.
#[verifier::external_body]
fn read_got_section(file_bytes: &Vec<u8>) -> (r: Result<(u64, Vec<u8>), LinkError>)
    ensures
        r matches Ok(g) ==> got_section_of(file_bytes@) == Some((g.0, g.1@)),
        r is Err ==> got_section_of(file_bytes@) is None,
        r matches Err(e) ==> (e == (LinkError::OutputParseFailed) || e == (
        LinkError::MissingGotSection)),
{
    let obj: object::read::elf::ElfFile64<object::LittleEndian, &[u8]> =
        match object::read::elf::ElfFile64::parse(file_bytes.as_slice()) {
            Ok(o) => o,
            Err(_) => return Err(LinkError::OutputParseFailed),
        };
    let got = match obj.section_by_name(".got") {
        Some(s) => s,
        None => return Err(LinkError::MissingGotSection),
    };
    let address = got.address();
    match got.data() {
        Ok(d) => Ok((address, d.to_vec())),
        Err(_) => Err(LinkError::OutputParseFailed),
    }
}

/// Re-parses the emitted bytes and cross-checks every GOT slot against
/// the layout. A file that does not parse, or lacks a `.got` section, is
/// itself a validation failure: the error then names the failed parse or
/// the missing section (the trusted reader folds the two causes into one
/// absence, so which of the two cannot be promised more precisely).
pub fn validate_bytes(layout: &Layout, file_bytes: &Vec<u8>) -> (r: Result<(), LinkError>)
    ensures
        match got_section_of(file_bytes@) {
            Some(g) => match r {
                Ok(u) => spec_validate_object(layout@, g.0, g.1) == Ok::<(), LinkErrorV>(()),
                Err(e) => spec_validate_object(layout@, g.0, g.1) == Err::<(), LinkErrorV>(e@),
            },
            None => (r matches Err(e) && (e == (LinkError::OutputParseFailed) || e == (
            LinkError::MissingGotSection))),
        },
{
    let (got_address, got_data) = match read_got_section(file_bytes) {
        Ok(g) => g,
        Err(e) => {
            return Err(e);
        },
    };
    validate_object(layout, got_address, &got_data)
}

/// One well-formed resolution always validates against the intended GOT
/// image.
proof fn lemma_resolution_round_trip(l: LayoutV, name: Seq<char>, res: Resolution, got: Seq<u8>)
    requires
        res_slot_ok(l, res),
        got.len() == 8 * l.got_entries.len(),
        forall|j: int|
            0 <= j < l.got_entries.len() ==> got.subrange(8 * j, 8 * j + 8) == spec_u64_to_le(
                #[trigger] l.got_entries[j],
            ),
    ensures
        spec_validate_resolution(name, res, l.got_base, got) == Ok::<(), LinkErrorV>(()),
{
    if res.kind != TargetResolutionKind::IFunc && res.kind != TargetResolutionKind::GotTlsOffset
        && res.got_address is Some {
        let ga = res.got_address->0;
        let slot = (ga - l.got_base) / 8;
        vstd::arithmetic::div_mod::lemma_fundamental_div_mod(
            ga - l.got_base,
            8,
        );
        assert(ga - l.got_base == 8 * slot);
        match spec_expected_got_value(res.value) {
            None => {},
            Some(exp) => {
                assert(got.subrange(8 * slot, 8 * slot + 8) == spec_u64_to_le(
                    l.got_entries[slot],
                ));
                assert(l.got_entries[slot] == exp);
                lemma_u64_le_round_trip(exp);
            },
        }
    }
}

/// All well-formed symbol resolutions from `k` on validate.
proof fn lemma_symbols_round_trip(l: LayoutV, k: int, got: Seq<u8>)
    requires
        0 <= k <= l.symbol_resolutions.len(),
        wf_got(l),
        got.len() == 8 * l.got_entries.len(),
        forall|j: int|
            0 <= j < l.got_entries.len() ==> got.subrange(8 * j, 8 * j + 8) == spec_u64_to_le(
                #[trigger] l.got_entries[j],
            ),
    ensures
        spec_validate_symbols_from(l.symbol_resolutions, k, l.got_base, got) == Ok::<
            (),
            LinkErrorV,
        >(()),
    decreases l.symbol_resolutions.len() - k,
{
    if k < l.symbol_resolutions.len() {
        lemma_resolution_round_trip(
            l,
            l.symbol_resolutions[k].name,
            l.symbol_resolutions[k].resolution,
            got,
        );
        lemma_symbols_round_trip(l, k + 1, got);
    }
}

/// All well-formed section resolutions of one object validate.
proof fn lemma_sections_round_trip(l: LayoutV, secs: Seq<SectionSlotV>, k: int, got: Seq<u8>)
    requires
        0 <= k <= secs.len(),
        forall|j: int|
            0 <= j < secs.len() ==> match #[trigger] secs[j].resolution {
                Some(r) => res_slot_ok(l, r),
                None => true,
            },
        got.len() == 8 * l.got_entries.len(),
        forall|j: int|
            0 <= j < l.got_entries.len() ==> got.subrange(8 * j, 8 * j + 8) == spec_u64_to_le(
                #[trigger] l.got_entries[j],
            ),
    ensures
        spec_validate_sections_from(secs, k, l.got_base, got) == Ok::<(), LinkErrorV>(()),
    decreases secs.len() - k,
{
    if k < secs.len() {
        match secs[k].resolution {
            Some(r) => {
                lemma_resolution_round_trip(l, secs[k].name, r, got);
            },
            None => {},
        }
        lemma_sections_round_trip(l, secs, k + 1, got);
    }
}

/// All well-formed file layouts from `k` on validate.
proof fn lemma_files_round_trip(l: LayoutV, k: int, got: Seq<u8>)
    requires
        0 <= k <= l.file_layouts.len(),
        wf_got(l),
        got.len() == 8 * l.got_entries.len(),
        forall|j: int|
            0 <= j < l.got_entries.len() ==> got.subrange(8 * j, 8 * j + 8) == spec_u64_to_le(
                #[trigger] l.got_entries[j],
            ),
    ensures
        spec_validate_files_from(l.file_layouts, k, l.got_base, got) == Ok::<(), LinkErrorV>(
            (),
        ),
    decreases l.file_layouts.len() - k,
{
    if k < l.file_layouts.len() {
        assert(file_slots_ok(l, l.file_layouts[k]));
        match l.file_layouts[k] {
            FileLayoutV::Object(o) => {
                lemma_sections_round_trip(l, o.sections, 0, got);
            },
            _ => {},
        }
        lemma_files_round_trip(l, k + 1, got);
    }
}

/// GOT-consistency round trip: for every layout whose GOT is well-formed —
/// which the assembler establishes by construction — validating the
/// emitted image whose `.got` holds the layout's intended slot values
/// always succeeds. Together with `validate_object`'s contract this means
/// the validator accepts every image the pipeline itself produces for a
/// non-relocatable link.
pub proof fn lemma_validator_round_trip(l: LayoutV, got: Seq<u8>)
    requires
        wf_got(l),
        got.len() == 8 * l.got_entries.len(),
        forall|j: int|
            0 <= j < l.got_entries.len() ==> got.subrange(8 * j, 8 * j + 8) == spec_u64_to_le(
                #[trigger] l.got_entries[j],
            ),
    ensures
        spec_validate_object(l, l.got_base, got) == Ok::<(), LinkErrorV>(()),
{
    if !l.is_relocatable {
        lemma_symbols_round_trip(l, 0, got);
        lemma_files_round_trip(l, 0, got);
    }
}

} // verus!
