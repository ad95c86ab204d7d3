//! Relocation application: turns a classified relocation, the target's
//! `Resolution` and the site address into the bytes to patch — or into a
//! dynamic relocation entry when the value is only known at load time.
//! A computed value that does not fit the relocation's byte width is a
//! hard error, never silently wrapped.

use vstd::prelude::*;
use crate::errors::{LinkError, LinkErrorV};
use crate::format::{RelocationKind, RelocationKindInfo, spec_classify};
use crate::layout::{Resolution, ResolutionValue, TlsMode};

verus! {

/// What applying one relocation asks of the output writer.
#[derive(Clone, Copy, Debug, PartialEq, Eq, Structural)]
pub enum ApplyOutcome {
    /// Patch `byte_size` bytes at the site with `value` (already truncated
    /// to that width).
    Patch { value: u64, byte_size: usize },
    /// Emit a dynamic relocation entry instead: the value is only known to
    /// the dynamic linker at load time.
    EmitDynamic,
    /// A documented no-op: an earlier optimisation already eliminated the
    /// need for a fixup, so applying it does nothing and never fails.
    Nothing,
}

/// 2 to the power of the width in bits of a relocation of `w` bytes
/// (widths other than 1, 2 and 4 are treated as full 64-bit words).
pub open spec fn width_bound(w: usize) -> int {
    if w == 1 {
        256
    } else if w == 2 {
        65536
    } else if w == 4 {
        4294967296
    } else {
        18446744073709551616
    }
}

/// Whether `v` fits a `w`-byte relocation field, as a signed or unsigned
/// quantity.
pub open spec fn fits_width(v: int, w: usize) -> bool {
    -width_bound(w) / 2 <= v < width_bound(w)
}

/// The two's-complement truncation of a fitting value to `w` bytes.
pub open spec fn trunc_to_width(v: int, w: usize) -> int
    recommends
        fits_width(v, w),
{
    if v < 0 {
        v + width_bound(w)
    } else {
        v
    }
}

/// The full (untruncated) value one relocation computes, per its kind's
/// fixed formula, or nothing when the value is deferred to the dynamic
/// linker. Under `LocalExec`, the general-dynamic and descriptor TLS forms
/// are rewritten to the cheaper local-exec form here (an offset from the
/// thread pointer, which sits `tls_size` bytes past the TLS block);
/// under `Preserve` they keep their dynamic form.
pub open spec fn spec_full_value(
    kind: RelocationKind,
    res: Resolution,
    addend: i64,
    site: u64,
    tls_mode: TlsMode,
    got_base: u64,
    tls_size: u64,
) -> Option<int> {
    let direct: Option<int> = match res.value {
        ResolutionValue::Absolute(v) => Some(v as int),
        ResolutionValue::Address(v) => Some(v as int),
        ResolutionValue::Dynamic(_) => None,
    };
    let ga = res.got_address->0;
    match kind {
        RelocationKind::NoOp => None,
        RelocationKind::Absolute => match direct {
            Some(v) => Some(v + addend),
            None => None,
        },
        RelocationKind::Relative => match direct {
            Some(v) => Some(v + addend - site),
            None => None,
        },
        RelocationKind::PltRelative => match direct {
            Some(v) => Some(v + addend - site),
            None => None,
        },
        RelocationKind::Got => Some(ga - got_base + addend),
        RelocationKind::GotRelative => Some(ga + addend - site),
        RelocationKind::GotTpOff => if tls_mode == TlsMode::LocalExec {
            match direct {
                Some(v) => Some(v - tls_size + addend),
                None => None,
            }
        } else {
            Some(ga + addend - site)
        },
        RelocationKind::TlsGd | RelocationKind::TlsLd => if tls_mode == TlsMode::LocalExec {
            match direct {
                Some(v) => Some(v - tls_size + addend),
                None => None,
            }
        } else {
            None
        },
        RelocationKind::DtpOff => match direct {
            Some(v) => Some(v + addend),
            None => None,
        },
        RelocationKind::TpOff => match direct {
            Some(v) => Some(v - tls_size + addend),
            None => None,
        },
    }
}

/// What applying one relocation yields: a no-op for the eliminated kind, a
/// dynamic relocation entry where no value is known at link time, the
/// truncated patch value where it fits its width, and an error naming the
/// value and width where it does not.
pub open spec fn spec_apply(
    info: RelocationKindInfo,
    res: Resolution,
    addend: i64,
    site: u64,
    tls_mode: TlsMode,
    got_base: u64,
    tls_size: u64,
) -> Result<ApplyOutcome, LinkErrorV> {
    if info.kind == RelocationKind::NoOp {
        Ok(ApplyOutcome::Nothing)
    } else {
        match spec_full_value(info.kind, res, addend, site, tls_mode, got_base, tls_size) {
            None => Ok(ApplyOutcome::EmitDynamic),
            Some(fv) => if fits_width(fv, info.byte_size) {
                Ok(
                    ApplyOutcome::Patch {
                        value: trunc_to_width(fv, info.byte_size) as u64,
                        byte_size: info.byte_size,
                    },
                )
            } else {
                Err(LinkErrorV::RelocationOutOfRange { value: fv as i128, byte_size: info.byte_size })
            },
        }
    }
}

/// Applies one classified relocation against its target's resolution.
/// GOT-indirect kinds read the address of the GOT slot the layout already
/// assigned, so the caller must hand in a resolution that has one.
pub fn apply(
    info: RelocationKindInfo,
    res: &Resolution,
    addend: i64,
    site: u64,
    tls_mode: TlsMode,
    got_base: u64,
    tls_size: u64,
) -> (r: Result<ApplyOutcome, LinkError>)
    requires
        info.kind == RelocationKind::NoOp || info.byte_size == 1 || info.byte_size == 2
            || info.byte_size == 4 || info.byte_size == 8,
        (info.kind == RelocationKind::Got || info.kind == RelocationKind::GotRelative || (
        info.kind == RelocationKind::GotTpOff && tls_mode == TlsMode::Preserve))
            ==> res.got_address is Some,
    ensures
        match r {
            Ok(o) => spec_apply(info, *res, addend, site, tls_mode, got_base, tls_size)
                == Ok::<ApplyOutcome, LinkErrorV>(o),
            Err(e) => spec_apply(info, *res, addend, site, tls_mode, got_base, tls_size)
                == Err::<ApplyOutcome, LinkErrorV>(e@),
        },
{
    if matches!(info.kind, RelocationKind::NoOp) {
        return Ok(ApplyOutcome::Nothing);
    }
    let direct: Option<i128> = match res.value {
        ResolutionValue::Absolute(v) => Some(v as i128),
        ResolutionValue::Address(v) => Some(v as i128),
        ResolutionValue::Dynamic(_) => None,
    };
    let ga: i128 = match res.got_address {
        Some(g) => g as i128,
        None => 0,
    };
    let full: Option<i128> = match info.kind {
        RelocationKind::NoOp => None,
        RelocationKind::Absolute => match direct {
            Some(v) => Some(v + addend as i128),
            None => None,
        },
        RelocationKind::Relative => match direct {
            Some(v) => Some(v + addend as i128 - site as i128),
            None => None,
        },
        RelocationKind::PltRelative => match direct {
            Some(v) => Some(v + addend as i128 - site as i128),
            None => None,
        },
        RelocationKind::Got => Some(ga - got_base as i128 + addend as i128),
        RelocationKind::GotRelative => Some(ga + addend as i128 - site as i128),
        RelocationKind::GotTpOff => if matches!(tls_mode, TlsMode::LocalExec) {
            match direct {
                Some(v) => Some(v - tls_size as i128 + addend as i128),
                None => None,
            }
        } else {
            Some(ga + addend as i128 - site as i128)
        },
        RelocationKind::TlsGd | RelocationKind::TlsLd => if matches!(
            tls_mode,
            TlsMode::LocalExec,
        ) {
            match direct {
                Some(v) => Some(v - tls_size as i128 + addend as i128),
                None => None,
            }
        } else {
            None
        },
        RelocationKind::DtpOff => match direct {
            Some(v) => Some(v + addend as i128),
            None => None,
        },
        RelocationKind::TpOff => match direct {
            Some(v) => Some(v - tls_size as i128 + addend as i128),
            None => None,
        },
    };
    match full {
        None => Ok(ApplyOutcome::EmitDynamic),
        Some(fv) => {
            let bound: i128 = if info.byte_size == 1 {
                256
            } else if info.byte_size == 2 {
                65536
            } else if info.byte_size == 4 {
                4294967296
            } else {
                18446744073709551616
            };
            if fv < -(bound / 2) || fv >= bound {
                return Err(
                    LinkError::RelocationOutOfRange { value: fv, byte_size: info.byte_size },
                );
            }
            let value: u64 = if fv < 0 {
                (fv + bound) as u64
            } else {
                fv as u64
            };
            Ok(ApplyOutcome::Patch { value, byte_size: info.byte_size })
        },
    }
}

/// Relocation classification totality: every code in the supported table
/// classifies to a kind and width whose application either defers to the
/// dynamic linker, or produces a value truncated to exactly that width
/// with no bit lost — an out-of-range value is a hard error, never a
/// silent wrap. Codes outside the table never classify, so classification
/// fails deterministically for them.
pub proof fn lemma_relocation_classification_totality(
    r_type: u32,
    res: Resolution,
    addend: i64,
    site: u64,
    tls_mode: TlsMode,
    got_base: u64,
    tls_size: u64,
)
    ensures
        spec_classify(r_type) matches Some(info) ==> match spec_apply(
            info,
            res,
            addend,
            site,
            tls_mode,
            got_base,
            tls_size,
        ) {
            Ok(ApplyOutcome::Patch { value, byte_size }) => {
                &&& byte_size == info.byte_size
                &&& 0 <= value < width_bound(info.byte_size)
                &&& (spec_full_value(info.kind, res, addend, site, tls_mode, got_base, tls_size)
                    matches Some(fv) && fits_width(fv, info.byte_size) && value == trunc_to_width(
                    fv,
                    info.byte_size,
                ))
            },
            Ok(_) => true,
            Err(e) => (spec_full_value(
                info.kind,
                res,
                addend,
                site,
                tls_mode,
                got_base,
                tls_size,
            ) matches Some(fv) && !fits_width(fv, info.byte_size) && e
                == (LinkErrorV::RelocationOutOfRange { value: fv as i128, byte_size: info.byte_size })),
        },
        spec_classify(r_type) matches Some(info) ==> (info.kind == RelocationKind::NoOp
            ==> spec_apply(info, res, addend, site, tls_mode, got_base, tls_size) == Ok::<
            ApplyOutcome,
            LinkErrorV,
        >(ApplyOutcome::Nothing)),
{
    crate::format::lemma_classify_widths(r_type);
}

} // verus!
