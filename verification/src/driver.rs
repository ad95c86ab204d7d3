//! The sequential core of one link, over already-parsed inputs: merge the
//! per-file symbol registrations in link-command order, build the
//! database, refuse unresolved references, and assemble every pending
//! symbol into a finished layout whose GOT is well-formed — the premise
//! under which the validator provably accepts the emitted image.

use vstd::prelude::*;
use crate::args::{Args, OutputKind};
use crate::errors::{LinkError, LinkErrorV};
use crate::layout::{FileLayout, FileLayoutV, Layout, PendingSymbol, PendingSymbolV,
    SymbolResolutionV, TlsMode, assemble_symbols, file_slots_ok, lemma_assembled_layout_wf,
    spec_assemble_from, wf_got};
use crate::symbol_db::{SymbolDatabase, SymbolDef, SymbolDefV, SymbolRef, check_references,
    concat_all, merge_registrations, spec_build};

verus! {

/// No section of any file layout claims a GOT slot of its own: in this
/// core, GOT slots flow through the pending-symbol list alone.
pub open spec fn sections_carry_no_slots(fs: Seq<FileLayoutV>) -> bool {
    forall|i: int|
        0 <= i < fs.len() ==> match #[trigger] fs[i] {
            FileLayoutV::Object(o) => forall|j: int|
                0 <= j < o.sections.len() ==> match #[trigger] o.sections[j].resolution {
                    Some(r) => r.got_address is None,
                    None => true,
                },
            _ => true,
        }
}

/// Runs the sequential core of a link. On success the returned database
/// is exactly the strength-and-order fold over the merged registrations,
/// every reference resolves, the layout carries the configuration's base
/// address, relocatability and TLS mode, and its GOT is well-formed, so
/// the validator round trip holds of whatever image is written from it.
/// On failure the error is the first undefined reference, or the slot
/// assembler's address-space overflow.
pub fn link_core(
    args: &Args,
    per_file_defs: &Vec<Vec<SymbolDef>>,
    refs: &Vec<SymbolRef>,
    pending: &Vec<PendingSymbol>,
    got_base: u64,
    file_layouts: Vec<FileLayout>,
) -> (r: Result<(SymbolDatabase, Layout), LinkError>)
    requires
        sections_carry_no_slots(file_layouts@.map_values(|f: FileLayout| f@)),
    ensures
        match r {
            Ok(p) => {
                &&& p.0@ == spec_build(
                    concat_all(
                        per_file_defs@.map_values(
                            |v: Vec<SymbolDef>| v@.map_values(|d: SymbolDef| d@),
                        ),
                    ),
                )
                &&& p.0.wf()
                &&& (forall|i: int|
                    0 <= i < refs@.len() ==> p.0@.contains_key(#[trigger] refs@[i]@.name))
                &&& p.1@.base_address == args.spec_base_address()
                &&& p.1@.is_relocatable == (args.pie || args.output_kind
                    != OutputKind::StaticExecutable)
                &&& p.1@.tls_mode == (if args.output_kind == OutputKind::StaticExecutable {
                    TlsMode::LocalExec
                } else {
                    TlsMode::Preserve
                })
                &&& p.1@.got_base == got_base
                &&& spec_assemble_from(
                    pending@.map_values(|q: PendingSymbol| q@),
                    0,
                    Seq::empty(),
                    Seq::empty(),
                    got_base,
                ) == Ok::<(Seq<SymbolResolutionV>, Seq<u64>), LinkErrorV>((
                    p.1@.symbol_resolutions,
                    p.1@.got_entries,
                ))
                &&& p.1@.file_layouts == file_layouts@.map_values(|f: FileLayout| f@)
                &&& wf_got(p.1@)
            },
            Err(e) => {
                ||| exists|i: int|
                    {
                        &&& 0 <= i < refs@.len()
                        &&& !spec_build(
                            concat_all(
                                per_file_defs@.map_values(
                                    |v: Vec<SymbolDef>| v@.map_values(|d: SymbolDef| d@),
                                ),
                            ),
                        ).contains_key(refs@[i]@.name)
                        &&& (forall|j: int|
                            0 <= j < i ==> spec_build(
                                concat_all(
                                    per_file_defs@.map_values(
                                        |v: Vec<SymbolDef>| v@.map_values(|d: SymbolDef| d@),
                                    ),
                                ),
                            ).contains_key(#[trigger] refs@[j]@.name))
                        &&& e@ matches LinkErrorV::UndefinedSymbol { name, .. } && name == refs@[
                            i
                        ]@.name
                    }
                ||| spec_assemble_from(
                    pending@.map_values(|q: PendingSymbol| q@),
                    0,
                    Seq::empty(),
                    Seq::empty(),
                    got_base,
                ) == Err::<(Seq<SymbolResolutionV>, Seq<u64>), LinkErrorV>(e@)
            },
        },
{
    let defs = merge_registrations(per_file_defs);
    let db = SymbolDatabase::build(&defs);
    match check_references(&db, refs) {
        Ok(u) => {},
        Err(e) => {
            return Err(e);
        },
    }
    let (resolutions, entries) = match assemble_symbols(got_base, pending) {
        Ok(out) => out,
        Err(e) => {
            return Err(e);
        },
    };
    let layout = Layout {
        base_address: args.base_address(),
        is_relocatable: args.is_relocatable(),
        tls_mode: args.tls_mode(),
        got_base,
        got_entries: entries,
        symbol_resolutions: resolutions,
        file_layouts,
    };
    proof {
        assert forall|i: int| 0 <= i < layout@.file_layouts.len() implies file_slots_ok(
            layout@,
            #[trigger] layout@.file_layouts[i],
        ) by {
            assert(sections_carry_no_slots(layout@.file_layouts));
        }
        lemma_assembled_layout_wf(layout@, pending@.map_values(|q: PendingSymbol| q@));
    }
    Ok((db, layout))
}

} // verus!
