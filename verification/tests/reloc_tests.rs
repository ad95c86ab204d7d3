use wildlink::errors::LinkError;
use wildlink::format::RelocationKindInfo;
use wildlink::layout::{Resolution, ResolutionValue, TargetResolutionKind, TlsMode};
use wildlink::reloc::{ApplyOutcome, apply};

fn normal(value: ResolutionValue) -> Resolution {
    Resolution { kind: TargetResolutionKind::Normal, got_address: None, value }
}

#[test]
fn strong_definition_wins_and_relocation_patches_to_it() {
    // a.o defines strong `foo`, b.o defines weak `foo` and references it:
    // the reference is patched with a.o's address.
    let defs = vec![
        wildlink::symbol_db::SymbolDef {
            name: "foo".to_string(),
            file_id: 0,
            strength: wildlink::symbol_db::SymbolStrength::Strong,
        },
        wildlink::symbol_db::SymbolDef {
            name: "foo".to_string(),
            file_id: 1,
            strength: wildlink::symbol_db::SymbolStrength::Weak,
        },
    ];
    let db = wildlink::symbol_db::SymbolDatabase::build(&defs);
    let winner = db.resolve(&"foo".to_string()).unwrap();
    assert_eq!(winner, 0);
    assert_eq!(db.entries[0].file_id, 0);

    // a.o placed `foo` at 0x401000; the PC32 reference sits in b.o at
    // 0x402000 with addend -4.
    let foo_address = 0x401000u64;
    let info = RelocationKindInfo::from_raw(2).unwrap();
    let outcome = apply(
        info,
        &normal(ResolutionValue::Address(foo_address)),
        -4,
        0x402000,
        TlsMode::LocalExec,
        0,
        0,
    )
    .unwrap();
    // 0x401000 - 4 - 0x402000 = -0x1004, truncated to 4 bytes.
    assert_eq!(outcome, ApplyOutcome::Patch { value: 0xFFFF_EFFC, byte_size: 4 });
}

#[test]
fn absolute_relocation_patches_value_plus_addend() {
    let info = RelocationKindInfo::from_raw(1).unwrap();
    let outcome = apply(
        info,
        &normal(ResolutionValue::Absolute(0x1234)),
        0x10,
        0,
        TlsMode::LocalExec,
        0,
        0,
    )
    .unwrap();
    assert_eq!(outcome, ApplyOutcome::Patch { value: 0x1244, byte_size: 8 });
}

#[test]
fn out_of_range_relocation_is_a_hard_error() {
    // A 4-byte absolute relocation whose true value needs more than 32
    // bits is reported, never silently wrapped.
    let info = RelocationKindInfo::from_raw(10).unwrap();
    match apply(
        info,
        &normal(ResolutionValue::Address(0x1_0000_0000)),
        0,
        0,
        TlsMode::LocalExec,
        0,
        0,
    ) {
        Err(LinkError::RelocationOutOfRange { value, byte_size }) => {
            assert_eq!(value, 0x1_0000_0000);
            assert_eq!(byte_size, 4);
        }
        other => panic!("expected an out-of-range error, got {:?}", other),
    }
    // One-byte width: 127 fits, 128 fits unsigned, -129 does not fit.
    let info = RelocationKindInfo::from_raw(14).unwrap();
    assert!(apply(info, &normal(ResolutionValue::Absolute(255)), 0, 0, TlsMode::LocalExec, 0, 0)
        .is_ok());
    assert!(apply(info, &normal(ResolutionValue::Absolute(256)), 0, 0, TlsMode::LocalExec, 0, 0)
        .is_err());
    assert_eq!(
        apply(info, &normal(ResolutionValue::Absolute(0)), -128, 0, TlsMode::LocalExec, 0, 0)
            .unwrap(),
        ApplyOutcome::Patch { value: 0x80, byte_size: 1 }
    );
    assert!(apply(info, &normal(ResolutionValue::Absolute(0)), -129, 0, TlsMode::LocalExec, 0, 0)
        .is_err());
}

#[test]
fn none_relocation_is_a_guaranteed_no_op() {
    let info = RelocationKindInfo::from_raw(0).unwrap();
    let outcome = apply(
        info,
        &normal(ResolutionValue::Dynamic(9)),
        12345,
        0xdeadbeef,
        TlsMode::Preserve,
        0,
        0,
    )
    .unwrap();
    assert_eq!(outcome, ApplyOutcome::Nothing);
}

#[test]
fn got_relative_reads_the_assigned_slot() {
    let res = Resolution {
        kind: TargetResolutionKind::Normal,
        got_address: Some(0x403010),
        value: ResolutionValue::Address(0x401000),
    };
    let info = RelocationKindInfo::from_raw(9).unwrap();
    let outcome = apply(info, &res, -4, 0x402000, TlsMode::Preserve, 0x403000, 0).unwrap();
    // 0x403010 - 4 - 0x402000 = 0x100c.
    assert_eq!(outcome, ApplyOutcome::Patch { value: 0x100c, byte_size: 4 });

    // GOT32: the slot's offset within the GOT.
    let info = RelocationKindInfo::from_raw(3).unwrap();
    let outcome = apply(info, &res, 0, 0, TlsMode::Preserve, 0x403000, 0).unwrap();
    assert_eq!(outcome, ApplyOutcome::Patch { value: 0x10, byte_size: 4 });
}

#[test]
fn tls_relocations_follow_the_tls_mode() {
    // Under LocalExec the general-dynamic form is rewritten to a
    // thread-pointer offset; under Preserve it defers to the dynamic
    // linker.
    let res = normal(ResolutionValue::Address(0x10));
    let info = RelocationKindInfo::from_raw(19).unwrap();
    let relaxed = apply(info, &res, 0, 0, TlsMode::LocalExec, 0, 0x100).unwrap();
    // 0x10 - 0x100 = -0xf0, truncated to 4 bytes.
    assert_eq!(relaxed, ApplyOutcome::Patch { value: 0xFFFF_FF10, byte_size: 4 });
    let preserved = apply(info, &res, 0, 0, TlsMode::Preserve, 0, 0x100).unwrap();
    assert_eq!(preserved, ApplyOutcome::EmitDynamic);
}

#[test]
fn dynamic_targets_defer_to_the_dynamic_linker() {
    let info = RelocationKindInfo::from_raw(1).unwrap();
    let outcome = apply(
        info,
        &normal(ResolutionValue::Dynamic(5)),
        0,
        0,
        TlsMode::Preserve,
        0,
        0,
    )
    .unwrap();
    assert_eq!(outcome, ApplyOutcome::EmitDynamic);
}
