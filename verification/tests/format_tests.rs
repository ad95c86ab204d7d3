use wildlink::errors::LinkError;
use wildlink::format::{
    Binding, DynamicTag, FileType, RelocationKind, RelocationKindInfo, SegmentType, Sht,
    plt_entry_template, GOT_ENTRY_SIZE, PLT_ENTRY_SIZE, RELA_ENTRY_SIZE,
};

#[test]
fn unsupported_relocation_type_fails() {
    // A code outside the supported table aborts classification, naming
    // the code.
    match RelocationKindInfo::from_raw(99999) {
        Err(LinkError::UnsupportedRelocationType { code }) => assert_eq!(code, 99999),
        other => panic!("expected an unsupported relocation type error, got {:?}", other),
    }
}

#[test]
fn classify_supported_table() {
    let cases: &[(u32, RelocationKind, usize)] = &[
        (1, RelocationKind::Absolute, 8),
        (2, RelocationKind::Relative, 4),
        (3, RelocationKind::Got, 4),
        (4, RelocationKind::PltRelative, 4),
        (9, RelocationKind::GotRelative, 4),
        (10, RelocationKind::Absolute, 4),
        (11, RelocationKind::Absolute, 4),
        (12, RelocationKind::Absolute, 2),
        (13, RelocationKind::Relative, 2),
        (14, RelocationKind::Absolute, 1),
        (15, RelocationKind::Relative, 1),
        (19, RelocationKind::TlsGd, 4),
        (20, RelocationKind::TlsLd, 4),
        (21, RelocationKind::DtpOff, 4),
        (22, RelocationKind::GotTpOff, 4),
        (23, RelocationKind::TpOff, 4),
        (41, RelocationKind::GotRelative, 4),
        (42, RelocationKind::GotRelative, 4),
        (0, RelocationKind::NoOp, 0),
    ];
    for (code, kind, size) in cases {
        let info = RelocationKindInfo::from_raw(*code).unwrap();
        assert_eq!(info.kind, *kind, "kind for code {}", code);
        assert_eq!(info.byte_size, *size, "width for code {}", code);
    }
    // Codes adjacent to the table but outside it fail.
    for code in [5u32, 6, 7, 8, 16, 17, 18, 24, 37, 40, 43] {
        assert!(RelocationKindInfo::from_raw(code).is_err(), "code {}", code);
    }
}

#[test]
fn classification_is_deterministic() {
    for code in 0..64u32 {
        assert_eq!(
            RelocationKindInfo::from_raw(code),
            RelocationKindInfo::from_raw(code)
        );
    }
}

#[test]
fn plt_template_bytes() {
    let t = plt_entry_template();
    assert_eq!(t.len() as u64, PLT_ENTRY_SIZE);
    assert_eq!(
        t,
        vec![
            0xf3, 0x0f, 0x1e, 0xfa, 0xf2, 0xff, 0x25, 0x0, 0x0, 0x0, 0x0, 0x0f, 0x1f, 0x44,
            0x0, 0x0
        ]
    );
}

#[test]
fn format_constants() {
    assert_eq!(GOT_ENTRY_SIZE, 8);
    assert_eq!(RELA_ENTRY_SIZE, 0x18);
    assert_eq!(Sht::Progbits.code(), 1);
    assert_eq!(Sht::Nobits.code(), 8);
    assert_eq!(SegmentType::Load.code(), 1);
    assert_eq!(SegmentType::EhFrame.code(), 0x6474e550);
    assert_eq!(DynamicTag::Needed.code(), 1);
    assert_eq!(DynamicTag::GnuHash.code(), 0x6ffffef5);
    assert_eq!(DynamicTag::Flags1.code(), 0x6ffffffb);
    assert_eq!(Binding::Weak.code(), 2);
    assert_eq!(FileType::SharedObject.code(), 3);
}
