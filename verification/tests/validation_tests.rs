use wildlink::errors::LinkError;
use wildlink::layout::{Layout, Resolution, ResolutionValue, TargetResolutionKind, TlsMode};
use wildlink::validation::{validate_bytes, validate_resolution};

fn res_with_got(got_address: u64, value: ResolutionValue) -> Resolution {
    Resolution { kind: TargetResolutionKind::Normal, got_address: Some(got_address), value }
}

#[test]
fn resolution_without_slot_or_with_skipped_kind_passes() {
    let got: Vec<u8> = vec![0; 8];
    let r = Resolution {
        kind: TargetResolutionKind::Normal,
        got_address: None,
        value: ResolutionValue::Address(5),
    };
    assert!(validate_resolution(&"x".to_string(), &r, 0x100, &got).is_ok());
    let r = Resolution {
        kind: TargetResolutionKind::IFunc,
        got_address: Some(0x100),
        value: ResolutionValue::Address(5),
    };
    assert!(validate_resolution(&"x".to_string(), &r, 0x100, &got).is_ok());
    let r = Resolution {
        kind: TargetResolutionKind::GotTlsOffset,
        got_address: Some(0x100),
        value: ResolutionValue::Address(5),
    };
    assert!(validate_resolution(&"x".to_string(), &r, 0x100, &got).is_ok());
}

#[test]
fn slot_beyond_the_got_end_is_reported() {
    let got: Vec<u8> = vec![0; 8];
    let r = res_with_got(0x108, ResolutionValue::Address(5));
    match validate_resolution(&"x".to_string(), &r, 0x100, &got) {
        Err(LinkError::GotOffsetOutOfBounds { end_offset }) => assert_eq!(end_offset, 16),
        other => panic!("expected an out-of-bounds error, got {:?}", other),
    }
}

#[test]
fn matching_slot_value_passes_and_mismatch_names_the_symbol() {
    // 0x401000 little-endian in the one slot.
    let got: Vec<u8> = vec![0, 0x10, 0x40, 0, 0, 0, 0, 0];
    let r = res_with_got(0x403000, ResolutionValue::Address(0x401000));
    assert!(validate_resolution(&"foo".to_string(), &r, 0x403000, &got).is_ok());

    let r = res_with_got(0x403000, ResolutionValue::Address(0x401008));
    match validate_resolution(&"foo".to_string(), &r, 0x403000, &got) {
        Err(LinkError::GotValueMismatch { name, expected, got_address, found }) => {
            assert_eq!(name, "foo");
            assert_eq!(expected, 0x401008);
            assert_eq!(got_address, 0x403000);
            assert_eq!(found, 0x401000);
        }
        other => panic!("expected a GOT mismatch, got {:?}", other),
    }

    // Dynamic values carry no link-time expectation.
    let r = res_with_got(0x403000, ResolutionValue::Dynamic(2));
    assert!(validate_resolution(&"foo".to_string(), &r, 0x403000, &got).is_ok());
}

/// A minimal 64-bit little-endian ELF executable image holding one named
/// section at virtual address `got_addr` with the given contents, enough
/// for the output re-parser to find and read it.
fn minimal_elf_with_section(name: &str, got_addr: u64, got_data: &[u8]) -> Vec<u8> {
    let mut strtab: Vec<u8> = vec![0];
    strtab.extend_from_slice(name.as_bytes());
    strtab.extend_from_slice(b"\0.shstrtab\0");
    let shstrtab: &[u8] = &strtab;
    let shstrtab_name_off = (2 + name.len()) as u32;
    let got_off = 64u64;
    let str_off = got_off + got_data.len() as u64;
    let mut sh_off = str_off + shstrtab.len() as u64;
    sh_off += (8 - sh_off % 8) % 8;

    let mut out: Vec<u8> = Vec::new();
    // ELF header.
    out.extend_from_slice(&[0x7f, b'E', b'L', b'F', 2, 1, 1, 0, 0, 0, 0, 0, 0, 0, 0, 0]);
    out.extend_from_slice(&2u16.to_le_bytes()); // e_type: executable
    out.extend_from_slice(&62u16.to_le_bytes()); // e_machine: x86-64
    out.extend_from_slice(&1u32.to_le_bytes()); // e_version
    out.extend_from_slice(&0u64.to_le_bytes()); // e_entry
    out.extend_from_slice(&0u64.to_le_bytes()); // e_phoff
    out.extend_from_slice(&sh_off.to_le_bytes()); // e_shoff
    out.extend_from_slice(&0u32.to_le_bytes()); // e_flags
    out.extend_from_slice(&64u16.to_le_bytes()); // e_ehsize
    out.extend_from_slice(&0u16.to_le_bytes()); // e_phentsize
    out.extend_from_slice(&0u16.to_le_bytes()); // e_phnum
    out.extend_from_slice(&64u16.to_le_bytes()); // e_shentsize
    out.extend_from_slice(&3u16.to_le_bytes()); // e_shnum
    out.extend_from_slice(&2u16.to_le_bytes()); // e_shstrndx
    assert_eq!(out.len(), 64);
    // Section contents.
    out.extend_from_slice(got_data);
    out.extend_from_slice(shstrtab);
    while out.len() as u64 % 8 != 0 {
        out.push(0);
    }
    assert_eq!(out.len() as u64, sh_off);
    // Section header 0: null.
    out.extend_from_slice(&[0u8; 64]);
    // Section header 1: the named section (PROGBITS, WRITE|ALLOC).
    out.extend_from_slice(&1u32.to_le_bytes()); // sh_name: the named section
    out.extend_from_slice(&1u32.to_le_bytes()); // sh_type: PROGBITS
    out.extend_from_slice(&3u64.to_le_bytes()); // sh_flags
    out.extend_from_slice(&got_addr.to_le_bytes()); // sh_addr
    out.extend_from_slice(&got_off.to_le_bytes()); // sh_offset
    out.extend_from_slice(&(got_data.len() as u64).to_le_bytes()); // sh_size
    out.extend_from_slice(&0u32.to_le_bytes()); // sh_link
    out.extend_from_slice(&0u32.to_le_bytes()); // sh_info
    out.extend_from_slice(&8u64.to_le_bytes()); // sh_addralign
    out.extend_from_slice(&0u64.to_le_bytes()); // sh_entsize
    // Section header 2: .shstrtab (STRTAB).
    out.extend_from_slice(&shstrtab_name_off.to_le_bytes()); // sh_name: ".shstrtab"
    out.extend_from_slice(&3u32.to_le_bytes()); // sh_type: STRTAB
    out.extend_from_slice(&0u64.to_le_bytes());
    out.extend_from_slice(&0u64.to_le_bytes());
    out.extend_from_slice(&str_off.to_le_bytes());
    out.extend_from_slice(&(shstrtab.len() as u64).to_le_bytes());
    out.extend_from_slice(&0u32.to_le_bytes());
    out.extend_from_slice(&0u32.to_le_bytes());
    out.extend_from_slice(&1u64.to_le_bytes());
    out.extend_from_slice(&0u64.to_le_bytes());
    out
}

/// The same image with the section named `.got`.
fn minimal_elf_with_got(got_addr: u64, got_data: &[u8]) -> Vec<u8> {
    minimal_elf_with_section(".got", got_addr, got_data)
}

fn layout_expecting(got_base: u64, expected: u64) -> Layout {
    Layout {
        base_address: 0x400000,
        is_relocatable: false,
        tls_mode: TlsMode::LocalExec,
        got_base,
        got_entries: vec![expected],
        symbol_resolutions: vec![wildlink::layout::SymbolResolution {
            name: "foo".to_string(),
            symbol_id: 0,
            resolution: res_with_got(got_base, ResolutionValue::Address(expected)),
        }],
        file_layouts: vec![],
    }
}

#[test]
fn emitted_bytes_round_trip_through_the_validator() {
    // The image's .got holds exactly what the layout intended: the
    // re-parse finds the section at its address and validation passes.
    // The same call flags a corrupted slot, so the section lookup really
    // reads the emitted bytes.
    let got_base = 0x403000u64;
    let expected = 0x401000u64;
    let image = minimal_elf_with_got(got_base, &expected.to_le_bytes());
    let layout = layout_expecting(got_base, expected);
    assert!(validate_bytes(&layout, &image).is_ok());

    let bad = minimal_elf_with_got(got_base, &0x999888u64.to_le_bytes());
    match validate_bytes(&layout, &bad) {
        Err(LinkError::GotValueMismatch { name, expected: e, found, .. }) => {
            assert_eq!(name, "foo");
            assert_eq!(e, expected);
            assert_eq!(found, 0x999888);
        }
        other => panic!("expected a GOT mismatch, got {:?}", other),
    }
}

#[test]
fn unparseable_output_fails_validation() {
    let layout = layout_expecting(0x403000, 0x401000);
    let garbage: Vec<u8> = vec![1, 2, 3, 4];
    assert!(matches!(
        validate_bytes(&layout, &garbage),
        Err(LinkError::OutputParseFailed)
    ));
}

#[test]
fn output_without_a_got_section_fails_validation() {
    // A well-formed image whose only section is not `.got`: validation
    // of a non-relocatable layout reports the missing section.
    let layout = layout_expecting(0x403000, 0x401000);
    let image = minimal_elf_with_section(".data", 0x403000, &0x401000u64.to_le_bytes());
    assert!(matches!(
        validate_bytes(&layout, &image),
        Err(LinkError::MissingGotSection)
    ));
}

#[test]
fn text_parsing_helpers() {
    assert_eq!(wildlink::text::parse_u64("123"), Some(123));
    assert_eq!(wildlink::text::parse_u64("0"), Some(0));
    assert_eq!(wildlink::text::parse_u64(""), None);
    assert_eq!(wildlink::text::parse_u64("12a"), None);
    assert_eq!(wildlink::text::parse_u64("18446744073709551615"), Some(u64::MAX));
    assert_eq!(wildlink::text::parse_u64("18446744073709551616"), None);
    assert_eq!(wildlink::text::parse_u64("+42"), Some(42));
    assert_eq!(wildlink::text::parse_u64("+"), None);
    assert_eq!(wildlink::text::parse_u64("++1"), None);
    assert_eq!(wildlink::text::parse_i64("-42"), Some(-42));
    assert_eq!(wildlink::text::parse_i64("42"), Some(42));
    assert_eq!(wildlink::text::parse_i64("+42"), Some(42));
    assert_eq!(wildlink::text::parse_i64("-"), None);
    assert_eq!(wildlink::text::parse_i64("-+5"), None);
    assert_eq!(
        wildlink::text::parse_i64("9223372036854775807"),
        Some(i64::MAX)
    );
    assert_eq!(wildlink::text::parse_i64("9223372036854775808"), None);
    assert_eq!(
        wildlink::text::parse_i64("-9223372036854775808"),
        Some(i64::MIN)
    );
    assert_eq!(wildlink::text::parse_i64("-9223372036854775809"), None);
    assert_eq!(wildlink::text::str_eq("abc", "abc"), true);
    assert_eq!(wildlink::text::str_eq("abc", "abd"), false);
    assert_eq!(wildlink::text::str_strip_prefix("-Lfoo", "-L"), Some("foo"));
    assert_eq!(wildlink::text::str_strip_prefix("-Lfoo", "-o"), None);
}

#[test]
fn byte_helpers_round_trip() {
    let mut out: Vec<u8> = Vec::new();
    wildlink::bytes::write_u64_le(&mut out, 0x0807060504030201);
    assert_eq!(out, vec![1, 2, 3, 4, 5, 6, 7, 8]);
    assert_eq!(wildlink::bytes::read_u64_le(&out, 0), 0x0807060504030201);
}
