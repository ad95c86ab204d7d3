use wildlink::args::Args;
use wildlink::driver::link_core;
use wildlink::errors::LinkError;
use wildlink::layout::{
    FileLayout, ObjectLayout, PendingSymbol, ResolutionValue, SectionSlot, TargetResolutionKind,
    TlsMode, got_image,
};
use wildlink::symbol_db::{SymbolDef, SymbolRef, SymbolStrength};
use wildlink::validation::validate_object;

fn to_argv(args: &[&str]) -> Vec<String> {
    args.iter().map(|a| a.to_string()).collect()
}

fn strong(name: &str, file_id: usize) -> SymbolDef {
    SymbolDef { name: name.to_string(), file_id, strength: SymbolStrength::Strong }
}

fn weak(name: &str, file_id: usize) -> SymbolDef {
    SymbolDef { name: name.to_string(), file_id, strength: SymbolStrength::Weak }
}

#[test]
fn whole_core_produces_a_layout_the_validator_accepts() {
    // Two object files, a strong and a weak `foo`, one GOT-using symbol:
    // the core resolves, assembles and yields a layout whose intended GOT
    // image validates.
    let argv = to_argv(&["ld", "-o", "out"]);
    let args = Args::parse(&argv, 2).unwrap();
    let per_file = vec![vec![strong("foo", 0)], vec![weak("foo", 1), strong("bar", 1)]];
    let refs = vec![
        SymbolRef { name: "foo".to_string(), file_id: 1 },
        SymbolRef { name: "bar".to_string(), file_id: 0 },
    ];
    let pending = vec![
        PendingSymbol {
            name: "foo".to_string(),
            symbol_id: 0,
            kind: TargetResolutionKind::Normal,
            needs_got: true,
            value: ResolutionValue::Address(0x401000),
        },
        PendingSymbol {
            name: "bar".to_string(),
            symbol_id: 2,
            kind: TargetResolutionKind::Normal,
            needs_got: false,
            value: ResolutionValue::Address(0x401080),
        },
    ];
    let files = vec![
        FileLayout::Internal(0),
        FileLayout::Object(ObjectLayout {
            file_id: 1,
            sections: vec![SectionSlot { name: ".text".to_string(), resolution: None }],
        }),
        FileLayout::Epilogue(2),
    ];
    let (db, layout) = link_core(&args, &per_file, &refs, &pending, 0x403000, files).unwrap();
    // The strong definition from the first file wins; its registration
    // index is 0.
    assert_eq!(db.resolve(&"foo".to_string()).unwrap(), 0);
    assert_eq!(layout.base_address, 0x400_000);
    assert!(!layout.is_relocatable);
    assert_eq!(layout.tls_mode, TlsMode::LocalExec);
    assert_eq!(layout.symbol_resolutions[0].resolution.got_address, Some(0x403000));
    // The validator agrees with the image written from this layout.
    let image = got_image(&layout.got_entries);
    assert!(validate_object(&layout, layout.got_base, &image).is_ok());
}

#[test]
fn whole_core_rejects_undefined_references() {
    let argv = to_argv(&["ld", "-o", "out"]);
    let args = Args::parse(&argv, 1).unwrap();
    let per_file = vec![vec![strong("foo", 0)]];
    let refs = vec![SymbolRef { name: "bar".to_string(), file_id: 0 }];
    match link_core(&args, &per_file, &refs, &vec![], 0x403000, vec![]) {
        Err(LinkError::UndefinedSymbol { name, referencing_files }) => {
            assert_eq!(name, "bar");
            assert_eq!(referencing_files, vec![0]);
        }
        other => panic!("expected an undefined symbol error, got {:?}", other),
    }
}

#[test]
fn core_runs_identically_whatever_the_thread_default() {
    // Byte-for-byte determinism: the same inputs under different worker
    // counts produce the same database, layout and GOT image.
    let per_file = vec![vec![strong("foo", 0)]];
    let refs = vec![SymbolRef { name: "foo".to_string(), file_id: 0 }];
    let pending = vec![PendingSymbol {
        name: "foo".to_string(),
        symbol_id: 0,
        kind: TargetResolutionKind::Normal,
        needs_got: true,
        value: ResolutionValue::Address(0x401000),
    }];
    let args_a = Args::parse(&to_argv(&["ld", "-o", "out", "--threads=1"]), 1).unwrap();
    let args_b = Args::parse(&to_argv(&["ld", "-o", "out", "--threads=7"]), 3).unwrap();
    let (db_a, layout_a) =
        link_core(&args_a, &per_file, &refs, &pending, 0x403000, vec![]).unwrap();
    let (db_b, layout_b) =
        link_core(&args_b, &per_file, &refs, &pending, 0x403000, vec![]).unwrap();
    assert_eq!(db_a, db_b);
    assert_eq!(layout_a, layout_b);
    assert_eq!(got_image(&layout_a.got_entries), got_image(&layout_b.got_entries));
}
