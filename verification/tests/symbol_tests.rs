use wildlink::errors::LinkError;
use wildlink::symbol_db::{
    SymbolDatabase, SymbolDef, SymbolRef, SymbolStrength, merge_registrations,
};

fn def(name: &str, file_id: usize, strength: SymbolStrength) -> SymbolDef {
    SymbolDef { name: name.to_string(), file_id, strength }
}

#[test]
fn strong_beats_weak_regardless_of_order() {
    // a.o defines strong `foo`; b.o defines weak `foo`: the strong
    // definition wins whichever side of it the weak one stands.
    let defs = vec![
        def("foo", 0, SymbolStrength::Strong),
        def("foo", 1, SymbolStrength::Weak),
    ];
    let db = SymbolDatabase::build(&defs);
    let id = db.resolve(&"foo".to_string()).unwrap();
    assert_eq!(id, 0);
    assert_eq!(db.entries[0].file_id, 0);
    assert_eq!(db.entries[0].strength, SymbolStrength::Strong);

    let defs = vec![
        def("foo", 0, SymbolStrength::Weak),
        def("foo", 1, SymbolStrength::Strong),
    ];
    let db = SymbolDatabase::build(&defs);
    let id = db.resolve(&"foo".to_string()).unwrap();
    assert_eq!(id, 1);
    assert_eq!(db.entries[0].file_id, 1);
}

#[test]
fn first_strong_definition_wins_ties() {
    // Among equal-strength definitions the earliest registration in
    // link-command order is kept; later ones are ignored, not errors.
    let defs = vec![
        def("foo", 0, SymbolStrength::Weak),
        def("foo", 1, SymbolStrength::Strong),
        def("foo", 2, SymbolStrength::Strong),
        def("foo", 3, SymbolStrength::Weak),
    ];
    let db = SymbolDatabase::build(&defs);
    let id = db.resolve(&"foo".to_string()).unwrap();
    assert_eq!(id, 1);
    assert_eq!(db.entries[0].file_id, 1);
}

#[test]
fn resolve_unknown_name_is_none() {
    let defs = vec![def("foo", 0, SymbolStrength::Strong)];
    let db = SymbolDatabase::build(&defs);
    assert!(db.resolve(&"bar".to_string()).is_none());
}

#[test]
fn undefined_symbol_is_reported_with_referencing_files() {
    // A single object references `bar` and nothing supplies it: the link
    // fails naming `bar` and the referencing file.
    let defs = vec![def("foo", 0, SymbolStrength::Strong)];
    let db = SymbolDatabase::build(&defs);
    let refs = vec![
        SymbolRef { name: "foo".to_string(), file_id: 0 },
        SymbolRef { name: "bar".to_string(), file_id: 0 },
        SymbolRef { name: "bar".to_string(), file_id: 2 },
    ];
    match wildlink::symbol_db::check_references(&db, &refs) {
        Err(LinkError::UndefinedSymbol { name, referencing_files }) => {
            assert_eq!(name, "bar");
            assert_eq!(referencing_files, vec![0, 2]);
        }
        other => panic!("expected an undefined symbol error, got {:?}", other),
    }
}

#[test]
fn all_references_defined_is_ok() {
    let defs = vec![
        def("foo", 0, SymbolStrength::Strong),
        def("bar", 1, SymbolStrength::Weak),
    ];
    let db = SymbolDatabase::build(&defs);
    let refs = vec![
        SymbolRef { name: "foo".to_string(), file_id: 1 },
        SymbolRef { name: "bar".to_string(), file_id: 0 },
    ];
    assert!(wildlink::symbol_db::check_references(&db, &refs).is_ok());
}

#[test]
fn merge_preserves_link_command_order() {
    // Per-file registration lists combine in file order, so the database
    // never depends on which worker finished first.
    let per_file = vec![
        vec![def("a", 0, SymbolStrength::Weak)],
        vec![def("b", 1, SymbolStrength::Strong), def("a", 1, SymbolStrength::Strong)],
        vec![],
        vec![def("c", 3, SymbolStrength::Weak)],
    ];
    let merged = merge_registrations(&per_file);
    let names: Vec<&str> = merged.iter().map(|d| d.name.as_str()).collect();
    assert_eq!(names, vec!["a", "b", "a", "c"]);
    let db = SymbolDatabase::build(&merged);
    // `a` resolves to the strong definition from the second file, whose
    // registration index is 2.
    assert_eq!(db.resolve(&"a".to_string()).unwrap(), 2);
}

#[test]
fn database_build_is_deterministic() {
    let defs = vec![
        def("x", 0, SymbolStrength::Weak),
        def("y", 1, SymbolStrength::Strong),
        def("x", 2, SymbolStrength::Strong),
    ];
    let a = SymbolDatabase::build(&defs);
    let b = SymbolDatabase::build(&defs);
    assert_eq!(a, b);
}
