use wildlink::args::{Args, InputSpec, Modifiers, OutputKind};
use wildlink::errors::LinkError;
use wildlink::NON_PIE_START_MEM_ADDRESS;

fn to_argv(args: &[&str]) -> Vec<String> {
    args.iter().map(|a| a.to_string()).collect()
}

const INPUT1: &[&str] = &[
    "wild",
    "-pie",
    "-z",
    "relro",
    "--hash-style=gnu",
    "--build-id",
    "--eh-frame-hdr",
    "-m",
    "elf_x86_64",
    "-dynamic-linker",
    "/lib64/ld-linux-x86-64.so.2",
    "-o",
    "/build/target/debug/deps/c1-a212b73b12b6d123",
    "/lib/x86_64-linux-gnu/Scrt1.o",
    "/lib/x86_64-linux-gnu/crti.o",
    "/usr/bin/../lib/gcc/x86_64-linux-gnu/12/crtbeginS.o",
    "-L/build/target/debug/deps",
    "-L/tool/lib/rustlib/x86_64/lib",
    "-L/tool/lib/rustlib/x86_64/lib",
    "-L/usr/bin/../lib/gcc/x86_64-linux-gnu/12",
    "-L/usr/bin/../lib/gcc/x86_64-linux-gnu/12/../../../../lib64",
    "-L/lib/x86_64-linux-gnu",
    "-L/lib/../lib64",
    "-L/usr/lib/x86_64-linux-gnu",
    "-L/usr/lib/../lib64",
    "-L",
    "/lib",
    "-L/usr/lib",
    "/tmp/rustcDcR20O/symbols.o",
    "/build/target/debug/deps/c1-a212b73b12b6d123.1.rcgu.o",
    "/build/target/debug/deps/c1-a212b73b12b6d123.2.rcgu.o",
    "/build/target/debug/deps/c1-a212b73b12b6d123.3.rcgu.o",
    "/build/target/debug/deps/c1-a212b73b12b6d123.4.rcgu.o",
    "/build/target/debug/deps/c1-a212b73b12b6d123.5.rcgu.o",
    "/build/target/debug/deps/c1-a212b73b12b6d123.6.rcgu.o",
    "/build/target/debug/deps/c1-a212b73b12b6d123.7.rcgu.o",
    "--as-needed",
    "-Bstatic",
    "/tool/lib/rustlib/x86_64/lib/libstd-6498d8891e016dca.rlib",
    "/tool/lib/rustlib/x86_64/lib/libpanic_unwind-3debdee1a9058d84.rlib",
    "/tool/lib/rustlib/x86_64/lib/libobject-8339c5bd5cbc92bf.rlib",
    "/tool/lib/rustlib/x86_64/lib/libmemchr-160ebcebb54c11ba.rlib",
    "/tool/lib/rustlib/x86_64/lib/libaddr2line-95c75789f1b65e37.rlib",
    "/tool/lib/rustlib/x86_64/lib/libgimli-7e8094f2d6258832.rlib",
    "/tool/lib/rustlib/x86_64/lib/librustc_demangle-bac9783ef1b45db0.rlib",
    "/tool/lib/rustlib/x86_64/lib/libstd_detect-a1cd87df2f2d8e76.rlib",
    "/tool/lib/rustlib/x86_64/lib/libhashbrown-7fd06d468d7dba16.rlib",
    "/tool/lib/rustlib/x86_64/lib/librustc_std_workspace_alloc-5ac19487656e05bf.rlib",
    "/tool/lib/rustlib/x86_64/lib/libminiz_oxide-c7c35d32cf825c11.rlib",
    "/tool/lib/rustlib/x86_64/lib/libadler-c523f1571362e70b.rlib",
    "/tool/lib/rustlib/x86_64/lib/libunwind-85f17c92b770a911.rlib",
    "/tool/lib/rustlib/x86_64/lib/libcfg_if-598d3ba148dadcea.rlib",
    "/tool/lib/rustlib/x86_64/lib/liblibc-a58ec2dab545caa4.rlib",
    "/tool/lib/rustlib/x86_64/lib/liballoc-f9dda8cca149f0fc.rlib",
    "/tool/lib/rustlib/x86_64/lib/librustc_std_workspace_core-7ba4c315dd7a3503.rlib",
    "/tool/lib/rustlib/x86_64/lib/libcore-5ac2993e19124966.rlib",
    "/tool/lib/rustlib/x86_64/lib/libcompiler_builtins-df2fb7f50dec519a.rlib",
    "-Bdynamic",
    "-lgcc_s",
    "-lutil",
    "-lrt",
    "-lpthread",
    "-lm",
    "-ldl",
    "-lc",
    "--eh-frame-hdr",
    "-z",
    "noexecstack",
    "--gc-sections",
    "-z",
    "relro",
    "-z",
    "now",
    "/usr/bin/../lib/gcc/x86_64-linux-gnu/12/crtendS.o",
    "/lib/x86_64-linux-gnu/crtn.o",
];

fn assert_contains(c: &[String], v: &str) {
    assert!(c.iter().any(|p| p == v));
}

#[test]
fn test_parse() {
    let argv = to_argv(INPUT1);
    let args = Args::parse(&argv, 1).unwrap();
    assert_eq!(
        args.inputs
            .iter()
            .filter_map(|i| match &i.source {
                InputSpec::File(_) => None,
                InputSpec::Lib(lib_name) => Some(lib_name.as_str()),
            })
            .collect::<Vec<&str>>(),
        &["gcc_s", "util", "rt", "pthread", "m", "dl", "c"]
    );
    assert_contains(&args.lib_search_path, "/lib");
    assert_contains(&args.lib_search_path, "/usr/lib");
    assert!(!args.inputs.iter().any(|i| match &i.source {
        InputSpec::File(f) => f == "/usr/bin/ld",
        _ => false,
    }));
}

#[test]
fn static_dynamic_toggles_apply_per_input() {
    // -static then -Bdynamic around -l flags: each input captures the
    // toggle state at the moment its flag was parsed.
    let argv = to_argv(&[
        "ld", "-o", "out", "-static", "-lfoo", "-Bdynamic", "-lbar", "-static", "-lbaz",
    ]);
    let args = Args::parse(&argv, 1).unwrap();
    let mods: Vec<Modifiers> = args.inputs.iter().map(|i| i.modifiers).collect();
    assert_eq!(mods.len(), 3);
    assert!(!mods[0].allow_shared);
    assert!(mods[1].allow_shared);
    assert!(!mods[2].allow_shared);
    match &args.inputs[0].source {
        InputSpec::Lib(n) => assert_eq!(n, "foo"),
        _ => panic!("expected a library input"),
    }
}

#[test]
fn push_pop_state_restores_modifiers() {
    let argv = to_argv(&[
        "ld", "-o", "out", "--as-needed", "--push-state", "--no-as-needed", "-lfoo",
        "--pop-state", "-lbar",
    ]);
    let args = Args::parse(&argv, 1).unwrap();
    assert!(!args.inputs[0].modifiers.as_needed);
    assert!(args.inputs[1].modifiers.as_needed);
}

#[test]
fn mismatched_pop_state_fails() {
    let argv = to_argv(&["ld", "-o", "out", "--pop-state"]);
    assert!(matches!(
        Args::parse(&argv, 1),
        Err(LinkError::MismatchedPopState)
    ));
}

#[test]
fn missing_output_fails() {
    let argv = to_argv(&["ld", "a.o"]);
    assert!(matches!(Args::parse(&argv, 1), Err(LinkError::MissingOutput)));
}

#[test]
fn unsupported_hash_style_fails() {
    let argv = to_argv(&["ld", "-o", "out", "--hash-style=sysv"]);
    match Args::parse(&argv, 1) {
        Err(LinkError::UnsupportedHashStyle { style }) => assert_eq!(style, "sysv"),
        other => panic!("expected an unsupported hash style error, got {:?}", other),
    }
}

#[test]
fn unrecognised_argument_fails() {
    let argv = to_argv(&["ld", "-o", "out", "--definitely-not-a-flag"]);
    match Args::parse(&argv, 1) {
        Err(LinkError::UnrecognisedArgument { arg }) => {
            assert_eq!(arg, "--definitely-not-a-flag")
        }
        other => panic!("expected an unrecognised argument error, got {:?}", other),
    }
}

#[test]
fn bad_thread_count_fails() {
    let argv = to_argv(&["ld", "-o", "out", "--threads=abc"]);
    assert!(matches!(
        Args::parse(&argv, 1),
        Err(LinkError::InvalidNumber { .. })
    ));
    let argv = to_argv(&["ld", "-o", "out", "--threads=0"]);
    assert!(matches!(Args::parse(&argv, 1), Err(LinkError::ZeroThreads)));
    let argv = to_argv(&["ld", "-o", "out", "--threads=3"]);
    assert_eq!(Args::parse(&argv, 1).unwrap().num_threads, 3);
}

#[test]
fn debug_fuel_forces_one_thread() {
    // Fuel decrements must happen in a reproducible global order, so an
    // enabled budget forces a single worker whichever side of it the
    // `--threads=` flag stands.
    let argv = to_argv(&["ld", "-o", "out", "--threads=8", "--debug-fuel=2"]);
    let args = Args::parse(&argv, 1).unwrap();
    assert_eq!(args.num_threads, 1);
    assert_eq!(args.debug_fuel, Some(2));

    let argv = to_argv(&["ld", "-o", "out", "--debug-fuel=5", "--threads=8"]);
    let args = Args::parse(&argv, 1).unwrap();
    assert_eq!(args.num_threads, 1);
    assert_eq!(args.debug_fuel, Some(5));
}

#[test]
fn numeric_arguments_accept_a_leading_plus() {
    let argv = to_argv(&["ld", "-o", "out", "--threads=+3"]);
    assert_eq!(Args::parse(&argv, 1).unwrap().num_threads, 3);
    let argv = to_argv(&["ld", "-o", "out", "--debug-fuel=+7"]);
    let args = Args::parse(&argv, 1).unwrap();
    assert_eq!(args.debug_fuel, Some(7));
    assert_eq!(args.num_threads, 1);
}

#[test]
fn base_address_policy() {
    // StaticExecutable with PIE disabled uses the fixed non-zero base;
    // shared objects and PIE executables use zero.
    let argv = to_argv(&["ld", "-o", "out"]);
    let args = Args::parse(&argv, 1).unwrap();
    assert_eq!(args.output_kind, OutputKind::StaticExecutable);
    assert!(!args.pie);
    assert_eq!(args.base_address(), NON_PIE_START_MEM_ADDRESS);
    assert_eq!(NON_PIE_START_MEM_ADDRESS, 0x400_000);

    let argv = to_argv(&["ld", "-o", "out", "-pie"]);
    let args = Args::parse(&argv, 1).unwrap();
    assert_eq!(args.base_address(), 0);

    let argv = to_argv(&["ld", "-o", "out", "-shared"]);
    let args = Args::parse(&argv, 1).unwrap();
    assert_eq!(args.output_kind, OutputKind::SharedObject);
    assert_eq!(args.base_address(), 0);
}

#[test]
fn tls_mode_follows_output_kind() {
    let argv = to_argv(&["ld", "-o", "out"]);
    let args = Args::parse(&argv, 1).unwrap();
    assert_eq!(args.tls_mode(), wildlink::layout::TlsMode::LocalExec);
    assert!(!args.is_relocatable());
    assert!(!args.needs_dynamic());
    assert!(args.output_kind.is_executable());

    let argv = to_argv(&["ld", "-o", "out", "-shared"]);
    let args = Args::parse(&argv, 1).unwrap();
    assert_eq!(args.tls_mode(), wildlink::layout::TlsMode::Preserve);
    assert!(args.is_relocatable());
    assert!(args.needs_dynamic());
    assert!(!args.output_kind.is_executable());
}

#[test]
fn debug_fuel_counts_down() {
    let argv = to_argv(&["ld", "-o", "out", "--debug-fuel=2"]);
    let mut args = Args::parse(&argv, 1).unwrap();
    assert_eq!(args.use_debug_fuel(), 1);
    assert_eq!(args.use_debug_fuel(), 0);
    assert_eq!(args.use_debug_fuel(), -1);

    let argv = to_argv(&["ld", "-o", "out"]);
    let mut args = Args::parse(&argv, 1).unwrap();
    assert_eq!(args.use_debug_fuel(), i64::MAX);
}

#[test]
fn debug_fuel_on_last_invokes_callback() {
    let argv = to_argv(&["ld", "-o", "out", "--debug-fuel=2"]);
    let mut args = Args::parse(&argv, 1).unwrap();
    assert!(args.use_debug_fuel_on_last(|| panic!("not the last unit yet")));
    let mut fired = false;
    assert!(args.use_debug_fuel_on_last(|| fired = true));
    assert!(fired);
    assert!(!args.use_debug_fuel_on_last(|| panic!("fuel is exhausted")));
}

#[test]
fn parsing_is_deterministic() {
    // Two separate runs over the same argument list agree exactly.
    let argv = to_argv(INPUT1);
    let a = Args::parse(&argv, 4).unwrap();
    let b = Args::parse(&argv, 4).unwrap();
    assert_eq!(a, b);
}

#[test]
fn default_modifiers_allow_shared() {
    let m = Modifiers::default();
    assert!(!m.as_needed);
    assert!(m.allow_shared);
}
