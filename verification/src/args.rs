//! A hand-written parser for linker arguments. Order is significant for
//! several arguments (`-static`/`-Bdynamic` toggles, `--push-state` /
//! `--pop-state`), so the parser is a single left-to-right pass whose exact
//! behaviour is pinned by a recursive specification.

use vstd::prelude::*;
use vstd::pervasive::VecAdditionalExecFns;
use crate::errors::{LinkError, LinkErrorV};
use crate::text::{is_prefix, parse_i64, parse_u64, spec_parse_i64, spec_parse_u64, str_eq,
    str_starts_with, str_strip_prefix};

verus! {

/// Per-input link modifiers, captured at the point the input appeared on
/// the command line.
#[derive(Clone, Copy, Debug, PartialEq, Eq, Structural)]
pub struct Modifiers {
    /// Whether shared objects should only be linked if they're referenced.
    pub as_needed: bool,
    /// Whether we're currently allowed to link against shared libraries.
    pub allow_shared: bool,
}

/// What kind of output image this link produces.
#[derive(Clone, Copy, Debug, PartialEq, Eq, Structural)]
pub enum OutputKind {
    StaticExecutable,
    DynamicExecutable,
    SharedObject,
}

/// One link input: either an explicit path or a `-l` library name to be
/// resolved via the search paths.
#[derive(Debug, Clone, PartialEq, Eq)]
pub enum InputSpec {
    File(String),
    Lib(String),
}

/// One input together with the modifier state at the point it appeared and,
/// for inputs named by a linker script, the script's directory.
#[derive(Debug, Clone, PartialEq, Eq)]
pub struct Input {
    pub source: InputSpec,
    /// A directory to search first; only present when the input came from a
    /// linker script.
    pub search_first: Option<String>,
    pub modifiers: Modifiers,
}

/// The parsed configuration of one link, immutable for its duration
/// (except for the remaining debug-fuel budget).
#[derive(Debug, Clone, PartialEq, Eq)]
pub struct Args {
    pub lib_search_path: Vec<String>,
    pub inputs: Vec<Input>,
    pub output: String,
    pub dynamic_linker: Option<String>,
    pub output_kind: OutputKind,
    pub num_threads: usize,
    pub strip_all: bool,
    pub strip_debug: bool,
    pub prepopulate_maps: bool,
    pub sym_info: Option<String>,
    pub merge_strings: bool,
    pub debug_fuel: Option<i64>,
    pub time_phases: bool,
    pub validate_output: bool,
    pub pie: bool,
    pub version_script_path: Option<String>,
}

/// Spec-level shape of an `InputSpec`.
#[verifier::ext_equal]
pub enum InputSpecV {
    File(Seq<char>),
    Lib(Seq<char>),
}

/// Spec-level shape of an `Input`.
#[verifier::ext_equal]
pub struct InputV {
    pub source: InputSpecV,
    pub search_first: Option<Seq<char>>,
    pub modifiers: Modifiers,
}

/// Spec-level shape of `Args`.
#[verifier::ext_equal]
pub struct ArgsV {
    pub lib_search_path: Seq<Seq<char>>,
    pub inputs: Seq<InputV>,
    pub output: Seq<char>,
    pub dynamic_linker: Option<Seq<char>>,
    pub output_kind: OutputKind,
    pub num_threads: usize,
    pub strip_all: bool,
    pub strip_debug: bool,
    pub prepopulate_maps: bool,
    pub sym_info: Option<Seq<char>>,
    pub merge_strings: bool,
    pub debug_fuel: Option<i64>,
    pub time_phases: bool,
    pub validate_output: bool,
    pub pie: bool,
    pub version_script_path: Option<Seq<char>>,
}

/// The view of an optional owned string.
pub open spec fn opt_str_view(o: Option<String>) -> Option<Seq<char>> {
    match o {
        Some(s) => Some(s@),
        None => None,
    }
}

impl View for InputSpec {
    type V = InputSpecV;

    open spec fn view(&self) -> InputSpecV {
        match self {
            InputSpec::File(p) => InputSpecV::File(p@),
            InputSpec::Lib(l) => InputSpecV::Lib(l@),
        }
    }
}

impl View for Input {
    type V = InputV;

    open spec fn view(&self) -> InputV {
        InputV {
            source: self.source@,
            search_first: opt_str_view(self.search_first),
            modifiers: self.modifiers,
        }
    }
}

impl View for Args {
    type V = ArgsV;

    open spec fn view(&self) -> ArgsV {
        ArgsV {
            lib_search_path: self.lib_search_path@.map_values(|p: String| p@),
            inputs: self.inputs@.map_values(|x: Input| x@),
            output: self.output@,
            dynamic_linker: opt_str_view(self.dynamic_linker),
            output_kind: self.output_kind,
            num_threads: self.num_threads,
            strip_all: self.strip_all,
            strip_debug: self.strip_debug,
            prepopulate_maps: self.prepopulate_maps,
            sym_info: opt_str_view(self.sym_info),
            merge_strings: self.merge_strings,
            debug_fuel: self.debug_fuel,
            time_phases: self.time_phases,
            validate_output: self.validate_output,
            pie: self.pie,
            version_script_path: opt_str_view(self.version_script_path),
        }
    }
}

/// The parser's accumulated state, part way through the argument list.
#[verifier::ext_equal]
pub struct ParseState {
    pub lib_search_path: Seq<Seq<char>>,
    pub inputs: Seq<InputV>,
    pub output: Option<Seq<char>>,
    pub dynamic_linker: Option<Seq<char>>,
    pub output_kind: OutputKind,
    pub num_threads: Option<usize>,
    pub strip_all: bool,
    pub strip_debug: bool,
    pub prepopulate_maps: bool,
    pub sym_info: Option<Seq<char>>,
    pub merge_strings: bool,
    pub debug_fuel: Option<i64>,
    pub time_phases: bool,
    pub validate_output: bool,
    pub pie: bool,
    pub version_script_path: Option<Seq<char>>,
    pub modifier_stack: Seq<Modifiers>,
}

/// The state before any argument has been seen: string merging on, one
/// default modifier frame on the stack, everything else off or absent.
pub open spec fn init_state() -> ParseState {
    ParseState {
        lib_search_path: Seq::empty(),
        inputs: Seq::empty(),
        output: None,
        dynamic_linker: None,
        output_kind: OutputKind::StaticExecutable,
        num_threads: None,
        strip_all: false,
        strip_debug: false,
        prepopulate_maps: false,
        sym_info: None,
        merge_strings: true,
        debug_fuel: None,
        time_phases: false,
        validate_output: false,
        pie: false,
        version_script_path: None,
        modifier_stack: seq![default_modifiers()],
    }
}

/// The modifier state in effect before any toggle argument: shared
/// libraries allowed, `--as-needed` off.
pub open spec fn default_modifiers() -> Modifiers {
    Modifiers { as_needed: false, allow_shared: true }
}

/// Replaces the top of the modifier stack.
pub open spec fn set_last(stack: Seq<Modifiers>, m: Modifiers) -> Seq<Modifiers> {
    stack.update(stack.len() - 1, m)
}

/// Completes a parse: `-o` must have been given; an explicit `--threads=`
/// count wins over the default; and an enabled debug-fuel budget forces a
/// single worker whatever any `--threads=` said, because fuel decrements
/// must happen in a reproducible global order.
pub open spec fn spec_finalize(st: ParseState, default_threads: usize) -> Result<
    ArgsV,
    LinkErrorV,
> {
    match st.output {
        None => Err(LinkErrorV::MissingOutput),
        Some(o) => Ok(ArgsV {
            lib_search_path: st.lib_search_path,
            inputs: st.inputs,
            output: o,
            dynamic_linker: st.dynamic_linker,
            output_kind: st.output_kind,
            num_threads: if st.debug_fuel is Some {
                1
            } else {
                match st.num_threads {
                    Some(n) => n,
                    None => default_threads,
                }
            },
            strip_all: st.strip_all,
            strip_debug: st.strip_debug,
            prepopulate_maps: st.prepopulate_maps,
            sym_info: st.sym_info,
            merge_strings: st.merge_strings,
            debug_fuel: st.debug_fuel,
            time_phases: st.time_phases,
            validate_output: st.validate_output,
            pie: st.pie,
            version_script_path: st.version_script_path,
        }),
    }
}

/// Which branch of the argument grammar the single argument `a` selects,
/// with the first matching rule winning. The numbering follows the order
/// the rules are tried in.
#[verifier::opaque]
pub open spec fn arg_branch_of(a: Seq<char>) -> int {
    if is_prefix("-L"@, a) { 0 }
    else if is_prefix("-l"@, a) { 1 }
    else if a == "-static"@ || a == "-Bstatic"@ { 2 }
    else if a == "-Bdynamic"@ { 3 }
    else if a == "-o"@ { 4 }
    else if a == "--dynamic-linker"@ || a == "-dynamic-linker"@ { 5 }
    else if a == "--no-dynamic-linker"@ { 6 }
    else if is_prefix("--hash-style="@, a) { 7 }
    else if is_prefix("--build-id="@, a) { 8 }
    else if a == "--time"@ { 9 }
    else if is_prefix("--threads="@, a) { 10 }
    else if a == "--strip-all"@ { 11 }
    else if a == "--strip-debug"@ { 12 }
    else if a == "-z"@ || a == "-m"@ { 13 }
    else if is_prefix("-O"@, a) { 14 }
    else if a == "--prepopulate-maps"@ { 15 }
    else if a == "--sym-info"@ { 16 }
    else if a == "--as-needed"@ { 17 }
    else if a == "--no-as-needed"@ { 18 }
    else if a == "--push-state"@ { 19 }
    else if a == "--pop-state"@ { 20 }
    else if is_prefix("--version-script="@, a) { 21 }
    else if a == "--no-string-merge"@ { 22 }
    else if a == "-pie"@ { 23 }
    else if a == "-shared"@ { 24 }
    else if is_prefix("-plugin-opt="@, a) { 25 }
    else if a == "-plugin"@ { 26 }
    else if a == "--validate-output"@ { 27 }
    else if is_prefix("--debug-fuel="@, a) { 28 }
    else if a == "--help"@ { 29 }
    else if a == "--eh-frame-hdr"@ || a == "--build-id"@ || a == "--gc-sections"@
        || a == "--start-group"@ || a == "--end-group"@ || a == "-nostdlib"@
        || a == "--no-undefined-version"@ { 30 }
    else if is_prefix("-"@, a) { 31 }
    else { 32 }
}

/// One left-to-right pass over `args` from position `i` onward, dispatching
/// each argument on the branch of the grammar it selects. Arguments that
/// take a value consume the following element when one exists.
pub open spec fn spec_parse_from(
    args: Seq<Seq<char>>,
    i: int,
    st: ParseState,
    default_threads: usize,
) -> Result<ArgsV, LinkErrorV>
    decreases args.len() - i,
{
    if i >= args.len() {
        spec_finalize(st, default_threads)
    } else {
        let a = args[i];
        let b = arg_branch_of(a);
        if b == 0 {
            let rest = a.subrange("-L"@.len() as int, a.len() as int);
            if rest.len() == 0 {
                if i + 1 < args.len() {
                    spec_parse_from(
                        args,
                        i + 2,
                        ParseState { lib_search_path: st.lib_search_path.push(args[i + 1]), ..st },
                        default_threads,
                    )
                } else {
                    spec_parse_from(args, i + 1, st, default_threads)
                }
            } else {
                spec_parse_from(
                    args,
                    i + 1,
                    ParseState { lib_search_path: st.lib_search_path.push(rest), ..st },
                    default_threads,
                )
            }
        } else if b == 1 {
            let rest = a.subrange("-l"@.len() as int, a.len() as int);
            spec_parse_from(
                args,
                i + 1,
                ParseState {
                    inputs: st.inputs.push(
                        InputV {
                            source: InputSpecV::Lib(rest),
                            search_first: None,
                            modifiers: st.modifier_stack.last(),
                        },
                    ),
                    ..st
                },
                default_threads,
            )
        } else if b == 2 {
            let m = Modifiers { allow_shared: false, ..st.modifier_stack.last() };
            spec_parse_from(
                args,
                i + 1,
                ParseState { modifier_stack: set_last(st.modifier_stack, m), ..st },
                default_threads,
            )
        } else if b == 3 {
            let m = Modifiers { allow_shared: true, ..st.modifier_stack.last() };
            spec_parse_from(
                args,
                i + 1,
                ParseState { modifier_stack: set_last(st.modifier_stack, m), ..st },
                default_threads,
            )
        } else if b == 4 {
            if i + 1 < args.len() {
                spec_parse_from(
                    args,
                    i + 2,
                    ParseState { output: Some(args[i + 1]), ..st },
                    default_threads,
                )
            } else {
                spec_parse_from(args, i + 1, ParseState { output: None, ..st }, default_threads)
            }
        } else if b == 5 {
            if i + 1 < args.len() {
                spec_parse_from(
                    args,
                    i + 2,
                    ParseState {
                        output_kind: OutputKind::DynamicExecutable,
                        dynamic_linker: Some(args[i + 1]),
                        ..st
                    },
                    default_threads,
                )
            } else {
                spec_parse_from(
                    args,
                    i + 1,
                    ParseState {
                        output_kind: OutputKind::DynamicExecutable,
                        dynamic_linker: None,
                        ..st
                    },
                    default_threads,
                )
            }
        } else if b == 6 {
            spec_parse_from(
                args,
                i + 1,
                ParseState { dynamic_linker: None, ..st },
                default_threads,
            )
        } else if b == 7 {
            let style = a.subrange("--hash-style="@.len() as int, a.len() as int);
            if style == "gnu"@ {
                spec_parse_from(args, i + 1, st, default_threads)
            } else {
                Err(LinkErrorV::UnsupportedHashStyle { style })
            }
        } else if b == 8 {
            spec_parse_from(args, i + 1, st, default_threads)
        } else if b == 9 {
            spec_parse_from(args, i + 1, ParseState { time_phases: true, ..st }, default_threads)
        } else if b == 10 {
            let rest = a.subrange("--threads="@.len() as int, a.len() as int);
            match spec_parse_u64(rest) {
                None => Err(LinkErrorV::InvalidNumber { arg: rest }),
                Some(v) => if v > usize::MAX as u64 {
                    Err(LinkErrorV::InvalidNumber { arg: rest })
                } else if v == 0 {
                    Err(LinkErrorV::ZeroThreads)
                } else {
                    spec_parse_from(
                        args,
                        i + 1,
                        ParseState { num_threads: Some(v as usize), ..st },
                        default_threads,
                    )
                },
            }
        } else if b == 11 {
            spec_parse_from(
                args,
                i + 1,
                ParseState { strip_all: true, strip_debug: true, ..st },
                default_threads,
            )
        } else if b == 12 {
            spec_parse_from(args, i + 1, ParseState { strip_debug: true, ..st }, default_threads)
        } else if b == 13 {
            if i + 1 < args.len() {
                spec_parse_from(args, i + 2, st, default_threads)
            } else {
                spec_parse_from(args, i + 1, st, default_threads)
            }
        } else if b == 14 {
            spec_parse_from(args, i + 1, st, default_threads)
        } else if b == 15 {
            spec_parse_from(
                args,
                i + 1,
                ParseState { prepopulate_maps: true, ..st },
                default_threads,
            )
        } else if b == 16 {
            if i + 1 < args.len() {
                spec_parse_from(
                    args,
                    i + 2,
                    ParseState { sym_info: Some(args[i + 1]), ..st },
                    default_threads,
                )
            } else {
                spec_parse_from(args, i + 1, ParseState { sym_info: None, ..st }, default_threads)
            }
        } else if b == 17 {
            let m = Modifiers { as_needed: true, ..st.modifier_stack.last() };
            spec_parse_from(
                args,
                i + 1,
                ParseState { modifier_stack: set_last(st.modifier_stack, m), ..st },
                default_threads,
            )
        } else if b == 18 {
            let m = Modifiers { as_needed: false, ..st.modifier_stack.last() };
            spec_parse_from(
                args,
                i + 1,
                ParseState { modifier_stack: set_last(st.modifier_stack, m), ..st },
                default_threads,
            )
        } else if b == 19 {
            spec_parse_from(
                args,
                i + 1,
                ParseState {
                    modifier_stack: st.modifier_stack.push(st.modifier_stack.last()),
                    ..st
                },
                default_threads,
            )
        } else if b == 20 {
            let popped = st.modifier_stack.drop_last();
            if popped.len() == 0 {
                Err(LinkErrorV::MismatchedPopState)
            } else {
                spec_parse_from(
                    args,
                    i + 1,
                    ParseState { modifier_stack: popped, ..st },
                    default_threads,
                )
            }
        } else if b == 21 {
            let script = a.subrange("--version-script="@.len() as int, a.len() as int);
            spec_parse_from(
                args,
                i + 1,
                ParseState { version_script_path: Some(script), ..st },
                default_threads,
            )
        } else if b == 22 {
            spec_parse_from(
                args,
                i + 1,
                ParseState { merge_strings: false, ..st },
                default_threads,
            )
        } else if b == 23 {
            spec_parse_from(args, i + 1, ParseState { pie: true, ..st }, default_threads)
        } else if b == 24 {
            spec_parse_from(
                args,
                i + 1,
                ParseState { output_kind: OutputKind::SharedObject, ..st },
                default_threads,
            )
        } else if b == 25 {
            spec_parse_from(args, i + 1, st, default_threads)
        } else if b == 26 {
            if i + 1 < args.len() {
                spec_parse_from(args, i + 2, st, default_threads)
            } else {
                spec_parse_from(args, i + 1, st, default_threads)
            }
        } else if b == 27 {
            spec_parse_from(
                args,
                i + 1,
                ParseState { validate_output: true, ..st },
                default_threads,
            )
        } else if b == 28 {
            let rest = a.subrange("--debug-fuel="@.len() as int, a.len() as int);
            match spec_parse_i64(rest) {
                None => Err(LinkErrorV::InvalidNumber { arg: rest }),
                Some(f) => spec_parse_from(
                    args,
                    i + 1,
                    ParseState { debug_fuel: Some(f), ..st },
                    default_threads,
                ),
            }
        } else if b == 29 {
            Err(LinkErrorV::HelpRequested)
        } else if b == 30 {
            spec_parse_from(args, i + 1, st, default_threads)
        } else if b == 31 {
            Err(LinkErrorV::UnrecognisedArgument { arg: a })
        } else {
            spec_parse_from(
                args,
                i + 1,
                ParseState {
                    inputs: st.inputs.push(
                        InputV {
                            source: InputSpecV::File(a),
                            search_first: None,
                            modifiers: st.modifier_stack.last(),
                        },
                    ),
                    ..st
                },
                default_threads,
            )
        }
    }
}

/// What parsing an argument list yields. The first element is the program
/// name and is skipped.
pub open spec fn spec_parse(args: Seq<Seq<char>>, default_threads: usize) -> Result<
    ArgsV,
    LinkErrorV,
> {
    spec_parse_from(args, 1, init_state(), default_threads)
}

/// The views of a list of owned argument strings.
pub open spec fn views_of_args(argv: Seq<String>) -> Seq<Seq<char>> {
    argv.map_values(|a: String| a@)
}

struct ParseCursor {
    lib_search_path: Vec<String>,
    inputs: Vec<Input>,
    output: Option<String>,
    dynamic_linker: Option<String>,
    output_kind: OutputKind,
    num_threads: Option<usize>,
    strip_all: bool,
    strip_debug: bool,
    prepopulate_maps: bool,
    sym_info: Option<String>,
    merge_strings: bool,
    debug_fuel: Option<i64>,
    time_phases: bool,
    validate_output: bool,
    pie: bool,
    version_script_path: Option<String>,
    modifier_stack: Vec<Modifiers>,
}

impl View for ParseCursor {
    type V = ParseState;

    closed spec fn view(&self) -> ParseState {
        ParseState {
            lib_search_path: self.lib_search_path@.map_values(|p: String| p@),
            inputs: self.inputs@.map_values(|x: Input| x@),
            output: opt_str_view(self.output),
            dynamic_linker: opt_str_view(self.dynamic_linker),
            output_kind: self.output_kind,
            num_threads: self.num_threads,
            strip_all: self.strip_all,
            strip_debug: self.strip_debug,
            prepopulate_maps: self.prepopulate_maps,
            sym_info: opt_str_view(self.sym_info),
            merge_strings: self.merge_strings,
            debug_fuel: self.debug_fuel,
            time_phases: self.time_phases,
            validate_output: self.validate_output,
            pie: self.pie,
            version_script_path: opt_str_view(self.version_script_path),
            modifier_stack: self.modifier_stack@,
        }
    }
}

/// The debug-fuel state after one use, paired with the remaining fuel that
/// the caller sees. Absent fuel means an unlimited budget; a present budget
/// counts down by one per use, wrapping at the numeric limit as a
/// fetch-and-subtract would.
pub open spec fn spec_use_fuel(a: Args) -> (Args, i64) {
    match a.debug_fuel {
        None => (a, i64::MAX),
        Some(f) => {
            let nf: i64 = if f == i64::MIN { i64::MAX } else { (f - 1) as i64 };
            (Args { debug_fuel: Some(nf), ..a }, nf)
        },
    }
}

impl Args {
    /// Our starting address in memory: position-independent outputs (PIE
    /// executables and shared objects) are laid out from zero, fixed
    /// executables from the conventional non-zero load address.
    pub open spec fn spec_base_address(self) -> u64 {
        if self.pie {
            0
        } else if self.output_kind == OutputKind::SharedObject {
            0
        } else {
            crate::NON_PIE_START_MEM_ADDRESS
        }
    }

    /// The base address every `Address`-kind resolution is offset from.
    pub fn base_address(&self) -> (r: u64)
        ensures
            r == self.spec_base_address(),
            self.pie ==> r == 0,
            self.output_kind == OutputKind::SharedObject ==> r == 0,
            !self.pie && self.output_kind == OutputKind::StaticExecutable ==> r
                == crate::NON_PIE_START_MEM_ADDRESS,
    {
        if self.pie {
            0
        } else if self.output_kind == OutputKind::SharedObject {
            0
        } else {
            crate::NON_PIE_START_MEM_ADDRESS
        }
    }

    /// Uses 1 debug fuel, returning how much fuel remains. Debug fuel is
    /// intended for debugging certain kinds of bugs: the caller takes a
    /// different branch depending on whether the value is still positive,
    /// which allows a binary search for the faulty decision.
    pub fn use_debug_fuel(&mut self) -> (r: i64)
        ensures
            *final(self) == spec_use_fuel(*old(self)).0,
            r == spec_use_fuel(*old(self)).1,
    {
        match self.debug_fuel {
            None => i64::MAX,
            Some(f) => {
                let nf: i64 = if f == i64::MIN {
                    i64::MAX
                } else {
                    f - 1
                };
                self.debug_fuel = Some(nf);
                nf
            },
        }
    }

    /// Returns whether there was sufficient fuel. If the last bit of fuel
    /// was used, calls `last_cb`.
    pub fn use_debug_fuel_on_last<F: FnOnce() -> ()>(&mut self, last_cb: F) -> (r: bool)
        requires
            call_requires(last_cb, ()),
        ensures
            *final(self) == spec_use_fuel(*old(self)).0,
            r == (spec_use_fuel(*old(self)).1 >= 0),
    {
        let remaining = self.use_debug_fuel();
        if remaining >= 1 {
            true
        } else if remaining == 0 {
            last_cb();
            true
        } else {
            false
        }
    }

    /// Returns how TLS relocations like TLSLD and TLSGD should be handled.
    pub fn tls_mode(&self) -> (r: crate::layout::TlsMode)
        ensures
            r == (if self.output_kind == OutputKind::StaticExecutable {
                crate::layout::TlsMode::LocalExec
            } else {
                crate::layout::TlsMode::Preserve
            }),
    {
        if self.output_kind == OutputKind::StaticExecutable {
            crate::layout::TlsMode::LocalExec
        } else {
            crate::layout::TlsMode::Preserve
        }
    }

    /// Whether the output is relocated at load time rather than placed at a
    /// fixed address.
    pub fn is_relocatable(&self) -> (r: bool)
        ensures
            r == (self.pie || self.output_kind != OutputKind::StaticExecutable),
    {
        self.pie || self.output_kind != OutputKind::StaticExecutable
    }

    /// Returns whether we need a dynamic section.
    pub fn needs_dynamic(&self) -> (r: bool)
        ensures
            r == (self.pie || self.output_kind != OutputKind::StaticExecutable),
    {
        self.is_relocatable()
    }
}

impl OutputKind {
    /// Whether this output kind is an executable rather than a library.
    pub fn is_executable(&self) -> (r: bool)
        ensures
            r == (*self != OutputKind::SharedObject),
    {
        match self {
            OutputKind::StaticExecutable => true,
            OutputKind::DynamicExecutable => true,
            OutputKind::SharedObject => false,
        }
    }
}

impl Default for Modifiers {
    /// The modifier state in effect before any toggle argument.
    fn default() -> (r: Self)
        ensures
            r == default_modifiers(),
    {
        Modifiers { as_needed: false, allow_shared: true }
    }
}

/// Decides which grammar branch `a` selects, returning the branch number
/// and, for branches introduced by a prefix that carries a value, the text
/// after the prefix.
fn classify_arg<'a>(a: &'a str) -> (r: (usize, Option<&'a str>))
    ensures
        r.0 == arg_branch_of(a@),
        r.0 == 0 ==> (r.1 matches Some(rest) && rest@ == a@.subrange(
            "-L"@.len() as int,
            a@.len() as int,
        )),
        r.0 == 1 ==> (r.1 matches Some(rest) && rest@ == a@.subrange(
            "-l"@.len() as int,
            a@.len() as int,
        )),
        r.0 == 7 ==> (r.1 matches Some(rest) && rest@ == a@.subrange(
            "--hash-style="@.len() as int,
            a@.len() as int,
        )),
        r.0 == 10 ==> (r.1 matches Some(rest) && rest@ == a@.subrange(
            "--threads="@.len() as int,
            a@.len() as int,
        )),
        r.0 == 21 ==> (r.1 matches Some(rest) && rest@ == a@.subrange(
            "--version-script="@.len() as int,
            a@.len() as int,
        )),
        r.0 == 28 ==> (r.1 matches Some(rest) && rest@ == a@.subrange(
            "--debug-fuel="@.len() as int,
            a@.len() as int,
        )),
{
    proof {
        reveal(arg_branch_of);
    }
    if let Some(rest) = str_strip_prefix(a, "-L") {
        (0, Some(rest))
    } else if let Some(rest) = str_strip_prefix(a, "-l") {
        (1, Some(rest))
    } else if str_eq(a, "-static") || str_eq(a, "-Bstatic") {
        (2, None)
    } else if str_eq(a, "-Bdynamic") {
        (3, None)
    } else if str_eq(a, "-o") {
        (4, None)
    } else if str_eq(a, "--dynamic-linker") || str_eq(a, "-dynamic-linker") {
        (5, None)
    } else if str_eq(a, "--no-dynamic-linker") {
        (6, None)
    } else if let Some(rest) = str_strip_prefix(a, "--hash-style=") {
        (7, Some(rest))
    } else if str_starts_with(a, "--build-id=") {
        (8, None)
    } else if str_eq(a, "--time") {
        (9, None)
    } else if let Some(rest) = str_strip_prefix(a, "--threads=") {
        (10, Some(rest))
    } else if str_eq(a, "--strip-all") {
        (11, None)
    } else if str_eq(a, "--strip-debug") {
        (12, None)
    } else if str_eq(a, "-z") || str_eq(a, "-m") {
        (13, None)
    } else if str_starts_with(a, "-O") {
        (14, None)
    } else if str_eq(a, "--prepopulate-maps") {
        (15, None)
    } else if str_eq(a, "--sym-info") {
        (16, None)
    } else if str_eq(a, "--as-needed") {
        (17, None)
    } else if str_eq(a, "--no-as-needed") {
        (18, None)
    } else if str_eq(a, "--push-state") {
        (19, None)
    } else if str_eq(a, "--pop-state") {
        (20, None)
    } else if let Some(rest) = str_strip_prefix(a, "--version-script=") {
        (21, Some(rest))
    } else if str_eq(a, "--no-string-merge") {
        (22, None)
    } else if str_eq(a, "-pie") {
        (23, None)
    } else if str_eq(a, "-shared") {
        (24, None)
    } else if str_starts_with(a, "-plugin-opt=") {
        (25, None)
    } else if str_eq(a, "-plugin") {
        (26, None)
    } else if str_eq(a, "--validate-output") {
        (27, None)
    } else if let Some(rest) = str_strip_prefix(a, "--debug-fuel=") {
        (28, Some(rest))
    } else if str_eq(a, "--help") {
        (29, None)
    } else if str_eq(a, "--eh-frame-hdr") || str_eq(a, "--build-id") || str_eq(a, "--gc-sections")
        || str_eq(a, "--start-group") || str_eq(a, "--end-group") || str_eq(a, "-nostdlib")
        || str_eq(a, "--no-undefined-version") {
        (30, None)
    } else if str_starts_with(a, "-") {
        (31, None)
    } else {
        (32, None)
    }
}

/// Handles one argument whose grammar branch lies in this function's
/// range, advancing the cursor; part of `Args::parse`.
#[verifier::rlimit(100)]
fn parse_step_low(
    cur: &mut ParseCursor,
    argv: &Vec<String>,
    i: usize,
    default_threads: usize,
) -> (r: Result<usize, LinkError>)
    requires
        1 <= i < argv@.len(),
        old(cur)@.modifier_stack.len() >= 1,
        0 <= arg_branch_of(views_of_args(argv@)[i as int]) <= 9,
    ensures
        match r {
            Ok(j) => i < j <= argv@.len() && final(cur)@.modifier_stack.len() >= 1
                && spec_parse_from(views_of_args(argv@), j as int, final(cur)@, default_threads)
                == spec_parse_from(views_of_args(argv@), i as int, old(cur)@, default_threads),
            Err(e) => spec_parse_from(views_of_args(argv@), i as int, old(cur)@, default_threads)
                == Err::<ArgsV, LinkErrorV>(e@),
        },
{
    let ghost gargs = views_of_args(argv@);
    let ghost st0 = cur@;
    let ghost i0 = i as int;
    let n = argv.len();
    let arg: &String = &argv[i];
    let a: &str = arg.as_str();
    proof {
        assert(gargs[i0] == a@);
    }
    let (b, stripped) = classify_arg(a);
            if b == 0 {
                let rest = stripped.unwrap();
                if rest.is_empty() {
                    if i + 1 < n {
                        let nxt = argv[i + 1].clone();
                        cur.lib_search_path.push(nxt);
                        proof {
                            assert(cur@.lib_search_path =~= st0.lib_search_path.push(
                                gargs[i0 + 1],
                            ));
                            assert(cur@ =~= (ParseState {
                                lib_search_path: st0.lib_search_path.push(gargs[i0 + 1]),
                                ..st0
                            }));
                        }
                        return Ok(i + 2);
                    } else {
                        return Ok(i + 1);
                    }
                } else {
                    cur.lib_search_path.push(rest.to_owned());
                    proof {
                        assert(cur@.lib_search_path =~= st0.lib_search_path.push(
                            a@.subrange("-L"@.len() as int, a@.len() as int),
                        ));
                        assert(cur@ =~= (ParseState {
                            lib_search_path: st0.lib_search_path.push(
                                a@.subrange("-L"@.len() as int, a@.len() as int),
                            ),
                            ..st0
                        }));
                    }
                    return Ok(i + 1);
                }
            } else if b == 1 {
                let rest = stripped.unwrap();
                let idx = cur.modifier_stack.len() - 1;
                let m = cur.modifier_stack[idx];
                cur.inputs.push(
                    Input {
                        source: InputSpec::Lib(rest.to_owned()),
                        search_first: None,
                        modifiers: m,
                    },
                );
                proof {
                    assert(cur@.inputs =~= st0.inputs.push(
                        InputV {
                            source: InputSpecV::Lib(
                                a@.subrange("-l"@.len() as int, a@.len() as int),
                            ),
                            search_first: None,
                            modifiers: st0.modifier_stack.last(),
                        },
                    ));
                    assert(cur@ =~= (ParseState {
                        inputs: st0.inputs.push(
                            InputV {
                                source: InputSpecV::Lib(
                                    a@.subrange("-l"@.len() as int, a@.len() as int),
                                ),
                                search_first: None,
                                modifiers: st0.modifier_stack.last(),
                            },
                        ),
                        ..st0
                    }));
                }
                return Ok(i + 1);
            } else if b == 2 {
                let idx = cur.modifier_stack.len() - 1;
                let mut m = cur.modifier_stack[idx];
                m.allow_shared = false;
                cur.modifier_stack.set(idx, m);
                proof {
                    assert(cur@.modifier_stack =~= set_last(
                        st0.modifier_stack,
                        Modifiers { allow_shared: false, ..st0.modifier_stack.last() },
                    ));
                    assert(cur@ =~= (ParseState {
                        modifier_stack: set_last(
                            st0.modifier_stack,
                            Modifiers { allow_shared: false, ..st0.modifier_stack.last() },
                        ),
                        ..st0
                    }));
                }
                return Ok(i + 1);
            } else if b == 3 {
                let idx = cur.modifier_stack.len() - 1;
                let mut m = cur.modifier_stack[idx];
                m.allow_shared = true;
                cur.modifier_stack.set(idx, m);
                proof {
                    assert(cur@.modifier_stack =~= set_last(
                        st0.modifier_stack,
                        Modifiers { allow_shared: true, ..st0.modifier_stack.last() },
                    ));
                    assert(cur@ =~= (ParseState {
                        modifier_stack: set_last(
                            st0.modifier_stack,
                            Modifiers { allow_shared: true, ..st0.modifier_stack.last() },
                        ),
                        ..st0
                    }));
                }
                return Ok(i + 1);
            } else if b == 4 {
                if i + 1 < n {
                    cur.output = Some(argv[i + 1].clone());
                    proof {
                        assert(cur@ =~= (ParseState { output: Some(gargs[i0 + 1]), ..st0 }));
                    }
                    return Ok(i + 2);
                } else {
                    cur.output = None;
                    proof {
                        assert(cur@ =~= (ParseState { output: None, ..st0 }));
                    }
                    return Ok(i + 1);
                }
            } else if b == 5 {
                cur.output_kind = OutputKind::DynamicExecutable;
                if i + 1 < n {
                    cur.dynamic_linker = Some(argv[i + 1].clone());
                    proof {
                        assert(cur@ =~= (ParseState {
                            output_kind: OutputKind::DynamicExecutable,
                            dynamic_linker: Some(gargs[i0 + 1]),
                            ..st0
                        }));
                    }
                    return Ok(i + 2);
                } else {
                    cur.dynamic_linker = None;
                    proof {
                        assert(cur@ =~= (ParseState {
                            output_kind: OutputKind::DynamicExecutable,
                            dynamic_linker: None,
                            ..st0
                        }));
                    }
                    return Ok(i + 1);
                }
            } else if b == 6 {
                cur.dynamic_linker = None;
                proof {
                    assert(cur@ =~= (ParseState { dynamic_linker: None, ..st0 }));
                }
                return Ok(i + 1);
            } else if b == 7 {
                let style = stripped.unwrap();
                if !str_eq(style, "gnu") {
                    return Err(LinkError::UnsupportedHashStyle { style: style.to_owned() });
                }
                return Ok(i + 1);
            } else if b == 8 {
                return Ok(i + 1);
            } else if b == 9 {
                cur.time_phases = true;
                proof {
                    assert(cur@ =~= (ParseState { time_phases: true, ..st0 }));
                }
                return Ok(i + 1);
            } else {
                proof {
                    assert(false);
                }
                Ok(i + 1)
            }
}

/// Handles one argument whose grammar branch lies in this function's
/// range, advancing the cursor; part of `Args::parse`.
#[verifier::rlimit(100)]
fn parse_step_mid(
    cur: &mut ParseCursor,
    argv: &Vec<String>,
    i: usize,
    default_threads: usize,
) -> (r: Result<usize, LinkError>)
    requires
        1 <= i < argv@.len(),
        old(cur)@.modifier_stack.len() >= 1,
        10 <= arg_branch_of(views_of_args(argv@)[i as int]) <= 20,
    ensures
        match r {
            Ok(j) => i < j <= argv@.len() && final(cur)@.modifier_stack.len() >= 1
                && spec_parse_from(views_of_args(argv@), j as int, final(cur)@, default_threads)
                == spec_parse_from(views_of_args(argv@), i as int, old(cur)@, default_threads),
            Err(e) => spec_parse_from(views_of_args(argv@), i as int, old(cur)@, default_threads)
                == Err::<ArgsV, LinkErrorV>(e@),
        },
{
    let ghost gargs = views_of_args(argv@);
    let ghost st0 = cur@;
    let ghost i0 = i as int;
    let n = argv.len();
    let arg: &String = &argv[i];
    let a: &str = arg.as_str();
    proof {
        assert(gargs[i0] == a@);
    }
    let (b, stripped) = classify_arg(a);
            if b == 10 {
                let rest = stripped.unwrap();
                match parse_u64(rest) {
                    None => {
                        return Err(LinkError::InvalidNumber { arg: rest.to_owned() });
                    },
                    Some(v) => {
                        if v > usize::MAX as u64 {
                            return Err(LinkError::InvalidNumber { arg: rest.to_owned() });
                        }
                        if v == 0 {
                            return Err(LinkError::ZeroThreads);
                        }
                        cur.num_threads = Some(v as usize);
                        proof {
                            assert(cur@ =~= (ParseState {
                                num_threads: Some(v as usize),
                                ..st0
                            }));
                        }
                        return Ok(i + 1);
                    },
                }
            } else if b == 11 {
                cur.strip_all = true;
                cur.strip_debug = true;
                proof {
                    assert(cur@ =~= (ParseState { strip_all: true, strip_debug: true, ..st0 }));
                }
                return Ok(i + 1);
            } else if b == 12 {
                cur.strip_debug = true;
                proof {
                    assert(cur@ =~= (ParseState { strip_debug: true, ..st0 }));
                }
                return Ok(i + 1);
            } else if b == 13 {
                // This argument and the value after it are accepted and ignored.
                if i + 1 < n {
                    return Ok(i + 2);
                } else {
                    return Ok(i + 1);
                }
            } else if b == 14 {
                // The optimisation level is not used.
                return Ok(i + 1);
            } else if b == 15 {
                cur.prepopulate_maps = true;
                proof {
                    assert(cur@ =~= (ParseState { prepopulate_maps: true, ..st0 }));
                }
                return Ok(i + 1);
            } else if b == 16 {
                if i + 1 < n {
                    cur.sym_info = Some(argv[i + 1].clone());
                    proof {
                        assert(cur@ =~= (ParseState { sym_info: Some(gargs[i0 + 1]), ..st0 }));
                    }
                    return Ok(i + 2);
                } else {
                    cur.sym_info = None;
                    proof {
                        assert(cur@ =~= (ParseState { sym_info: None, ..st0 }));
                    }
                    return Ok(i + 1);
                }
            } else if b == 17 {
                let idx = cur.modifier_stack.len() - 1;
                let mut m = cur.modifier_stack[idx];
                m.as_needed = true;
                cur.modifier_stack.set(idx, m);
                proof {
                    assert(cur@.modifier_stack =~= set_last(
                        st0.modifier_stack,
                        Modifiers { as_needed: true, ..st0.modifier_stack.last() },
                    ));
                    assert(cur@ =~= (ParseState {
                        modifier_stack: set_last(
                            st0.modifier_stack,
                            Modifiers { as_needed: true, ..st0.modifier_stack.last() },
                        ),
                        ..st0
                    }));
                }
                return Ok(i + 1);
            } else if b == 18 {
                let idx = cur.modifier_stack.len() - 1;
                let mut m = cur.modifier_stack[idx];
                m.as_needed = false;
                cur.modifier_stack.set(idx, m);
                proof {
                    assert(cur@.modifier_stack =~= set_last(
                        st0.modifier_stack,
                        Modifiers { as_needed: false, ..st0.modifier_stack.last() },
                    ));
                    assert(cur@ =~= (ParseState {
                        modifier_stack: set_last(
                            st0.modifier_stack,
                            Modifiers { as_needed: false, ..st0.modifier_stack.last() },
                        ),
                        ..st0
                    }));
                }
                return Ok(i + 1);
            } else if b == 19 {
                let idx = cur.modifier_stack.len() - 1;
                let m = cur.modifier_stack[idx];
                cur.modifier_stack.push(m);
                proof {
                    assert(cur@.modifier_stack =~= st0.modifier_stack.push(
                        st0.modifier_stack.last(),
                    ));
                    assert(cur@ =~= (ParseState {
                        modifier_stack: st0.modifier_stack.push(st0.modifier_stack.last()),
                        ..st0
                    }));
                }
                return Ok(i + 1);
            } else if b == 20 {
                let _ = cur.modifier_stack.pop();
                // The initial value sits at the bottom of the stack, so an
                // empty stack means the arguments were invalid.
                if cur.modifier_stack.len() == 0 {
                    return Err(LinkError::MismatchedPopState);
                }
                proof {
                    assert(cur@.modifier_stack =~= st0.modifier_stack.drop_last());
                    assert(cur@ =~= (ParseState {
                        modifier_stack: st0.modifier_stack.drop_last(),
                        ..st0
                    }));
                }
                return Ok(i + 1);
            } else {
                proof {
                    assert(false);
                }
                Ok(i + 1)
            }
}

/// Handles one argument whose grammar branch lies in this function's
/// range, advancing the cursor; part of `Args::parse`.
#[verifier::rlimit(100)]
fn parse_step_high(
    cur: &mut ParseCursor,
    argv: &Vec<String>,
    i: usize,
    default_threads: usize,
) -> (r: Result<usize, LinkError>)
    requires
        1 <= i < argv@.len(),
        old(cur)@.modifier_stack.len() >= 1,
        21 <= arg_branch_of(views_of_args(argv@)[i as int]),
    ensures
        match r {
            Ok(j) => i < j <= argv@.len() && final(cur)@.modifier_stack.len() >= 1
                && spec_parse_from(views_of_args(argv@), j as int, final(cur)@, default_threads)
                == spec_parse_from(views_of_args(argv@), i as int, old(cur)@, default_threads),
            Err(e) => spec_parse_from(views_of_args(argv@), i as int, old(cur)@, default_threads)
                == Err::<ArgsV, LinkErrorV>(e@),
        },
{
    let ghost gargs = views_of_args(argv@);
    let ghost st0 = cur@;
    let ghost i0 = i as int;
    let n = argv.len();
    let arg: &String = &argv[i];
    let a: &str = arg.as_str();
    proof {
        assert(gargs[i0] == a@);
    }
    let (b, stripped) = classify_arg(a);
            if b == 21 {
                let script = stripped.unwrap();
                cur.version_script_path = Some(script.to_owned());
                proof {
                    assert(cur@ =~= (ParseState {
                        version_script_path: Some(
                            a@.subrange("--version-script="@.len() as int, a@.len() as int),
                        ),
                        ..st0
                    }));
                }
                return Ok(i + 1);
            } else if b == 22 {
                cur.merge_strings = false;
                proof {
                    assert(cur@ =~= (ParseState { merge_strings: false, ..st0 }));
                }
                return Ok(i + 1);
            } else if b == 23 {
                cur.pie = true;
                proof {
                    assert(cur@ =~= (ParseState { pie: true, ..st0 }));
                }
                return Ok(i + 1);
            } else if b == 24 {
                cur.output_kind = OutputKind::SharedObject;
                proof {
                    assert(cur@ =~= (ParseState {
                        output_kind: OutputKind::SharedObject,
                        ..st0
                    }));
                }
                return Ok(i + 1);
            } else if b == 25 {
                // Linker plugins are not supported; their options are ignored.
                return Ok(i + 1);
            } else if b == 26 {
                if i + 1 < n {
                    return Ok(i + 2);
                } else {
                    return Ok(i + 1);
                }
            } else if b == 27 {
                cur.validate_output = true;
                proof {
                    assert(cur@ =~= (ParseState { validate_output: true, ..st0 }));
                }
                return Ok(i + 1);
            } else if b == 28 {
                let rest = stripped.unwrap();
                match parse_i64(rest) {
                    None => {
                        return Err(LinkError::InvalidNumber { arg: rest.to_owned() });
                    },
                    Some(f) => {
                        cur.debug_fuel = Some(f);
                        proof {
                            assert(cur@ =~= (ParseState { debug_fuel: Some(f), ..st0 }));
                        }
                        return Ok(i + 1);
                    },
                }
            } else if b == 29 {
                return Err(LinkError::HelpRequested);
            } else if b == 30 {
                // Flags that do not affect behaviour are accepted and ignored.
                return Ok(i + 1);
            } else if b == 31 {
                return Err(LinkError::UnrecognisedArgument { arg: arg.clone() });
            } else {
                let idx = cur.modifier_stack.len() - 1;
                let m = cur.modifier_stack[idx];
                cur.inputs.push(
                    Input {
                        source: InputSpec::File(arg.clone()),
                        search_first: None,
                        modifiers: m,
                    },
                );
                proof {
                    assert(cur@.inputs =~= st0.inputs.push(
                        InputV {
                            source: InputSpecV::File(a@),
                            search_first: None,
                            modifiers: st0.modifier_stack.last(),
                        },
                    ));
                    assert(cur@ =~= (ParseState {
                        inputs: st0.inputs.push(
                            InputV {
                                source: InputSpecV::File(a@),
                                search_first: None,
                                modifiers: st0.modifier_stack.last(),
                            },
                        ),
                        ..st0
                    }));
                }
                return Ok(i + 1);
            }
}

impl Args {
    /// Parses the supplied argument list, whose first element is the program
    /// name. `default_threads` is the worker count used when no `--threads=`
    /// argument appears (the callers pass the machine's available
    /// parallelism).
    #[verifier::rlimit(100)]
    pub fn parse(argv: &Vec<String>, default_threads: usize) -> (r: Result<Args, LinkError>)
        requires
            default_threads >= 1,
        ensures
            match r {
                Ok(a) => spec_parse(views_of_args(argv@), default_threads)
                    == Ok::<ArgsV, LinkErrorV>(a@),
                Err(e) => spec_parse(views_of_args(argv@), default_threads)
                    == Err::<ArgsV, LinkErrorV>(e@),
            },
    {
        let ghost gargs = views_of_args(argv@);
        let mut cur = ParseCursor {
            lib_search_path: Vec::new(),
            inputs: Vec::new(),
            output: None,
            dynamic_linker: None,
            output_kind: OutputKind::StaticExecutable,
            num_threads: None,
            strip_all: false,
            strip_debug: false,
            prepopulate_maps: false,
            sym_info: None,
            merge_strings: true,
            debug_fuel: None,
            time_phases: false,
            validate_output: false,
            pie: false,
            version_script_path: None,
            modifier_stack: Vec::new(),
        };
        cur.modifier_stack.push(Modifiers { as_needed: false, allow_shared: true });
        proof {
            assert(cur@.modifier_stack =~= init_state().modifier_stack);
            assert(cur@.lib_search_path =~= init_state().lib_search_path);
            assert(cur@.inputs =~= init_state().inputs);
            assert(cur@ =~= init_state());
        }
        let mut i: usize = 1;
        while i < argv.len()
            invariant
                1 <= i,
                cur.modifier_stack.len() >= 1,
                gargs == views_of_args(argv@),
                spec_parse_from(gargs, i as int, cur@, default_threads) == spec_parse(
                    gargs,
                    default_threads,
                ),
            decreases argv.len() - i,
        {
            let arg0: &String = &argv[i];
            let b_pair = classify_arg(arg0.as_str());
            proof {
                assert(views_of_args(argv@)[i as int] == arg0@);
            }
            let step: Result<usize, LinkError> = if b_pair.0 <= 9 {
                parse_step_low(&mut cur, argv, i, default_threads)
            } else if b_pair.0 <= 20 {
                parse_step_mid(&mut cur, argv, i, default_threads)
            } else {
                parse_step_high(&mut cur, argv, i, default_threads)
            };
            match step {
                Ok(j) => {
                    i = j;
                },
                Err(e) => {
                    return Err(e);
                },
            }
        }
        let ghost stf = cur@;
        let ParseCursor {
            lib_search_path,
            inputs,
            output,
            dynamic_linker,
            output_kind,
            num_threads,
            strip_all,
            strip_debug,
            prepopulate_maps,
            sym_info,
            merge_strings,
            debug_fuel,
            time_phases,
            validate_output,
            pie,
            version_script_path,
            modifier_stack: _,
        } = cur;
        let output = match output {
            Some(o) => o,
            None => {
                return Err(LinkError::MissingOutput);
            },
        };
        // Debug fuel with more than one worker would give
        // non-deterministic results, so an enabled budget forces a single
        // worker whatever `--threads=` asked for.
        let num_threads = if debug_fuel.is_some() {
            1
        } else {
            match num_threads {
                Some(n) => n,
                None => default_threads,
            }
        };
        let args_out = Args {
            lib_search_path,
            inputs,
            output,
            dynamic_linker,
            output_kind,
            num_threads,
            strip_all,
            strip_debug,
            prepopulate_maps,
            sym_info,
            merge_strings,
            debug_fuel,
            time_phases,
            validate_output,
            pie,
            version_script_path,
        };
        proof {
            assert(spec_finalize(stf, default_threads) == Ok::<ArgsV, LinkErrorV>(args_out@));
        }
        Ok(args_out)
    }
}

} // verus!
