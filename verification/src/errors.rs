//! Structured error values for the whole link pipeline.
//!
//! Every error carries enough context (symbol name, file, relocation code,
//! address) for a thin CLI layer to render an actionable diagnostic. No error
//! is ever downgraded or retried: a link either fully succeeds or aborts.

use vstd::prelude::*;

verus! {

/// One error of the link pipeline.
///
/// The taxonomy follows the design: configuration errors, resolution errors,
/// layout errors, relocation-range errors, and validation mismatches.
#[derive(Debug, Clone, PartialEq, Eq)]
pub enum LinkError {
    /// A `--hash-style=` other than `gnu` was requested.
    UnsupportedHashStyle { style: String },
    /// An argument starting with `-` that the parser does not know.
    UnrecognisedArgument { arg: String },
    /// `--pop-state` without a matching `--push-state`.
    MismatchedPopState,
    /// The required `-o` argument was never given.
    MissingOutput,
    /// A numeric argument (thread count, debug fuel) that does not parse or
    /// is out of range; `arg` is the text that failed to parse.
    InvalidNumber { arg: String },
    /// `--threads=0`: the worker pool must have at least one thread.
    ZeroThreads,
    /// `--help` was requested; rendering help is left to the CLI layer.
    HelpRequested,
    /// A relocation-type code outside the supported table.
    UnsupportedRelocationType { code: u32 },
    /// A symbol was referenced but never defined by any loaded input.
    UndefinedSymbol { name: String, referencing_files: Vec<usize> },
    /// The running address cursor overflowed the 64-bit address space.
    AddressSpaceOverflow,
    /// A section alignment that is zero or not a power of two.
    InvalidAlignment { alignment: u64 },
    /// A computed relocation value does not fit the relocation's byte width.
    RelocationOutOfRange { value: i128, byte_size: usize },
    /// The emitted file could not be parsed back as an ELF image.
    OutputParseFailed,
    /// The emitted file has no `.got` section to validate.
    MissingGotSection,
    /// A GOT slot's address lies beyond the end of the `.got` section data.
    GotOffsetOutOfBounds { end_offset: u64 },
    /// A GOT slot holds a different value than the layout intended.
    GotValueMismatch { name: String, expected: u64, got_address: u64, found: u64 },
}

/// The spec-level shape of a `LinkError`: strings become character
/// sequences, vectors become sequences.
#[verifier::ext_equal]
pub enum LinkErrorV {
    UnsupportedHashStyle { style: Seq<char> },
    UnrecognisedArgument { arg: Seq<char> },
    MismatchedPopState,
    MissingOutput,
    InvalidNumber { arg: Seq<char> },
    ZeroThreads,
    HelpRequested,
    UnsupportedRelocationType { code: u32 },
    UndefinedSymbol { name: Seq<char>, referencing_files: Seq<usize> },
    AddressSpaceOverflow,
    InvalidAlignment { alignment: u64 },
    RelocationOutOfRange { value: i128, byte_size: usize },
    OutputParseFailed,
    MissingGotSection,
    GotOffsetOutOfBounds { end_offset: u64 },
    GotValueMismatch { name: Seq<char>, expected: u64, got_address: u64, found: u64 },
}

impl View for LinkError {
    type V = LinkErrorV;

    open spec fn view(&self) -> LinkErrorV {
        match self {
            LinkError::UnsupportedHashStyle { style } => LinkErrorV::UnsupportedHashStyle {
                style: style@,
            },
            LinkError::UnrecognisedArgument { arg } => LinkErrorV::UnrecognisedArgument {
                arg: arg@,
            },
            LinkError::MismatchedPopState => LinkErrorV::MismatchedPopState,
            LinkError::MissingOutput => LinkErrorV::MissingOutput,
            LinkError::InvalidNumber { arg } => LinkErrorV::InvalidNumber { arg: arg@ },
            LinkError::ZeroThreads => LinkErrorV::ZeroThreads,
            LinkError::HelpRequested => LinkErrorV::HelpRequested,
            LinkError::UnsupportedRelocationType { code } => {
                LinkErrorV::UnsupportedRelocationType { code: *code }
            },
            LinkError::UndefinedSymbol { name, referencing_files } => {
                LinkErrorV::UndefinedSymbol {
                    name: name@,
                    referencing_files: referencing_files@,
                }
            },
            LinkError::AddressSpaceOverflow => LinkErrorV::AddressSpaceOverflow,
            LinkError::InvalidAlignment { alignment } => LinkErrorV::InvalidAlignment {
                alignment: *alignment,
            },
            LinkError::RelocationOutOfRange { value, byte_size } => {
                LinkErrorV::RelocationOutOfRange { value: *value, byte_size: *byte_size }
            },
            LinkError::OutputParseFailed => LinkErrorV::OutputParseFailed,
            LinkError::MissingGotSection => LinkErrorV::MissingGotSection,
            LinkError::GotOffsetOutOfBounds { end_offset } => {
                LinkErrorV::GotOffsetOutOfBounds { end_offset: *end_offset }
            },
            LinkError::GotValueMismatch { name, expected, got_address, found } => {
                LinkErrorV::GotValueMismatch {
                    name: name@,
                    expected: *expected,
                    got_address: *got_address,
                    found: *found,
                }
            },
        }
    }
}

} // verus!
