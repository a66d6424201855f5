//! Row-oriented JSON rendering of columnar, typed, null-aware array data.
//!
//! The crate's core is an encoder-tree engine: a dispatcher inspects a
//! column's logical shape and builds a matching tree of per-type encoders,
//! and the tree renders one row at a time directly into an output byte
//! buffer, preserving exact null semantics across bitmaps, dictionaries and
//! record fields.

use vstd::prelude::*;

pub mod array;
pub mod dispatch;
pub mod encoder;
pub mod fsst;
pub mod fsst_decoder;
pub mod fsst_encoder;
pub mod json;
pub mod laws;
pub mod shredding;

verus! {

/// How record (struct) typed rows are rendered.
#[derive(Debug, Clone, Copy, PartialEq, Eq, Structural)]
pub enum StructMode {
    /// Records render as JSON objects: `{"field":value,...}`.
    ObjectOnly,
    /// Records render as positional JSON arrays: `[value,...]` in declared
    /// field order; null slots are never dropped.
    ListOnly,
}

impl Default for StructMode {
    /// The default rendering mode is JSON objects.
    fn default() -> (r: Self)
        ensures
            r == StructMode::ObjectOnly,
    {
        StructMode::ObjectOnly
    }
}

/// Configuration for one encode pass; immutable for its duration.
#[derive(Debug, Clone, Copy, PartialEq, Eq, Structural)]
pub struct EncoderOptions {
    /// When false (the default), null-valued record and map fields are
    /// omitted entirely rather than rendered as the `null` literal.
    pub explicit_nulls: bool,
    /// Whether records render as objects or as positional arrays.
    pub struct_mode: StructMode,
}

impl Default for EncoderOptions {
    /// By default nulls are dropped and records render as objects.
    fn default() -> (r: Self)
        ensures
            r == (EncoderOptions { explicit_nulls: false, struct_mode: StructMode::ObjectOnly }),
    {
        EncoderOptions { explicit_nulls: false, struct_mode: StructMode::ObjectOnly }
    }
}

/// Errors reported while building an encoder tree.
///
/// All of these are construction-time schema/shape mismatches: once a tree
/// is built, rendering a non-null row cannot fail.
#[derive(Debug, Clone, PartialEq, Eq, Structural)]
pub enum Error {
    /// The dispatcher has no rule for the column's logical type.
    UnsupportedType,
    /// Map keys are not UTF-8 text.
    InvalidMapKeyType,
    /// Null map keys, or null map entry slots at the physical level.
    MalformedMapData,
    /// The scalar display formatter backing a fallback-formatted column
    /// could not represent a value. The formatter itself runs in the
    /// caller that pre-renders temporal and decimal rows for the model, so
    /// nothing inside the core constructs this variant; it is reserved for
    /// that caller to report the formatter's eager, build-time failure.
    FormatterFailure,
    /// The root array reports a null row; a top-level row source must be
    /// non-nullable, so this signals caller misuse rather than a data error.
    NullableRoot,
}

} // verus!
