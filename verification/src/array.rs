//! The columnar data model: immutable, typed, null-aware arrays.
//!
//! An array holds plain values (integers, booleans, UTF-8 bytes, binary
//! runs, pre-rendered display text) together with an optional validity
//! mask, and nests recursively for lists, records, maps and dictionaries.
//! Variable-length containers carry an offsets buffer: the child range for
//! row `i` is `[offsets[i], offsets[i+1])`.

use vstd::prelude::*;

verus! {

/// A validity mask over an array: `valid[i]` is false when row `i` is null.
/// The absence of a mask (an `Option<Nulls>` holding `None`) means the
/// array has no nulls and all null checks can be skipped.
#[derive(Debug, Clone)]
pub struct Nulls {
    pub valid: Vec<bool>,
}

impl Nulls {
    /// The number of rows covered by the mask.
    pub open spec fn len(&self) -> nat {
        self.valid@.len()
    }

    /// Whether row `i` is null under this mask.
    pub open spec fn spec_is_null(&self, i: int) -> bool {
        !self.valid@[i]
    }

    /// Reports whether row `idx` is null.
    pub fn is_null(&self, idx: usize) -> (r: bool)
        requires
            idx < self.len(),
        ensures
            r == self.spec_is_null(idx as int),
    {
        !self.valid[idx]
    }
}

/// Whether row `i` is null under an optional mask; no mask means no nulls.
pub open spec fn null_at(nulls: Option<Nulls>, i: int) -> bool {
    match nulls {
        Option::Some(n) => n.spec_is_null(i),
        Option::None => false,
    }
}

/// The mask length is consistent with the array length, when present.
pub open spec fn nulls_ok(nulls: Option<Nulls>, len: nat) -> bool {
    match nulls {
        Option::Some(n) => n.len() == len,
        Option::None => true,
    }
}

/// Every row of a validity sequence is marked valid.
pub open spec fn all_valid(s: Seq<bool>) -> bool {
    forall|i: int| 0 <= i < s.len() ==> #[trigger] s[i]
}

/// Whether an optional mask actually marks at least one row null.
pub open spec fn has_set_null(nulls: Option<Nulls>) -> bool {
    match nulls {
        Option::Some(n) => !all_valid(n.valid@),
        Option::None => false,
    }
}

/// The uniform null predicate: maps an optional validity mask and a row
/// index to whether that row is null, identically for every encoder.
pub fn is_null_optional_buffer(nulls: &Option<Nulls>, idx: usize) -> (r: bool)
    requires
        match nulls {
            Option::Some(n) => idx < n.len(),
            Option::None => true,
        },
    ensures
        r == null_at(*nulls, idx as int),
{
    match nulls {
        Option::Some(n) => n.is_null(idx),
        Option::None => false,
    }
}

/// A named column. The logical type and any nested children live in the
/// paired [`ArrayData`]; the field contributes the UTF-8 name under which
/// a record renders the column.
#[derive(Debug, Clone)]
pub struct Field {
    pub name: Vec<u8>,
}

/// One finite floating-point value, already rendered to its JSON-legal
/// numeric text, or the marker for a non-finite value. Non-finite values
/// render as the `null` literal at format time; this is a value-level
/// sentinel, orthogonal to nullness.
#[derive(Debug, Clone)]
pub enum FloatValue {
    Finite(Vec<u8>),
    NonFinite,
}

/// The values of a primitive column, by width class.
#[derive(Debug, Clone)]
pub enum PrimValues {
    /// Signed integers of any width up to 64 bits.
    Int(Vec<i64>),
    /// Unsigned integers of any width up to 64 bits.
    UInt(Vec<u64>),
    /// Floating-point values of any width, as [`FloatValue`]s.
    Float(Vec<FloatValue>),
}

impl PrimValues {
    /// The number of rows.
    pub open spec fn len(&self) -> nat {
        match self {
            PrimValues::Int(v) => v@.len(),
            PrimValues::UInt(v) => v@.len(),
            PrimValues::Float(v) => v@.len(),
        }
    }
}

/// One field of a record array: the field description plus its column.
#[derive(Debug)]
pub struct StructField {
    pub field: Field,
    pub array: ArrayData,
}

/// A columnar array: the logical type together with its physical data.
#[derive(Debug)]
pub enum ArrayData {
    /// The null type: every row is null.
    Null { len: usize },
    /// Booleans.
    Boolean { values: Vec<bool>, nulls: Option<Nulls> },
    /// Integer or floating-point values.
    Primitive { values: PrimValues, nulls: Option<Nulls> },
    /// UTF-8 text, one byte run per row.
    Utf8 { values: Vec<Vec<u8>>, nulls: Option<Nulls> },
    /// Opaque binary, one byte run per row; renders as lowercase hex.
    Binary { values: Vec<Vec<u8>>, nulls: Option<Nulls> },
    /// A variable-length list; `offsets` has one entry per row plus one.
    List { offsets: Vec<usize>, values: Box<ArrayData>, nulls: Option<Nulls> },
    /// A list of fixed width `value_length` per row.
    FixedSizeList {
        len: usize,
        value_length: usize,
        values: Box<ArrayData>,
        nulls: Option<Nulls>,
    },
    /// A record: named, independently nullable child columns of length `len`.
    Struct { fields: Vec<StructField>, len: usize, nulls: Option<Nulls> },
    /// A dictionary-encoded column: per-row keys into a shared value array.
    /// `nulls` is the column's logical mask, already accounting for null or
    /// invalid keys.
    Dictionary { keys: Vec<usize>, values: Box<ArrayData>, nulls: Option<Nulls> },
    /// A map: entry ranges defined by `offsets` over parallel key and value
    /// arrays; `entries_nulls` is the physical mask over entry slots.
    MapArray {
        offsets: Vec<usize>,
        keys: Box<ArrayData>,
        values: Box<ArrayData>,
        entries_nulls: Option<Nulls>,
        nulls: Option<Nulls>,
    },
    /// A temporal column, each row pre-rendered by the general scalar
    /// display formatter; renders quoted.
    Temporal { texts: Vec<Vec<u8>>, nulls: Option<Nulls> },
    /// A decimal column, each row pre-rendered by the general scalar
    /// display formatter; renders unquoted, as a raw JSON number.
    Decimal { texts: Vec<Vec<u8>>, nulls: Option<Nulls> },
    /// A logical type the default dispatch rules cannot handle; carries the
    /// type's name for error reporting and an extension hook's inspection.
    Unsupported { label: Vec<u8>, len: usize },
}

/// A monotonically non-decreasing offsets buffer.
pub open spec fn offsets_monotone(o: Seq<usize>) -> bool {
    forall|a: int, b: int| 0 <= a <= b < o.len() ==> o[a] <= o[b]
}

impl ArrayData {
    /// The number of rows.
    pub open spec fn len(&self) -> nat {
        match self {
            ArrayData::Null { len } => *len as nat,
            ArrayData::Boolean { values, .. } => values@.len(),
            ArrayData::Primitive { values, .. } => values.len(),
            ArrayData::Utf8 { values, .. } => values@.len(),
            ArrayData::Binary { values, .. } => values@.len(),
            ArrayData::List { offsets, .. } => if offsets@.len() == 0 {
                0
            } else {
                (offsets@.len() - 1) as nat
            },
            ArrayData::FixedSizeList { len, .. } => *len as nat,
            ArrayData::Struct { len, .. } => *len as nat,
            ArrayData::Dictionary { keys, .. } => keys@.len(),
            ArrayData::MapArray { offsets, .. } => if offsets@.len() == 0 {
                0
            } else {
                (offsets@.len() - 1) as nat
            },
            ArrayData::Temporal { texts, .. } => texts@.len(),
            ArrayData::Decimal { texts, .. } => texts@.len(),
            ArrayData::Unsupported { len, .. } => *len as nat,
        }
    }

    /// Whether row `i` is null at this array's own (logical) level.
    pub open spec fn spec_is_null(&self, i: int) -> bool {
        match self {
            ArrayData::Null { .. } => true,
            ArrayData::Boolean { nulls, .. } => null_at(*nulls, i),
            ArrayData::Primitive { nulls, .. } => null_at(*nulls, i),
            ArrayData::Utf8 { nulls, .. } => null_at(*nulls, i),
            ArrayData::Binary { nulls, .. } => null_at(*nulls, i),
            ArrayData::List { nulls, .. } => null_at(*nulls, i),
            ArrayData::FixedSizeList { nulls, .. } => null_at(*nulls, i),
            ArrayData::Struct { nulls, .. } => null_at(*nulls, i),
            ArrayData::Dictionary { nulls, .. } => null_at(*nulls, i),
            ArrayData::MapArray { nulls, .. } => null_at(*nulls, i),
            ArrayData::Temporal { nulls, .. } => null_at(*nulls, i),
            ArrayData::Decimal { nulls, .. } => null_at(*nulls, i),
            ArrayData::Unsupported { .. } => false,
        }
    }

    /// Whether a null mask is present at all at this array's own level.
    pub open spec fn spec_has_nulls(&self) -> bool {
        match self {
            ArrayData::Null { .. } => true,
            ArrayData::Boolean { nulls, .. } => nulls is Some,
            ArrayData::Primitive { nulls, .. } => nulls is Some,
            ArrayData::Utf8 { nulls, .. } => nulls is Some,
            ArrayData::Binary { nulls, .. } => nulls is Some,
            ArrayData::List { nulls, .. } => nulls is Some,
            ArrayData::FixedSizeList { nulls, .. } => nulls is Some,
            ArrayData::Struct { nulls, .. } => nulls is Some,
            ArrayData::Dictionary { nulls, .. } => nulls is Some,
            ArrayData::MapArray { nulls, .. } => nulls is Some,
            ArrayData::Temporal { nulls, .. } => nulls is Some,
            ArrayData::Decimal { nulls, .. } => nulls is Some,
            ArrayData::Unsupported { .. } => false,
        }
    }

    /// Whether some row is actually marked null at this array's own level:
    /// a mask with a set null bit, or the null type with any rows at all.
    pub open spec fn spec_has_set_null(&self) -> bool {
        match self {
            ArrayData::Null { len } => *len > 0,
            ArrayData::Boolean { nulls, .. } => has_set_null(*nulls),
            ArrayData::Primitive { nulls, .. } => has_set_null(*nulls),
            ArrayData::Utf8 { nulls, .. } => has_set_null(*nulls),
            ArrayData::Binary { nulls, .. } => has_set_null(*nulls),
            ArrayData::List { nulls, .. } => has_set_null(*nulls),
            ArrayData::FixedSizeList { nulls, .. } => has_set_null(*nulls),
            ArrayData::Struct { nulls, .. } => has_set_null(*nulls),
            ArrayData::Dictionary { nulls, .. } => has_set_null(*nulls),
            ArrayData::MapArray { nulls, .. } => has_set_null(*nulls),
            ArrayData::Temporal { nulls, .. } => has_set_null(*nulls),
            ArrayData::Decimal { nulls, .. } => has_set_null(*nulls),
            ArrayData::Unsupported { .. } => false,
        }
    }

    /// Structural well-formedness: masks cover the rows, offsets are
    /// monotone and stay within the child, fixed-size rows fit the child,
    /// record children match the record's length, and dictionary keys of
    /// non-null rows resolve to non-null child indices.
    pub open spec fn wf(&self) -> bool
        decreases self,
    {
        match self {
            ArrayData::Null { .. } => true,
            ArrayData::Boolean { values, nulls } => nulls_ok(*nulls, values@.len()),
            ArrayData::Primitive { values, nulls } => nulls_ok(*nulls, values.len()),
            ArrayData::Utf8 { values, nulls } => nulls_ok(*nulls, values@.len()),
            ArrayData::Binary { values, nulls } => nulls_ok(*nulls, values@.len()),
            ArrayData::List { offsets, values, nulls } => {
                &&& offsets@.len() >= 1
                &&& offsets_monotone(offsets@)
                &&& offsets@.last() as nat <= values.len()
                &&& nulls_ok(*nulls, (offsets@.len() - 1) as nat)
                &&& values.wf()
            },
            ArrayData::FixedSizeList { len, value_length, values, nulls } => {
                &&& *len as nat * *value_length as nat <= values.len()
                &&& nulls_ok(*nulls, *len as nat)
                &&& values.wf()
            },
            ArrayData::Struct { fields, len, nulls } => {
                &&& nulls_ok(*nulls, *len as nat)
                &&& forall|k: int|
                    0 <= k < fields@.len() ==> {
                        &&& (#[trigger] fields@[k]).array.wf()
                        &&& fields@[k].array.len() == *len as nat
                    }
            },
            ArrayData::Dictionary { keys, values, nulls } => {
                &&& nulls_ok(*nulls, keys@.len())
                &&& values.wf()
                &&& forall|i: int| #![trigger keys@[i]]
                    0 <= i < keys@.len() && !null_at(*nulls, i) ==> {
                        &&& (keys@[i] as nat) < values.len()
                        &&& !values.spec_is_null(keys@[i] as int)
                    }
            },
            ArrayData::MapArray { offsets, keys, values, entries_nulls, nulls } => {
                &&& offsets@.len() >= 1
                &&& offsets_monotone(offsets@)
                &&& keys.len() == values.len()
                &&& offsets@.last() as nat <= keys.len()
                &&& nulls_ok(*entries_nulls, keys.len())
                &&& nulls_ok(*nulls, (offsets@.len() - 1) as nat)
                &&& keys.wf()
                &&& values.wf()
            },
            ArrayData::Temporal { texts, nulls } => nulls_ok(*nulls, texts@.len()),
            ArrayData::Decimal { texts, nulls } => nulls_ok(*nulls, texts@.len()),
            ArrayData::Unsupported { .. } => true,
        }
    }
}

} // verus!
