//! The dispatcher: inspects a column's logical shape and builds the
//! matching tree of per-type encoders, recursing for nested types.
//!
//! An optional extension hook ([`EncoderFactory`]) is consulted first at
//! every recursive level; if it returns an encoder, that encoder preempts
//! all default rules for the (field, array) pair, including its own null
//! semantics. All errors are construction-time schema/shape mismatches:
//! [`build_err`] pins down exactly which error the default rules report,
//! and [`builds_from`] pins down exactly which tree they return.

use vstd::prelude::*;

use crate::array::{all_valid, has_set_null, ArrayData, Field, Nulls, StructField};
use crate::encoder::{
    BinaryEncoder, BooleanEncoder, DictionaryEncoder, Encoder, FieldEncoder,
    FixedSizeListEncoder, JsonArrayFormatter, ListEncoder, MapEncoder, NullEncoder,
    PrimitiveEncoder, RawArrayFormatter, StringEncoder, StructArrayEncoder,
};
use crate::{EncoderOptions, Error};

verus! {

/// A hook to create custom encoders for specific columns.
///
/// This allows overriding the default encoders for specific data types, or
/// adding encoders for logical types the default dispatcher rejects. A
/// returned encoder is used unmodified, so the hook assumes full
/// responsibility for its behaviour, including its null semantics; it must
/// at least hand back a well-formed tree covering the array's rows.
pub trait EncoderFactory {
    /// Make an encoder that, if returned, runs before all default rules.
    fn make_default_encoder(
        &self,
        field: &Field,
        array: &ArrayData,
        options: &EncoderOptions,
    ) -> (r: Result<Option<Encoder>, Error>)
        ensures
            match r {
                Result::Ok(Option::Some(e)) => {
                    &&& e.wf()
                    &&& e.len() == array.len()
                    &&& forall|i: int|
                        0 <= i < array.len() ==> e.spec_is_null(i) == #[trigger] array.spec_is_null(i)
                },
                _ => true,
            },
    ;
}

/// A factory that never overrides: every column takes the default rules.
pub struct NoFactory;

impl EncoderFactory for NoFactory {
    fn make_default_encoder(
        &self,
        field: &Field,
        array: &ArrayData,
        options: &EncoderOptions,
    ) -> (r: Result<Option<Encoder>, Error>)
    {
        Result::Ok(Option::None)
    }
}

/// The error the default dispatch rules report for `a`, if any: the
/// dispatcher has no rule for an unsupported logical type; map keys must be
/// UTF-8 text; a map with a null key, or with a physical null among its
/// entry slots, is malformed. Children are checked in declared order,
/// depth first, and the first error wins.
pub open spec fn build_err(a: ArrayData) -> Option<Error>
    decreases a, 0int, 0int,
{
    match a {
        ArrayData::Null { .. } => Option::None,
        ArrayData::Boolean { .. } => Option::None,
        ArrayData::Primitive { .. } => Option::None,
        ArrayData::Utf8 { .. } => Option::None,
        ArrayData::Binary { .. } => Option::None,
        ArrayData::List { values, .. } => build_err(*values),
        ArrayData::FixedSizeList { values, .. } => build_err(*values),
        ArrayData::Struct { fields, .. } => struct_build_err(fields@, 0),
        ArrayData::Dictionary { values, .. } => build_err(*values),
        ArrayData::MapArray { keys, values, entries_nulls, .. } => {
            if !(*keys matches ArrayData::Utf8 { .. }) {
                Option::Some(Error::InvalidMapKeyType)
            } else if build_err(*values) is Some {
                build_err(*values)
            } else if keys.spec_has_set_null() {
                Option::Some(Error::MalformedMapData)
            } else if has_set_null(entries_nulls) {
                Option::Some(Error::MalformedMapData)
            } else {
                Option::None
            }
        },
        ArrayData::Temporal { .. } => Option::None,
        ArrayData::Decimal { .. } => Option::None,
        ArrayData::Unsupported { .. } => Option::Some(Error::UnsupportedType),
    }
}

/// The first error among the record fields from position `k` on.
pub open spec fn struct_build_err(fields: Seq<StructField>, k: int) -> Option<Error>
    decreases fields, 1int, fields.len() - k,
{
    if k < 0 || k >= fields.len() {
        Option::None
    } else if build_err(fields[k].array) is Some {
        build_err(fields[k].array)
    } else {
        struct_build_err(fields, k + 1)
    }
}

/// The encoder tree the default dispatch rules return for `a` under
/// `opts`: each variant of the model maps to its matching encoder, with
/// children built recursively in declared order.
pub open spec fn builds_from(e: Encoder, a: ArrayData, opts: EncoderOptions) -> bool
    decreases a, 0int, 0int,
{
    match a {
        ArrayData::Null { len } => e == Encoder::Null(NullEncoder { len }),
        ArrayData::Boolean { values, nulls } => e == Encoder::Boolean(
            BooleanEncoder { values, nulls },
        ),
        ArrayData::Primitive { values, nulls } => e == Encoder::Primitive(
            PrimitiveEncoder { values, nulls },
        ),
        ArrayData::Utf8 { values, nulls } => e == Encoder::Utf8(StringEncoder { values, nulls }),
        ArrayData::Binary { values, nulls } => e == Encoder::Binary(
            BinaryEncoder { values, nulls },
        ),
        ArrayData::List { offsets, values, nulls } => {
            &&& e matches Encoder::List(l)
            &&& l.offsets == offsets
            &&& l.nulls == nulls
            &&& builds_from(*l.encoder, *values, opts)
        },
        ArrayData::FixedSizeList { len, value_length, values, nulls } => {
            &&& e matches Encoder::FixedSizeList(f)
            &&& f.len == len
            &&& f.value_length == value_length
            &&& f.nulls == nulls
            &&& builds_from(*f.encoder, *values, opts)
        },
        ArrayData::Struct { fields, len, nulls } => {
            &&& e matches Encoder::Struct(s)
            &&& s.len == len
            &&& s.nulls == nulls
            &&& s.explicit_nulls == opts.explicit_nulls
            &&& s.struct_mode == opts.struct_mode
            &&& s.encoders@.len() == fields@.len()
            &&& forall|k: int|
                0 <= k < fields@.len() ==> {
                    &&& (#[trigger] s.encoders@[k]).field == fields@[k].field
                    &&& builds_from(s.encoders@[k].encoder, fields@[k].array, opts)
                }
        },
        ArrayData::Dictionary { keys, values, nulls } => {
            &&& e matches Encoder::Dictionary(d)
            &&& d.keys == keys
            &&& d.nulls == nulls
            &&& builds_from(*d.encoder, *values, opts)
        },
        ArrayData::MapArray { offsets, keys, values, entries_nulls, nulls } => {
            &&& e matches Encoder::MapArray(m)
            &&& m.offsets == offsets
            &&& m.nulls == nulls
            &&& m.explicit_nulls == opts.explicit_nulls
            &&& builds_from(*m.keys, *keys, opts)
            &&& builds_from(*m.values, *values, opts)
        },
        ArrayData::Temporal { texts, nulls } => e == Encoder::Formatted(
            JsonArrayFormatter { texts, nulls },
        ),
        ArrayData::Decimal { texts, nulls } => e == Encoder::RawFormatted(
            RawArrayFormatter { inner: JsonArrayFormatter { texts, nulls } },
        ),
        ArrayData::Unsupported { .. } => false,
    }
}

/// Scans an optional validity mask for any row actually marked null;
/// mirrors a null count check on the physical mask.
fn mask_has_set_null(nulls: &Option<Nulls>) -> (r: bool)
    ensures
        r == has_set_null(*nulls),
{
    match nulls {
        Option::None => false,
        Option::Some(n) => {
            let len = n.valid.len();
            let mut i: usize = 0;
            while i < len
                invariant
                    *nulls == Option::Some(*n),
                    i <= len,
                    len == n.valid@.len(),
                    forall|j: int| 0 <= j < i ==> n.valid@[j],
                decreases len - i,
            {
                if !n.valid[i] {
                    proof {
                        assert(!all_valid(n.valid@)) by {
                            assert(!n.valid@[i as int]);
                        }
                    }
                    return true;
                }
                i = i + 1;
            }
            false
        },
    }
}

impl ListEncoder {
    /// Builds a list encoder: the child encoder is built recursively over
    /// the child array, and the list keeps its offsets and logical mask.
    fn try_new<F: EncoderFactory>(
        field: &Field,
        array: ArrayData,
        options: &EncoderOptions,
        factory: Option<&F>,
    ) -> (r: Result<ListEncoder, Error>)
        requires
            array matches ArrayData::List { .. },
        ensures
            match r {
                Result::Ok(l) => {
                    &&& factory is None ==> {
                        &&& build_err(array) is None
                        &&& builds_from(Encoder::List(l), array, *options)
                    }
                    &&& array.wf() ==> Encoder::List(l).wf()
                    &&& Encoder::List(l).len() == array.len()
                    &&& forall|i: int|
                        0 <= i < array.len() ==> Encoder::List(l).spec_is_null(i)
                            == #[trigger] array.spec_is_null(i)
                },
                Result::Err(err) => factory is None ==> build_err(array) == Option::Some(err),
            },
        decreases array, 0int,
    {
        match array {
            ArrayData::List { offsets, values, nulls } => {
                let encoder = match make_encoder_impl(field, *values, options, factory) {
                    Result::Ok(encoder) => encoder,
                    Result::Err(err) => {
                        return Result::Err(err);
                    },
                };
                Result::Ok(ListEncoder { offsets, encoder: Box::new(encoder), nulls })
            },
            _ => vstd::pervasive::unreached(),
        }
    }
}

impl FixedSizeListEncoder {
    /// Builds a fixed-size-list encoder over the recursively built child.
    fn try_new<F: EncoderFactory>(
        field: &Field,
        array: ArrayData,
        options: &EncoderOptions,
        factory: Option<&F>,
    ) -> (r: Result<FixedSizeListEncoder, Error>)
        requires
            array matches ArrayData::FixedSizeList { .. },
        ensures
            match r {
                Result::Ok(f) => {
                    &&& factory is None ==> {
                        &&& build_err(array) is None
                        &&& builds_from(Encoder::FixedSizeList(f), array, *options)
                    }
                    &&& array.wf() ==> Encoder::FixedSizeList(f).wf()
                    &&& Encoder::FixedSizeList(f).len() == array.len()
                    &&& forall|i: int|
                        0 <= i < array.len() ==> Encoder::FixedSizeList(f).spec_is_null(i)
                            == #[trigger] array.spec_is_null(i)
                },
                Result::Err(err) => factory is None ==> build_err(array) == Option::Some(err),
            },
        decreases array, 0int,
    {
        match array {
            ArrayData::FixedSizeList { len, value_length, values, nulls } => {
                let encoder = match make_encoder_impl(field, *values, options, factory) {
                    Result::Ok(encoder) => encoder,
                    Result::Err(err) => {
                        return Result::Err(err);
                    },
                };
                Result::Ok(
                    FixedSizeListEncoder { len, value_length, encoder: Box::new(encoder), nulls },
                )
            },
            _ => vstd::pervasive::unreached(),
        }
    }
}

impl DictionaryEncoder {
    /// Builds a dictionary encoder: one child encoder over the shared
    /// value array, plus the per-row keys and the logical mask.
    fn try_new<F: EncoderFactory>(
        field: &Field,
        array: ArrayData,
        options: &EncoderOptions,
        factory: Option<&F>,
    ) -> (r: Result<DictionaryEncoder, Error>)
        requires
            array matches ArrayData::Dictionary { .. },
        ensures
            match r {
                Result::Ok(d) => {
                    &&& factory is None ==> {
                        &&& build_err(array) is None
                        &&& builds_from(Encoder::Dictionary(d), array, *options)
                    }
                    &&& array.wf() ==> Encoder::Dictionary(d).wf()
                    &&& Encoder::Dictionary(d).len() == array.len()
                    &&& forall|i: int|
                        0 <= i < array.len() ==> Encoder::Dictionary(d).spec_is_null(i)
                            == #[trigger] array.spec_is_null(i)
                },
                Result::Err(err) => factory is None ==> build_err(array) == Option::Some(err),
            },
        decreases array, 0int,
    {
        match array {
            ArrayData::Dictionary { keys, values, nulls } => {
                let encoder = match make_encoder_impl(field, *values, options, factory) {
                    Result::Ok(encoder) => encoder,
                    Result::Err(err) => {
                        return Result::Err(err);
                    },
                };
                Result::Ok(DictionaryEncoder { keys, nulls, encoder: Box::new(encoder) })
            },
            _ => vstd::pervasive::unreached(),
        }
    }
}

impl MapEncoder {
    /// Builds a map encoder. Keys must be UTF-8 text; construction fails
    /// with an explicit error otherwise. It also fails if any key is null,
    /// or if any entry slot reports null at the physical level: both
    /// indicate malformed input this encoder refuses to paper over.
    fn try_new<F: EncoderFactory>(
        field: &Field,
        array: ArrayData,
        options: &EncoderOptions,
        factory: Option<&F>,
    ) -> (r: Result<MapEncoder, Error>)
        requires
            array matches ArrayData::MapArray { .. },
        ensures
            match r {
                Result::Ok(m) => {
                    &&& factory is None ==> {
                        &&& build_err(array) is None
                        &&& builds_from(Encoder::MapArray(m), array, *options)
                    }
                    &&& array.wf() ==> Encoder::MapArray(m).wf()
                    &&& Encoder::MapArray(m).len() == array.len()
                    &&& forall|i: int|
                        0 <= i < array.len() ==> Encoder::MapArray(m).spec_is_null(i)
                            == #[trigger] array.spec_is_null(i)
                },
                Result::Err(err) => factory is None ==> build_err(array) == Option::Some(err),
            },
        decreases array, 0int,
    {
        match array {
            ArrayData::MapArray { offsets, keys, values, entries_nulls, nulls } => {
                let keys_have_null = match &*keys {
                    ArrayData::Utf8 { nulls: key_nulls, .. } => mask_has_set_null(key_nulls),
                    _ => {
                        return Result::Err(Error::InvalidMapKeyType);
                    },
                };
                let ghost g_keys = *keys;
                let keys_encoder = match make_encoder_impl(field, *keys, options, factory) {
                    Result::Ok(e) => e,
                    Result::Err(err) => {
                        return Result::Err(err);
                    },
                };
                let values_encoder = match make_encoder_impl(field, *values, options, factory) {
                    Result::Ok(e) => e,
                    Result::Err(err) => {
                        return Result::Err(err);
                    },
                };
                // The null checks are a sanity check on the physical data,
                // which map arrays do not themselves enforce.
                if keys_have_null {
                    return Result::Err(Error::MalformedMapData);
                }
                if mask_has_set_null(&entries_nulls) {
                    return Result::Err(Error::MalformedMapData);
                }
                proof {
                    if array.wf() {
                        assert(g_keys.wf());
                        assert forall|j: int|
                            0 <= j < keys_encoder.len() implies !keys_encoder.spec_is_null(j) by {
                            assert(keys_encoder.spec_is_null(j) == g_keys.spec_is_null(j));
                            assert(keys_encoder.len() == g_keys.len());
                            match g_keys {
                                ArrayData::Utf8 { nulls: kn, .. } => {
                                    match kn {
                                        Option::Some(mask) => {
                                            assert(mask.valid@.len() == g_keys.len());
                                            assert(all_valid(mask.valid@));
                                            assert(mask.valid@[j]);
                                        },
                                        Option::None => {},
                                    }
                                },
                                _ => {},
                            }
                        }
                    }
                }
                Result::Ok(
                    MapEncoder {
                        offsets,
                        keys: Box::new(keys_encoder),
                        values: Box::new(values_encoder),
                        explicit_nulls: options.explicit_nulls,
                        nulls,
                    },
                )
            },
            _ => vstd::pervasive::unreached(),
        }
    }
}

/// The default dispatch rules, applied after the extension hook: every
/// variant of the model maps to its matching encoder, recursing into
/// children with the same options and the same hook.
fn make_encoder_impl<F: EncoderFactory>(
    field: &Field,
    array: ArrayData,
    options: &EncoderOptions,
    factory: Option<&F>,
) -> (r: Result<Encoder, Error>)
    ensures
        match r {
            Result::Ok(e) => {
                &&& factory is None ==> {
                    &&& build_err(array) is None
                    &&& builds_from(e, array, *options)
                }
                &&& array.wf() ==> e.wf()
                &&& e.len() == array.len()
                &&& forall|i: int|
                    0 <= i < array.len() ==> e.spec_is_null(i) == #[trigger] array.spec_is_null(i)
            },
            Result::Err(err) => factory is None ==> build_err(array) == Option::Some(err),
        },
    decreases array, 1int,
{
    if let Option::Some(f) = factory {
        match f.make_default_encoder(field, &array, options) {
            Result::Ok(Option::Some(encoder)) => {
                return Result::Ok(encoder);
            },
            Result::Ok(Option::None) => {},
            Result::Err(err) => {
                return Result::Err(err);
            },
        }
    }
    match array {
        ArrayData::Null { len } => Result::Ok(Encoder::Null(NullEncoder { len })),
        ArrayData::Boolean { values, nulls } => Result::Ok(
            Encoder::Boolean(BooleanEncoder { values, nulls }),
        ),
        ArrayData::Primitive { values, nulls } => Result::Ok(
            Encoder::Primitive(PrimitiveEncoder { values, nulls }),
        ),
        ArrayData::Utf8 { values, nulls } => Result::Ok(
            Encoder::Utf8(StringEncoder { values, nulls }),
        ),
        ArrayData::Binary { values, nulls } => Result::Ok(
            Encoder::Binary(BinaryEncoder { values, nulls }),
        ),
        ArrayData::List { offsets, values, nulls } => {
            let arr = ArrayData::List { offsets, values, nulls };
            match ListEncoder::try_new(field, arr, options, factory) {
                Result::Ok(l) => Result::Ok(Encoder::List(l)),
                Result::Err(err) => Result::Err(err),
            }
        },
        ArrayData::FixedSizeList { len, value_length, values, nulls } => {
            let arr = ArrayData::FixedSizeList { len, value_length, values, nulls };
            match FixedSizeListEncoder::try_new(field, arr, options, factory) {
                Result::Ok(f) => Result::Ok(Encoder::FixedSizeList(f)),
                Result::Err(err) => Result::Err(err),
            }
        },
        ArrayData::Struct { fields, len, nulls } => {
            let ghost fields0 = fields;
            let ghost orig = fields@;
            proof {
                assert(array == ArrayData::Struct { fields: fields0, len, nulls });
            }
            let mut fields = fields;
            let mut encoders: Vec<FieldEncoder> = Vec::new();
            while fields.len() > 0
                invariant
                    array == (ArrayData::Struct { fields: fields0, len, nulls }),
                    orig == fields0@,
                    encoders@.len() + fields@.len() == orig.len(),
                    forall|j: int|
                        0 <= j < fields@.len() ==> fields@[j] == orig[encoders@.len() + j],
                    forall|j: int|
                        0 <= j < encoders@.len() ==> {
                            &&& (#[trigger] encoders@[j]).field == orig[j].field
                            &&& factory is None ==> builds_from(
                                encoders@[j].encoder,
                                orig[j].array,
                                *options,
                            )
                            &&& orig[j].array.wf() ==> encoders@[j].encoder.wf()
                            &&& encoders@[j].encoder.len() == orig[j].array.len()
                        },
                    factory is None ==> struct_build_err(orig, 0) == struct_build_err(
                        orig,
                        encoders@.len() as int,
                    ),
                decreases fields@.len(),
            {
                let ghost k = encoders@.len() as int;
                let sf = fields.remove(0);
                let StructField { field: child_field, array: child_array } = sf;
                proof {
                    assert(child_array == orig[k].array);
                    assert(decreases_to!(array => fields0));
                    assert(decreases_to!(fields0 => fields0@));
                    assert(decreases_to!(orig => orig[k]));
                    assert(decreases_to!(orig[k] => orig[k].array));
                    assert(decreases_to!(array => child_array));
                }
                match make_encoder_impl(&child_field, child_array, options, factory) {
                    Result::Ok(encoder) => {
                        encoders.push(FieldEncoder { field: child_field, encoder });
                    },
                    Result::Err(err) => {
                        return Result::Err(err);
                    },
                }
            }
            Result::Ok(
                Encoder::Struct(
                    StructArrayEncoder {
                        encoders,
                        len,
                        nulls,
                        explicit_nulls: options.explicit_nulls,
                        struct_mode: options.struct_mode,
                    },
                ),
            )
        },
        ArrayData::Dictionary { keys, values, nulls } => {
            let arr = ArrayData::Dictionary { keys, values, nulls };
            match DictionaryEncoder::try_new(field, arr, options, factory) {
                Result::Ok(d) => Result::Ok(Encoder::Dictionary(d)),
                Result::Err(err) => Result::Err(err),
            }
        },
        ArrayData::MapArray { offsets, keys, values, entries_nulls, nulls } => {
            let arr = ArrayData::MapArray { offsets, keys, values, entries_nulls, nulls };
            match MapEncoder::try_new(field, arr, options, factory) {
                Result::Ok(m) => Result::Ok(Encoder::MapArray(m)),
                Result::Err(err) => Result::Err(err),
            }
        },
        ArrayData::Temporal { texts, nulls } => Result::Ok(
            Encoder::Formatted(JsonArrayFormatter { texts, nulls }),
        ),
        ArrayData::Decimal { texts, nulls } => Result::Ok(
            Encoder::RawFormatted(RawArrayFormatter { inner: JsonArrayFormatter { texts, nulls } }),
        ),
        ArrayData::Unsupported { .. } => Result::Err(Error::UnsupportedType),
    }
}

/// Builds the encoder tree for one top-level array under the default
/// dispatch rules and verifies, row by row, that the root reports no row
/// as null: a nullable top-level row source signals caller misuse and is
/// reported as [`Error::NullableRoot`].
///
/// On success the returned tree is exactly the one [`builds_from`]
/// describes; on failure the error is exactly the one [`build_err`] gives,
/// or `NullableRoot` after a clean build with some null root row.
pub fn make_encoder(field: &Field, array: ArrayData, options: &EncoderOptions) -> (r: Result<
    Encoder,
    Error,
>)
    requires
        array.wf(),
    ensures
        match r {
            Result::Ok(e) => {
                &&& build_err(array) is None
                &&& builds_from(e, array, *options)
                &&& e.wf()
                &&& e.len() == array.len()
                &&& forall|i: int| 0 <= i < e.len() ==> !e.spec_is_null(i)
            },
            Result::Err(err) => {
                if build_err(array) is Some {
                    err == build_err(array)->Some_0
                } else {
                    err == Error::NullableRoot && exists|i: int|
                        0 <= i < array.len() && #[trigger] array.spec_is_null(i)
                }
            },
        },
{
    let encoder = match make_encoder_impl(field, array, options, Option::None::<&NoFactory>) {
        Result::Ok(encoder) => encoder,
        Result::Err(err) => {
            return Result::Err(err);
        },
    };
    let n = encoder.num_rows();
    let mut i: usize = 0;
    while i < n
        invariant
            n as nat == encoder.len(),
            encoder.wf(),
            i <= n,
            forall|j: int| 0 <= j < i ==> !encoder.spec_is_null(j),
            builds_from(encoder, array, *options),
            forall|j: int|
                0 <= j < array.len() ==> encoder.spec_is_null(j) == #[trigger] array.spec_is_null(
                    j,
                ),
            encoder.len() == array.len(),
            build_err(array) is None,
        decreases n - i,
    {
        if encoder.is_null(i) {
            proof {
                assert(array.spec_is_null(i as int));
            }
            return Result::Err(Error::NullableRoot);
        }
        i = i + 1;
    }
    Result::Ok(encoder)
}

/// Builds the encoder tree for one top-level array, consulting `factory`
/// first at every recursive level, and verifies that the root reports no
/// row as null. A hook-built encoder is used unmodified, so beyond
/// well-formedness, length, and the root nullability check, its behaviour
/// is the hook's responsibility.
pub fn make_encoder_with_factory<F: EncoderFactory>(
    field: &Field,
    array: ArrayData,
    options: &EncoderOptions,
    factory: &F,
) -> (r: Result<Encoder, Error>)
    requires
        array.wf(),
    ensures
        match r {
            Result::Ok(e) => {
                &&& e.wf()
                &&& e.len() == array.len()
                &&& forall|i: int|
                    0 <= i < array.len() ==> e.spec_is_null(i) == #[trigger] array.spec_is_null(i)
                &&& forall|i: int| 0 <= i < e.len() ==> !e.spec_is_null(i)
            },
            Result::Err(_) => true,
        },
{
    let encoder = match make_encoder_impl(field, array, options, Option::Some(factory)) {
        Result::Ok(encoder) => encoder,
        Result::Err(err) => {
            return Result::Err(err);
        },
    };
    let n = encoder.num_rows();
    let mut i: usize = 0;
    while i < n
        invariant
            n as nat == encoder.len(),
            encoder.wf(),
            i <= n,
            forall|j: int| 0 <= j < i ==> !encoder.spec_is_null(j),
        decreases n - i,
    {
        if encoder.is_null(i) {
            return Result::Err(Error::NullableRoot);
        }
        i = i + 1;
    }
    Result::Ok(encoder)
}

/// A default-built tree reports exactly the nulls of its source array:
/// the builder copies each level's logical mask unchanged.
pub proof fn lemma_builds_from_null_shape(e: &Encoder, a: &ArrayData, opts: &EncoderOptions)
    requires
        builds_from(*e, *a, *opts),
    ensures
        forall|i: int| 0 <= i < a.len() ==> e.spec_is_null(i) == #[trigger] a.spec_is_null(i),
        e.len() == a.len(),
{
}

} // verus!
