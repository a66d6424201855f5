use arrow_json::array::{ArrayData, Field, FloatValue, Nulls, PrimValues, StructField};
use arrow_json::dispatch::{make_encoder, make_encoder_with_factory, EncoderFactory, NoFactory};
use arrow_json::encoder::{Encoder, StringEncoder};
use arrow_json::{EncoderOptions, Error, StructMode};

fn field(name: &str) -> Field {
    Field { name: name.as_bytes().to_vec() }
}

fn nulls(valid: &[bool]) -> Option<Nulls> {
    Some(Nulls { valid: valid.to_vec() })
}

fn int_col(values: &[i64], valid: Option<&[bool]>) -> ArrayData {
    ArrayData::Primitive {
        values: PrimValues::Int(values.to_vec()),
        nulls: valid.map(|v| Nulls { valid: v.to_vec() }),
    }
}

fn utf8_col(values: &[&str], valid: Option<&[bool]>) -> ArrayData {
    ArrayData::Utf8 {
        values: values.iter().map(|s| s.as_bytes().to_vec()).collect(),
        nulls: valid.map(|v| Nulls { valid: v.to_vec() }),
    }
}

fn render(encoder: &Encoder, idx: usize) -> String {
    let mut out = Vec::new();
    encoder.encode(idx, &mut out);
    String::from_utf8(out).unwrap()
}

fn record_ab() -> ArrayData {
    ArrayData::Struct {
        fields: vec![
            StructField { field: field("a"), array: int_col(&[1, 0], Some(&[true, false])) },
            StructField { field: field("b"), array: utf8_col(&["x", "y"], None) },
        ],
        len: 2,
        nulls: None,
    }
}

#[test]
fn record_object_mode_drops_null_fields() {
    let options = EncoderOptions::default();
    let encoder = make_encoder(&field("r"), record_ab(), &options).unwrap();
    assert_eq!(render(&encoder, 0), "{\"a\":1,\"b\":\"x\"}");
    assert_eq!(render(&encoder, 1), "{\"b\":\"y\"}");
}

#[test]
fn record_object_mode_explicit_nulls() {
    let options =
        EncoderOptions { explicit_nulls: true, struct_mode: StructMode::ObjectOnly };
    let encoder = make_encoder(&field("r"), record_ab(), &options).unwrap();
    assert_eq!(render(&encoder, 0), "{\"a\":1,\"b\":\"x\"}");
    assert_eq!(render(&encoder, 1), "{\"a\":null,\"b\":\"y\"}");
}

#[test]
fn record_list_mode_keeps_every_slot() {
    for explicit_nulls in [false, true] {
        let options = EncoderOptions { explicit_nulls, struct_mode: StructMode::ListOnly };
        let encoder = make_encoder(&field("r"), record_ab(), &options).unwrap();
        assert_eq!(render(&encoder, 0), "[1,\"x\"]");
        // List mode always emits a null slot: position is load-bearing.
        assert_eq!(render(&encoder, 1), "[null,\"y\"]");
        assert_eq!(render(&encoder, 1).split(',').count(), 2);
    }
}

#[test]
fn list_of_ints_renders_null_slots() {
    let array = ArrayData::List {
        offsets: vec![0, 3],
        values: Box::new(int_col(&[1, 0, 3], Some(&[true, false, true]))),
        nulls: None,
    };
    let encoder = make_encoder(&field("l"), array, &EncoderOptions::default()).unwrap();
    assert_eq!(render(&encoder, 0), "[1,null,3]");
}

#[test]
fn list_reads_only_offset_range() {
    // Offsets that start past zero and stop short of the child's end: the
    // row must render only the child values inside its own range.
    let array = ArrayData::List {
        offsets: vec![2, 4],
        values: Box::new(int_col(&[9, 9, 5, 6, 9], None)),
        nulls: None,
    };
    let encoder = make_encoder(&field("l"), array, &EncoderOptions::default()).unwrap();
    assert_eq!(render(&encoder, 0), "[5,6]");
}

#[test]
fn empty_list_row_renders_empty_array() {
    let array = ArrayData::List {
        offsets: vec![0, 0, 1],
        values: Box::new(int_col(&[42], None)),
        nulls: None,
    };
    let encoder = make_encoder(&field("l"), array, &EncoderOptions::default()).unwrap();
    assert_eq!(render(&encoder, 0), "[]");
    assert_eq!(render(&encoder, 1), "[42]");
}

#[test]
fn fixed_size_list_rows() {
    let array = ArrayData::FixedSizeList {
        len: 2,
        value_length: 2,
        values: Box::new(int_col(&[1, 2, 3, 4], None)),
        nulls: None,
    };
    let encoder = make_encoder(&field("f"), array, &EncoderOptions::default()).unwrap();
    assert_eq!(render(&encoder, 0), "[1,2]");
    assert_eq!(render(&encoder, 1), "[3,4]");
}

#[test]
fn float_positive_infinity_renders_null_literal() {
    let v: f64 = f64::INFINITY;
    let fv = if v.is_finite() {
        FloatValue::Finite(format!("{v}").into_bytes())
    } else {
        FloatValue::NonFinite
    };
    let array = ArrayData::Primitive { values: PrimValues::Float(vec![fv]), nulls: None };
    let encoder = make_encoder(&field("f"), array, &EncoderOptions::default()).unwrap();
    // The rendered text is the 4-character literal `null`...
    assert_eq!(render(&encoder, 0), "null");
    assert_eq!(render(&encoder, 0).len(), 4);
    // ... while the row itself still reports non-null.
    assert!(!encoder.is_null(0));
}

#[test]
fn finite_float_renders_its_text() {
    let v: f64 = 1.5;
    let fv = if v.is_finite() {
        FloatValue::Finite(format!("{v}").into_bytes())
    } else {
        FloatValue::NonFinite
    };
    let array = ArrayData::Primitive { values: PrimValues::Float(vec![fv]), nulls: None };
    let encoder = make_encoder(&field("f"), array, &EncoderOptions::default()).unwrap();
    assert_eq!(render(&encoder, 0), "1.5");
}

#[test]
fn integer_extremes_render_exactly() {
    let array = int_col(&[i64::MIN, -1, 0, i64::MAX], None);
    let encoder = make_encoder(&field("i"), array, &EncoderOptions::default()).unwrap();
    assert_eq!(render(&encoder, 0), "-9223372036854775808");
    assert_eq!(render(&encoder, 1), "-1");
    assert_eq!(render(&encoder, 2), "0");
    assert_eq!(render(&encoder, 3), "9223372036854775807");
}

#[test]
fn unsigned_extremes_render_exactly() {
    let array =
        ArrayData::Primitive { values: PrimValues::UInt(vec![0, u64::MAX]), nulls: None };
    let encoder = make_encoder(&field("u"), array, &EncoderOptions::default()).unwrap();
    assert_eq!(render(&encoder, 0), "0");
    assert_eq!(render(&encoder, 1), "18446744073709551615");
}

#[test]
fn booleans_render_literals() {
    let array = ArrayData::Boolean { values: vec![true, false], nulls: None };
    let encoder = make_encoder(&field("b"), array, &EncoderOptions::default()).unwrap();
    assert_eq!(render(&encoder, 0), "true");
    assert_eq!(render(&encoder, 1), "false");
}

#[test]
fn string_escaping_matches_strict_json() {
    let tricky = "a\"b\\c\nd\u{1}e\tf\u{7f}";
    let array = utf8_col(&[tricky], None);
    let encoder = make_encoder(&field("s"), array, &EncoderOptions::default()).unwrap();
    let rendered = render(&encoder, 0);
    // Byte-for-byte the escaping a strict JSON serializer produces.
    assert_eq!(rendered, serde_json::to_string(tricky).unwrap());
    assert_eq!(rendered, "\"a\\\"b\\\\c\\nd\\u0001e\\tf\u{7f}\"");
}

#[test]
fn binary_renders_quoted_lowercase_hex() {
    let array = ArrayData::Binary { values: vec![vec![0x01, 0xab, 0xff, 0x00]], nulls: None };
    let encoder = make_encoder(&field("b"), array, &EncoderOptions::default()).unwrap();
    let rendered = render(&encoder, 0);
    assert_eq!(rendered, "\"01abff00\"");
    // Two lowercase hex characters per byte, plus the two quotes.
    assert_eq!(rendered.len(), 2 * 4 + 2);
}

#[test]
fn dictionary_matches_value_array_byte_for_byte() {
    let values = || utf8_col(&["alpha", "beta"], None);
    let dict = ArrayData::Dictionary {
        keys: vec![1, 0, 1],
        values: Box::new(values()),
        nulls: None,
    };
    let options = EncoderOptions::default();
    let dict_encoder = make_encoder(&field("d"), dict, &options).unwrap();
    let value_encoder = make_encoder(&field("v"), values(), &options).unwrap();
    for (row, key) in [(0usize, 1usize), (1, 0), (2, 1)] {
        assert_eq!(render(&dict_encoder, row), render(&value_encoder, key));
    }
    assert_eq!(render(&dict_encoder, 0), "\"beta\"");
}

#[test]
fn map_renders_and_drops_null_values() {
    let map = |explicit_nulls: bool| {
        let array = ArrayData::MapArray {
            offsets: vec![0, 2],
            keys: Box::new(utf8_col(&["k1", "k2"], None)),
            values: Box::new(int_col(&[7, 0], Some(&[true, false]))),
            entries_nulls: None,
            nulls: None,
        };
        let options = EncoderOptions { explicit_nulls, struct_mode: StructMode::ObjectOnly };
        make_encoder(&field("m"), array, &options).unwrap()
    };
    assert_eq!(render(&map(false), 0), "{\"k1\":7}");
    assert_eq!(render(&map(true), 0), "{\"k1\":7,\"k2\":null}");
}

#[test]
fn map_with_integer_keys_fails_with_invalid_key_type() {
    let array = ArrayData::MapArray {
        offsets: vec![0, 1],
        keys: Box::new(int_col(&[1], None)),
        values: Box::new(int_col(&[2], None)),
        entries_nulls: None,
        nulls: None,
    };
    let r = make_encoder(&field("m"), array, &EncoderOptions::default());
    assert_eq!(r.err(), Some(Error::InvalidMapKeyType));
}

#[test]
fn map_with_all_valid_key_mask_encodes() {
    // A key array may carry a validity mask, as long as no key is
    // actually null; such masks arise from ordinary array surgery.
    let array = ArrayData::MapArray {
        offsets: vec![0, 1],
        keys: Box::new(utf8_col(&["k"], Some(&[true]))),
        values: Box::new(int_col(&[2], None)),
        entries_nulls: None,
        nulls: None,
    };
    let encoder = make_encoder(&field("m"), array, &EncoderOptions::default()).unwrap();
    assert_eq!(render(&encoder, 0), "{\"k\":2}");
}

#[test]
fn map_with_null_key_is_malformed() {
    let array = ArrayData::MapArray {
        offsets: vec![0, 1],
        keys: Box::new(utf8_col(&["k"], Some(&[false]))),
        values: Box::new(int_col(&[2], None)),
        entries_nulls: None,
        nulls: None,
    };
    let r = make_encoder(&field("m"), array, &EncoderOptions::default());
    assert_eq!(r.err(), Some(Error::MalformedMapData));
}

#[test]
fn map_with_null_entry_slot_is_malformed() {
    let array = ArrayData::MapArray {
        offsets: vec![0, 1],
        keys: Box::new(utf8_col(&["k"], None)),
        values: Box::new(int_col(&[2], None)),
        entries_nulls: nulls(&[false]),
        nulls: None,
    };
    let r = make_encoder(&field("m"), array, &EncoderOptions::default());
    assert_eq!(r.err(), Some(Error::MalformedMapData));
}

#[test]
fn unsupported_type_fails_at_build_time() {
    let array = ArrayData::Unsupported { label: b"interval".to_vec(), len: 1 };
    let r = make_encoder(&field("x"), array, &EncoderOptions::default());
    assert_eq!(r.err(), Some(Error::UnsupportedType));
}

#[test]
fn nullable_root_is_rejected() {
    let array = ArrayData::Boolean { values: vec![true], nulls: nulls(&[false]) };
    let r = make_encoder(&field("b"), array, &EncoderOptions::default());
    assert_eq!(r.err(), Some(Error::NullableRoot));
}

#[test]
fn temporal_renders_quoted_and_decimal_raw() {
    let temporal =
        ArrayData::Temporal { texts: vec![b"2020-01-01T00:00:00".to_vec()], nulls: None };
    let decimal = ArrayData::Decimal { texts: vec![b"12.34".to_vec()], nulls: None };
    let options = EncoderOptions::default();
    let t = make_encoder(&field("t"), temporal, &options).unwrap();
    let d = make_encoder(&field("d"), decimal, &options).unwrap();
    assert_eq!(render(&t, 0), "\"2020-01-01T00:00:00\"");
    assert_eq!(render(&d, 0), "12.34");
}

#[test]
fn nested_record_in_list_renders() {
    let inner = ArrayData::Struct {
        fields: vec![StructField {
            field: field("n"),
            array: int_col(&[10, 20], None),
        }],
        len: 2,
        nulls: None,
    };
    let array = ArrayData::List { offsets: vec![0, 2], values: Box::new(inner), nulls: None };
    let encoder = make_encoder(&field("l"), array, &EncoderOptions::default()).unwrap();
    assert_eq!(render(&encoder, 0), "[{\"n\":10},{\"n\":20}]");
}

#[test]
fn has_nulls_reports_mask_presence_not_set_bits() {
    let options = EncoderOptions::default();
    let masked = make_encoder(
        &field("i"),
        int_col(&[1], Some(&[true])),
        &options,
    )
    .unwrap();
    let bare = make_encoder(&field("i"), int_col(&[1], None), &options).unwrap();
    assert!(masked.has_nulls());
    assert!(!bare.has_nulls());
    assert!(!masked.is_null(0));
}

#[test]
fn null_typed_column_reports_every_row_null() {
    // A null-typed root is rejected by the root nullability check.
    let array = ArrayData::Null { len: 1 };
    let r = make_encoder(&field("n"), array, &EncoderOptions::default());
    assert_eq!(r.err(), Some(Error::NullableRoot));
}

struct Utf8ForUnsupported;

impl EncoderFactory for Utf8ForUnsupported {
    fn make_default_encoder(
        &self,
        _field: &Field,
        array: &ArrayData,
        _options: &EncoderOptions,
    ) -> Result<Option<Encoder>, Error> {
        match array {
            ArrayData::Unsupported { len, .. } => Ok(Some(Encoder::Utf8(StringEncoder {
                values: vec![b"override".to_vec(); *len],
                nulls: None,
            }))),
            _ => Ok(None),
        }
    }
}

#[test]
fn factory_preempts_default_rules() {
    let array = ArrayData::Unsupported { label: b"interval".to_vec(), len: 1 };
    let encoder =
        make_encoder_with_factory(&field("x"), array, &EncoderOptions::default(), &Utf8ForUnsupported)
            .unwrap();
    assert_eq!(render(&encoder, 0), "\"override\"");
}

#[test]
fn no_factory_matches_default_rules() {
    let options = EncoderOptions::default();
    let with = make_encoder_with_factory(&field("r"), record_ab(), &options, &NoFactory).unwrap();
    let without = make_encoder(&field("r"), record_ab(), &options).unwrap();
    assert_eq!(render(&with, 0), render(&without, 0));
    assert_eq!(render(&with, 1), render(&without, 1));
}

#[test]
fn rendered_rows_are_valid_json() {
    let options = EncoderOptions::default();
    let encoder = make_encoder(&field("r"), record_ab(), &options).unwrap();
    for row in 0..encoder.num_rows() {
        let text = render(&encoder, row);
        let parsed: serde_json::Value = serde_json::from_str(&text).unwrap();
        assert!(parsed.is_object());
    }
}

#[test]
fn re_rendering_is_byte_identical_and_dropping_never_lengthens() {
    let options = EncoderOptions::default();
    let encoder = make_encoder(&field("r"), record_ab(), &options).unwrap();
    assert_eq!(render(&encoder, 1), render(&encoder, 1));
    let explicit =
        EncoderOptions { explicit_nulls: true, struct_mode: StructMode::ObjectOnly };
    let explicit_encoder = make_encoder(&field("r"), record_ab(), &explicit).unwrap();
    for row in 0..2 {
        assert!(render(&encoder, row).len() <= render(&explicit_encoder, row).len());
    }
}

#[test]
fn empty_record_renders_empty_object() {
    let array = ArrayData::Struct { fields: vec![], len: 1, nulls: None };
    let encoder = make_encoder(&field("r"), array, &EncoderOptions::default()).unwrap();
    assert_eq!(render(&encoder, 0), "{}");
}

#[test]
fn record_with_all_fields_null_renders_empty_object() {
    let array = ArrayData::Struct {
        fields: vec![StructField { field: field("a"), array: int_col(&[0], Some(&[false])) }],
        len: 1,
        nulls: None,
    };
    let encoder = make_encoder(&field("r"), array, &EncoderOptions::default()).unwrap();
    assert_eq!(render(&encoder, 0), "{}");
}

#[test]
fn empty_map_row_renders_empty_object() {
    let array = ArrayData::MapArray {
        offsets: vec![0, 0],
        keys: Box::new(utf8_col(&[], None)),
        values: Box::new(int_col(&[], None)),
        entries_nulls: None,
        nulls: None,
    };
    let encoder = make_encoder(&field("m"), array, &EncoderOptions::default()).unwrap();
    assert_eq!(render(&encoder, 0), "{}");
}

#[test]
fn map_with_equal_keys_keeps_both_entries() {
    // The encoder does not deduplicate: both entries render in order.
    let array = ArrayData::MapArray {
        offsets: vec![0, 2],
        keys: Box::new(utf8_col(&["k", "k"], None)),
        values: Box::new(int_col(&[1, 2], None)),
        entries_nulls: None,
        nulls: None,
    };
    let encoder = make_encoder(&field("m"), array, &EncoderOptions::default()).unwrap();
    assert_eq!(render(&encoder, 0), "{\"k\":1,\"k\":2}");
}

#[test]
fn empty_string_and_empty_binary_render() {
    let options = EncoderOptions::default();
    let s = make_encoder(&field("s"), utf8_col(&[""], None), &options).unwrap();
    let b =
        make_encoder(&field("b"), ArrayData::Binary { values: vec![vec![]], nulls: None }, &options)
            .unwrap();
    assert_eq!(render(&s, 0), "\"\"");
    assert_eq!(render(&b, 0), "\"\"");
}

#[test]
fn dictionary_with_null_rows_reports_them() {
    let dict = ArrayData::Dictionary {
        keys: vec![0, 0],
        values: Box::new(utf8_col(&["v"], None)),
        nulls: nulls(&[true, false]),
    };
    // A nullable dictionary cannot stand at the root; nest it in a record.
    let array = ArrayData::Struct {
        fields: vec![StructField { field: field("d"), array: dict }],
        len: 2,
        nulls: None,
    };
    let encoder = make_encoder(&field("r"), array, &EncoderOptions::default()).unwrap();
    assert_eq!(render(&encoder, 0), "{\"d\":\"v\"}");
    assert_eq!(render(&encoder, 1), "{}");
}

#[test]
fn list_of_lists_renders_nested_arrays() {
    let inner = ArrayData::List {
        offsets: vec![0, 1, 3],
        values: Box::new(int_col(&[1, 2, 3], None)),
        nulls: None,
    };
    let outer =
        ArrayData::List { offsets: vec![0, 2], values: Box::new(inner), nulls: None };
    let encoder = make_encoder(&field("l"), outer, &EncoderOptions::default()).unwrap();
    assert_eq!(render(&encoder, 0), "[[1],[2,3]]");
}

struct AlwaysFails;

impl EncoderFactory for AlwaysFails {
    fn make_default_encoder(
        &self,
        _field: &Field,
        _array: &ArrayData,
        _options: &EncoderOptions,
    ) -> Result<Option<Encoder>, Error> {
        Err(Error::UnsupportedType)
    }
}

#[test]
fn factory_errors_propagate() {
    let r = make_encoder_with_factory(
        &field("i"),
        int_col(&[1], None),
        &EncoderOptions::default(),
        &AlwaysFails,
    );
    assert_eq!(r.err(), Some(Error::UnsupportedType));
}
