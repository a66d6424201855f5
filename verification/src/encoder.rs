//! The encoder tree and its row-rendering protocol.
//!
//! Every encoder variant exposes three operations: `encode(row, out)`
//! appends the textual JSON form of the non-null value at `row`;
//! `is_null(row)` reports nullness under the variant's own mask; and
//! `has_nulls()` reports whether a mask is present at all (not whether any
//! bit is set), a cheap static check that lets a parent skip per-row null
//! checks entirely. Callers must check `is_null` before `encode`: the
//! contract of `encode` excludes null rows.
//!
//! The bytes appended by `encode` are pinned exactly by the specification
//! function [`Encoder::json_at`].

use vstd::prelude::*;

use crate::array::{null_at, nulls_ok, offsets_monotone, Field, FloatValue, Nulls, PrimValues};
use crate::json::{
    dec_digits, dec_int, false_lit, hex_bytes, json_string, null_lit, true_lit, encode_string,
    write_bool, write_bytes, write_hex, write_i64, write_null, write_u64,
};
use crate::StructMode;

verus! {

/// Encoder for the null logical type: every row reports null, so `encode`
/// is never called on it.
pub struct NullEncoder {
    pub len: usize,
}

/// Encoder for boolean columns.
pub struct BooleanEncoder {
    pub values: Vec<bool>,
    pub nulls: Option<Nulls>,
}

/// Encoder for integer and floating-point columns.
pub struct PrimitiveEncoder {
    pub values: PrimValues,
    pub nulls: Option<Nulls>,
}

/// Encoder for UTF-8 string columns; rows render as escaped JSON strings.
pub struct StringEncoder {
    pub values: Vec<Vec<u8>>,
    pub nulls: Option<Nulls>,
}

/// Encoder for binary columns; rows render as quoted lowercase hex.
pub struct BinaryEncoder {
    pub values: Vec<Vec<u8>>,
    pub nulls: Option<Nulls>,
}

/// Encoder for variable-length lists: row `i` renders the child indices in
/// `[offsets[i], offsets[i+1])` as a JSON array.
pub struct ListEncoder {
    pub offsets: Vec<usize>,
    pub encoder: Box<Encoder>,
    pub nulls: Option<Nulls>,
}

/// Encoder for fixed-size lists: row `i` renders the child indices in
/// `[i*value_length, (i+1)*value_length)` as a JSON array.
pub struct FixedSizeListEncoder {
    pub len: usize,
    pub value_length: usize,
    pub encoder: Box<Encoder>,
    pub nulls: Option<Nulls>,
}

/// One record field: its description plus the encoder over its column.
pub struct FieldEncoder {
    pub field: Field,
    pub encoder: Encoder,
}

/// Encoder for records: one child encoder per field, in declared order.
pub struct StructArrayEncoder {
    pub encoders: Vec<FieldEncoder>,
    pub len: usize,
    pub nulls: Option<Nulls>,
    pub explicit_nulls: bool,
    pub struct_mode: StructMode,
}

/// Encoder for dictionary-encoded columns: resolves the key at a row to an
/// index into the shared value array and delegates to the child encoder.
pub struct DictionaryEncoder {
    pub keys: Vec<usize>,
    pub nulls: Option<Nulls>,
    pub encoder: Box<Encoder>,
}

/// Encoder for maps: renders `key:value` entries inside `{ }`, the entry
/// range of a row given by its offsets; entries with a logically null value
/// are dropped unless explicit nulls are requested.
pub struct MapEncoder {
    pub offsets: Vec<usize>,
    pub keys: Box<Encoder>,
    pub values: Box<Encoder>,
    pub explicit_nulls: bool,
    pub nulls: Option<Nulls>,
}

/// Adapter over pre-rendered display text that renders quoted; it assumes
/// the text never needs JSON escaping, which holds for the temporal
/// formatter output it wraps.
pub struct JsonArrayFormatter {
    pub texts: Vec<Vec<u8>>,
    pub nulls: Option<Nulls>,
}

/// Adapter over pre-rendered display text that skips the surrounding
/// quotes; used for decimal columns, which render as raw JSON numbers.
pub struct RawArrayFormatter {
    pub inner: JsonArrayFormatter,
}

/// One node of the encoder tree: the closed set of encoder variants.
pub enum Encoder {
    Null(NullEncoder),
    Boolean(BooleanEncoder),
    Primitive(PrimitiveEncoder),
    Utf8(StringEncoder),
    Binary(BinaryEncoder),
    List(ListEncoder),
    FixedSizeList(FixedSizeListEncoder),
    Struct(StructArrayEncoder),
    Dictionary(DictionaryEncoder),
    MapArray(MapEncoder),
    Formatted(JsonArrayFormatter),
    RawFormatted(RawArrayFormatter),
}

/// Joins rendered fragments with commas, in order.
pub open spec fn join_comma(frags: Seq<Seq<u8>>) -> Seq<u8>
    decreases frags.len(),
{
    if frags.len() == 0 {
        Seq::empty()
    } else if frags.len() == 1 {
        frags[0]
    } else {
        join_comma(frags.drop_last()) + seq![44u8] + frags.last()  // ','
    }
}

/// Appending one fragment appends a comma exactly when others precede it.
pub proof fn lemma_join_comma_push(frags: Seq<Seq<u8>>, x: Seq<u8>)
    ensures
        join_comma(frags.push(x)) == if frags.len() == 0 {
            x
        } else {
            join_comma(frags) + seq![44u8] + x
        },
{
    assert(frags.push(x).drop_last() =~= frags);
    assert(frags.push(x).last() == x);
    if frags.len() == 0 {
        assert(join_comma(frags.push(x)) == frags.push(x)[0]);
    }
}

impl Encoder {
    /// The number of rows this encoder covers.
    pub open spec fn len(&self) -> nat {
        match self {
            Encoder::Null(n) => n.len as nat,
            Encoder::Boolean(b) => b.values@.len(),
            Encoder::Primitive(p) => p.values.len(),
            Encoder::Utf8(s) => s.values@.len(),
            Encoder::Binary(b) => b.values@.len(),
            Encoder::List(l) => if l.offsets@.len() == 0 {
                0
            } else {
                (l.offsets@.len() - 1) as nat
            },
            Encoder::FixedSizeList(f) => f.len as nat,
            Encoder::Struct(s) => s.len as nat,
            Encoder::Dictionary(d) => d.keys@.len(),
            Encoder::MapArray(m) => if m.offsets@.len() == 0 {
                0
            } else {
                (m.offsets@.len() - 1) as nat
            },
            Encoder::Formatted(j) => j.texts@.len(),
            Encoder::RawFormatted(r) => r.inner.texts@.len(),
        }
    }

    /// Whether row `i` is null under this encoder's own mask.
    pub open spec fn spec_is_null(&self, i: int) -> bool {
        match self {
            Encoder::Null(_) => true,
            Encoder::Boolean(b) => null_at(b.nulls, i),
            Encoder::Primitive(p) => null_at(p.nulls, i),
            Encoder::Utf8(s) => null_at(s.nulls, i),
            Encoder::Binary(b) => null_at(b.nulls, i),
            Encoder::List(l) => null_at(l.nulls, i),
            Encoder::FixedSizeList(f) => null_at(f.nulls, i),
            Encoder::Struct(s) => null_at(s.nulls, i),
            Encoder::Dictionary(d) => null_at(d.nulls, i),
            Encoder::MapArray(m) => null_at(m.nulls, i),
            Encoder::Formatted(j) => null_at(j.nulls, i),
            Encoder::RawFormatted(r) => null_at(r.inner.nulls, i),
        }
    }

    /// Whether a null mask is present at all.
    pub open spec fn spec_has_nulls(&self) -> bool {
        match self {
            Encoder::Null(_) => true,
            Encoder::Boolean(b) => b.nulls is Some,
            Encoder::Primitive(p) => p.nulls is Some,
            Encoder::Utf8(s) => s.nulls is Some,
            Encoder::Binary(b) => b.nulls is Some,
            Encoder::List(l) => l.nulls is Some,
            Encoder::FixedSizeList(f) => f.nulls is Some,
            Encoder::Struct(s) => s.nulls is Some,
            Encoder::Dictionary(d) => d.nulls is Some,
            Encoder::MapArray(m) => m.nulls is Some,
            Encoder::Formatted(j) => j.nulls is Some,
            Encoder::RawFormatted(r) => r.inner.nulls is Some,
        }
    }

    /// Well-formedness of the tree: masks cover the rows, offsets are
    /// monotone and stay within the child's index space, record children
    /// match the record length, dictionary keys of non-null rows resolve to
    /// non-null child indices, and no map key row is null.
    pub open spec fn wf(&self) -> bool
        decreases self,
    {
        match self {
            Encoder::Null(_) => true,
            Encoder::Boolean(b) => nulls_ok(b.nulls, b.values@.len()),
            Encoder::Primitive(p) => nulls_ok(p.nulls, p.values.len()),
            Encoder::Utf8(s) => nulls_ok(s.nulls, s.values@.len()),
            Encoder::Binary(b) => nulls_ok(b.nulls, b.values@.len()),
            Encoder::List(l) => {
                &&& l.offsets@.len() >= 1
                &&& offsets_monotone(l.offsets@)
                &&& l.offsets@.last() as nat <= l.encoder.len()
                &&& nulls_ok(l.nulls, (l.offsets@.len() - 1) as nat)
                &&& l.encoder.wf()
            },
            Encoder::FixedSizeList(f) => {
                &&& f.len as nat * f.value_length as nat <= f.encoder.len()
                &&& nulls_ok(f.nulls, f.len as nat)
                &&& f.encoder.wf()
            },
            Encoder::Struct(s) => {
                &&& nulls_ok(s.nulls, s.len as nat)
                &&& forall|k: int|
                    0 <= k < s.encoders@.len() ==> {
                        &&& (#[trigger] s.encoders@[k]).encoder.wf()
                        &&& s.encoders@[k].encoder.len() == s.len as nat
                    }
            },
            Encoder::Dictionary(d) => {
                &&& nulls_ok(d.nulls, d.keys@.len())
                &&& d.encoder.wf()
                &&& forall|i: int| #![trigger d.keys@[i]]
                    0 <= i < d.keys@.len() && !null_at(d.nulls, i) ==> {
                        &&& (d.keys@[i] as nat) < d.encoder.len()
                        &&& !d.encoder.spec_is_null(d.keys@[i] as int)
                    }
            },
            Encoder::MapArray(m) => {
                &&& m.offsets@.len() >= 1
                &&& offsets_monotone(m.offsets@)
                &&& m.keys.len() == m.values.len()
                &&& m.offsets@.last() as nat <= m.keys.len()
                &&& forall|j: int|
                    #![trigger m.keys.spec_is_null(j)]
                    0 <= j < m.keys.len() ==> !m.keys.spec_is_null(j)
                &&& nulls_ok(m.nulls, (m.offsets@.len() - 1) as nat)
                &&& m.keys.wf()
                &&& m.values.wf()
            },
            Encoder::Formatted(j) => nulls_ok(j.nulls, j.texts@.len()),
            Encoder::RawFormatted(r) => nulls_ok(r.inner.nulls, r.inner.texts@.len()),
        }
    }

    /// The exact bytes `encode` appends for row `i`: the JSON value of the
    /// row. Meaningful whenever `i` is a non-null row below `len()`.
    pub open spec fn json_at(&self, i: int) -> Seq<u8>
        decreases self, 0int, 0int,
    {
        match self {
            Encoder::Null(_) => Seq::empty(),
            Encoder::Boolean(b) => if b.values@[i] {
                true_lit()
            } else {
                false_lit()
            },
            Encoder::Primitive(p) => match &p.values {
                PrimValues::Int(v) => dec_int(v@[i] as int),
                PrimValues::UInt(v) => dec_digits(v@[i] as nat),
                PrimValues::Float(v) => match v@[i] {
                    FloatValue::Finite(t) => t@,
                    FloatValue::NonFinite => null_lit(),
                },
            },
            Encoder::Utf8(s) => json_string(s.values@[i]@),
            Encoder::Binary(b) => seq![34u8] + hex_bytes(b.values@[i]@) + seq![34u8],  // '"'
            Encoder::List(l) => seq![91u8] + join_comma(
                list_frags(*l.encoder, l.offsets@[i] as int, l.offsets@[i + 1] as int),
            ) + seq![93u8],  // '[' and ']'
            Encoder::FixedSizeList(f) => seq![91u8] + join_comma(
                list_frags(
                    *f.encoder,
                    i * f.value_length as int,
                    i * f.value_length as int + f.value_length as int,
                ),
            ) + seq![93u8],
            Encoder::Struct(s) => {
                let open = if s.struct_mode is ObjectOnly { 123u8 } else { 91u8 };
                let close = if s.struct_mode is ObjectOnly { 125u8 } else { 93u8 };
                seq![open] + join_comma(
                    struct_frags(
                        s.encoders@,
                        s.encoders@.len() as int,
                        i,
                        s.struct_mode,
                        s.explicit_nulls,
                    ),
                ) + seq![close]
            },
            Encoder::Dictionary(d) => d.encoder.json_at(d.keys@[i] as int),
            Encoder::MapArray(m) => seq![123u8] + join_comma(
                map_frags(*m, m.offsets@[i] as int, m.offsets@[i + 1] as int),
            ) + seq![125u8],  // '{' and '}'
            Encoder::Formatted(j) => seq![34u8] + j.texts@[i]@ + seq![34u8],
            Encoder::RawFormatted(r) => r.inner.texts@[i]@,
        }
    }
}

/// One list slot: the child's rendering, or the `null` literal if the
/// child reports that index null.
pub open spec fn item_json(e: Encoder, j: int) -> Seq<u8>
    decreases e, 0int, 1int,
{
    if e.spec_is_null(j) {
        null_lit()
    } else {
        e.json_at(j)
    }
}

/// The rendered slots of the child indices in `[start, end)`.
pub open spec fn list_frags(e: Encoder, start: int, end: int) -> Seq<Seq<u8>>
    decreases e, 1int, end - start,
{
    if end <= start {
        Seq::empty()
    } else {
        list_frags(e, start, end - 1).push(item_json(e, end - 1))
    }
}

/// The rendered fragments of the first `k` record fields at row `i`: a
/// null field is dropped entirely in object mode without explicit nulls;
/// otherwise the fragment is the escaped field name and a colon (object
/// mode only) followed by the value or the `null` literal.
pub open spec fn struct_frags(
    fields: Seq<FieldEncoder>,
    k: int,
    i: int,
    mode: StructMode,
    explicit_nulls: bool,
) -> Seq<Seq<u8>>
    decreases fields, 1int, k,
{
    if k <= 0 || fields.len() < k {
        Seq::empty()
    } else {
        let rest = struct_frags(fields, k - 1, i, mode, explicit_nulls);
        let f = fields[k - 1];
        let is_null = f.encoder.spec_is_null(i);
        if is_null && mode is ObjectOnly && !explicit_nulls {
            rest
        } else {
            let prefix = if mode is ObjectOnly {
                json_string(f.field.name@) + seq![58u8]  // ':'
            } else {
                Seq::empty()
            };
            let body = if is_null {
                null_lit()
            } else {
                f.encoder.json_at(i)
            };
            rest.push(prefix + body)
        }
    }
}

/// The rendered `key:value` fragments of the map entries in `[start, end)`:
/// an entry whose value is logically null is dropped entirely unless
/// explicit nulls are requested; keys are never dropped on their own.
pub open spec fn map_frags(m: MapEncoder, start: int, end: int) -> Seq<Seq<u8>>
    decreases m, 1int, end - start,
{
    if end <= start {
        Seq::empty()
    } else {
        let rest = map_frags(m, start, end - 1);
        let j = end - 1;
        let is_null = m.values.spec_is_null(j);
        if is_null && !m.explicit_nulls {
            rest
        } else {
            let body = if is_null {
                null_lit()
            } else {
                m.values.json_at(j)
            };
            rest.push(m.keys.json_at(j) + seq![58u8] + body)
        }
    }
}

impl Encoder {
    /// The number of rows this encoder covers.
    pub fn num_rows(&self) -> (n: usize)
        ensures
            n as nat == self.len(),
    {
        match self {
            Encoder::Null(n) => n.len,
            Encoder::Boolean(b) => b.values.len(),
            Encoder::Primitive(p) => match &p.values {
                PrimValues::Int(v) => v.len(),
                PrimValues::UInt(v) => v.len(),
                PrimValues::Float(v) => v.len(),
            },
            Encoder::Utf8(s) => s.values.len(),
            Encoder::Binary(b) => b.values.len(),
            Encoder::List(l) => if l.offsets.len() == 0 {
                0
            } else {
                l.offsets.len() - 1
            },
            Encoder::FixedSizeList(f) => f.len,
            Encoder::Struct(s) => s.len,
            Encoder::Dictionary(d) => d.keys.len(),
            Encoder::MapArray(m) => if m.offsets.len() == 0 {
                0
            } else {
                m.offsets.len() - 1
            },
            Encoder::Formatted(j) => j.texts.len(),
            Encoder::RawFormatted(r) => r.inner.texts.len(),
        }
    }

    /// Checks if the value at `idx` is null.
    pub fn is_null(&self, idx: usize) -> (r: bool)
        requires
            self.wf(),
            idx < self.len(),
        ensures
            r == self.spec_is_null(idx as int),
    {
        match self {
            Encoder::Null(_) => true,
            Encoder::Boolean(b) => crate::array::is_null_optional_buffer(&b.nulls, idx),
            Encoder::Primitive(p) => crate::array::is_null_optional_buffer(&p.nulls, idx),
            Encoder::Utf8(s) => crate::array::is_null_optional_buffer(&s.nulls, idx),
            Encoder::Binary(b) => crate::array::is_null_optional_buffer(&b.nulls, idx),
            Encoder::List(l) => crate::array::is_null_optional_buffer(&l.nulls, idx),
            Encoder::FixedSizeList(f) => crate::array::is_null_optional_buffer(&f.nulls, idx),
            Encoder::Struct(s) => crate::array::is_null_optional_buffer(&s.nulls, idx),
            Encoder::Dictionary(d) => crate::array::is_null_optional_buffer(&d.nulls, idx),
            Encoder::MapArray(m) => crate::array::is_null_optional_buffer(&m.nulls, idx),
            Encoder::Formatted(j) => crate::array::is_null_optional_buffer(&j.nulls, idx),
            Encoder::RawFormatted(r) => crate::array::is_null_optional_buffer(&r.inner.nulls, idx),
        }
    }

    /// Short-circuiting null checks: whether a mask is present at all.
    pub fn has_nulls(&self) -> (r: bool)
        ensures
            r == self.spec_has_nulls(),
    {
        match self {
            Encoder::Null(_) => true,
            Encoder::Boolean(b) => b.nulls.is_some(),
            Encoder::Primitive(p) => p.nulls.is_some(),
            Encoder::Utf8(s) => s.nulls.is_some(),
            Encoder::Binary(b) => b.nulls.is_some(),
            Encoder::List(l) => l.nulls.is_some(),
            Encoder::FixedSizeList(f) => f.nulls.is_some(),
            Encoder::Struct(s) => s.nulls.is_some(),
            Encoder::Dictionary(d) => d.nulls.is_some(),
            Encoder::MapArray(m) => m.nulls.is_some(),
            Encoder::Formatted(j) => j.nulls.is_some(),
            Encoder::RawFormatted(r) => r.inner.nulls.is_some(),
        }
    }

    /// Encode the non-null value at index `idx` to `out`: appends exactly
    /// the JSON value given by `json_at`.
    pub fn encode(&self, idx: usize, out: &mut Vec<u8>)
        requires
            self.wf(),
            idx < self.len(),
            !self.spec_is_null(idx as int),
        ensures
            final(out)@ == old(out)@ + self.json_at(idx as int),
        decreases self,
    {
        match self {
            Encoder::Null(_) => {
                // A null-type row is never non-null, so this arm cannot be
                // reached under the contract; it appends the empty rendering.
                proof {
                    assert(false);
                }
            },
            Encoder::Boolean(b) => {
                write_bool(b.values[idx], out);
            },
            Encoder::Primitive(p) => match &p.values {
                PrimValues::Int(v) => write_i64(v[idx], out),
                PrimValues::UInt(v) => write_u64(v[idx], out),
                PrimValues::Float(v) => match &v[idx] {
                    FloatValue::Finite(t) => write_bytes(t, out),
                    FloatValue::NonFinite => write_null(out),
                },
            },
            Encoder::Utf8(s) => {
                encode_string(&s.values[idx], out);
            },
            Encoder::Binary(b) => {
                out.push(34);  // '"'
                write_hex(&b.values[idx], out);
                out.push(34);
                assert(out@ =~= old(out)@ + self.json_at(idx as int));
            },
            Encoder::List(l) => l.encode(idx, out),
            Encoder::FixedSizeList(f) => f.encode(idx, out),
            Encoder::Struct(s) => s.encode(idx, out),
            Encoder::Dictionary(d) => d.encode(idx, out),
            Encoder::MapArray(m) => m.encode(idx, out),
            Encoder::Formatted(j) => {
                out.push(34);
                write_bytes(&j.texts[idx], out);
                out.push(34);
                assert(out@ =~= old(out)@ + self.json_at(idx as int));
            },
            Encoder::RawFormatted(r) => {
                write_bytes(&r.inner.texts[idx], out);
            },
        }
    }
}

impl ListEncoder {
    /// Renders `[`, the child slots of the row's offset range separated by
    /// commas (`null` for null slots), then `]`.
    pub fn encode(&self, idx: usize, out: &mut Vec<u8>)
        requires
            Encoder::List(*self).wf(),
            (idx as nat) < Encoder::List(*self).len(),
        ensures
            final(out)@ == old(out)@ + Encoder::List(*self).json_at(idx as int),
        decreases *self,
    {
        let n_off = self.offsets.len();
        proof {
            assert(idx + 1 < n_off);
        }
        let start = self.offsets[idx];
        let end = self.offsets[idx + 1];
        proof {
            assert(self.offsets@[idx as int] <= self.offsets@[idx + 1]);
            assert(self.offsets@[idx + 1] <= self.offsets@[self.offsets@.len() - 1]);
        }
        out.push(91);  // '['
        let mut j = start;
        while j < end
            invariant
                Encoder::List(*self).wf(),
                start <= j <= end,
                end as nat <= self.encoder.len(),
                out@ == old(out)@ + seq![91u8] + join_comma(
                    list_frags(*self.encoder, start as int, j as int),
                ),
                (j == start) == (list_frags(*self.encoder, start as int, j as int).len() == 0),
            decreases end - j,
        {
            if j != start {
                out.push(44);  // ','
            }
            let ghost frags = list_frags(*self.encoder, start as int, j as int);
            if self.encoder.is_null(j) {
                write_null(out);
            } else {
                self.encoder.encode(j, out);
            }
            proof {
                lemma_join_comma_push(frags, item_json(*self.encoder, j as int));
                assert(list_frags(*self.encoder, start as int, j + 1) == frags.push(
                    item_json(*self.encoder, j as int),
                ));
                assert(out@ =~= old(out)@ + seq![91u8] + join_comma(
                    list_frags(*self.encoder, start as int, j + 1),
                ));
            }
            j = j + 1;
        }
        out.push(93);  // ']'
        assert(out@ =~= old(out)@ + Encoder::List(*self).json_at(idx as int));
    }
}

impl FixedSizeListEncoder {
    /// Renders `[`, the child slots of the row's fixed-width range
    /// separated by commas (`null` for null slots), then `]`.
    pub fn encode(&self, idx: usize, out: &mut Vec<u8>)
        requires
            Encoder::FixedSizeList(*self).wf(),
            (idx as nat) < Encoder::FixedSizeList(*self).len(),
        ensures
            final(out)@ == old(out)@ + Encoder::FixedSizeList(*self).json_at(idx as int),
        decreases *self,
    {
        let child_rows = self.encoder.num_rows();
        proof {
            let i = idx as int;
            let w = self.value_length as int;
            let l = self.len as int;
            assert((i + 1) * w <= l * w && (i + 1) * w == i * w + w) by (nonlinear_arith)
                requires
                    i < l,
                    w >= 0,
            ;
            assert(l * w <= child_rows as int);
        }
        let start = idx * self.value_length;
        let end = start + self.value_length;
        let ghost gstart = start as int;
        let mut j = start;
        out.push(91);  // '['
        while j < end
            invariant
                Encoder::FixedSizeList(*self).wf(),
                gstart == idx as int * self.value_length as int,
                start == gstart,
                start <= j <= end,
                end == start + self.value_length,
                end as nat <= self.encoder.len(),
                out@ == old(out)@ + seq![91u8] + join_comma(
                    list_frags(*self.encoder, gstart, j as int),
                ),
                (j == start) == (list_frags(*self.encoder, gstart, j as int).len() == 0),
            decreases end - j,
        {
            if j != start {
                out.push(44);  // ','
            }
            let ghost frags = list_frags(*self.encoder, gstart, j as int);
            if self.encoder.is_null(j) {
                write_null(out);
            } else {
                self.encoder.encode(j, out);
            }
            proof {
                lemma_join_comma_push(frags, item_json(*self.encoder, j as int));
                assert(list_frags(*self.encoder, gstart, j + 1) == frags.push(
                    item_json(*self.encoder, j as int),
                ));
                assert(out@ =~= old(out)@ + seq![91u8] + join_comma(
                    list_frags(*self.encoder, gstart, j + 1),
                ));
            }
            j = j + 1;
        }
        out.push(93);  // ']'
        assert(out@ =~= old(out)@ + Encoder::FixedSizeList(*self).json_at(idx as int));
    }
}

impl StructArrayEncoder {
    /// Renders the record at `idx`: `{`/`}` in object mode with
    /// `"name":value` members, `[`/`]` in list mode with positional values;
    /// null fields are dropped only in object mode without explicit nulls.
    pub fn encode(&self, idx: usize, out: &mut Vec<u8>)
        requires
            Encoder::Struct(*self).wf(),
            (idx as nat) < Encoder::Struct(*self).len(),
        ensures
            final(out)@ == old(out)@ + Encoder::Struct(*self).json_at(idx as int),
        decreases *self,
    {
        let object_mode = match self.struct_mode {
            StructMode::ObjectOnly => true,
            StructMode::ListOnly => false,
        };
        out.push(if object_mode { 123 } else { 91 });  // '{' or '['
        let mut is_first = true;
        // Nulls can only be dropped in object mode without explicit nulls
        let drop_nulls = object_mode && !self.explicit_nulls;
        let n = self.encoders.len();
        let mut k: usize = 0;
        let ghost open = if object_mode { 123u8 } else { 91u8 };
        while k < n
            invariant
                Encoder::Struct(*self).wf(),
                n == self.encoders@.len(),
                k <= n,
                (idx as nat) < self.len as nat,
                object_mode == (self.struct_mode is ObjectOnly),
                drop_nulls == (object_mode && !self.explicit_nulls),
                open == if object_mode { 123u8 } else { 91u8 },
                out@ == old(out)@ + seq![open] + join_comma(
                    struct_frags(
                        self.encoders@,
                        k as int,
                        idx as int,
                        self.struct_mode,
                        self.explicit_nulls,
                    ),
                ),
                is_first == (struct_frags(
                    self.encoders@,
                    k as int,
                    idx as int,
                    self.struct_mode,
                    self.explicit_nulls,
                ).len() == 0),
            decreases n - k,
        {
            let ghost frags = struct_frags(
                self.encoders@,
                k as int,
                idx as int,
                self.struct_mode,
                self.explicit_nulls,
            );
            let field_encoder = &self.encoders[k];
            let is_null = field_encoder.encoder.is_null(idx);
            if !(is_null && drop_nulls) {
                if !is_first {
                    out.push(44);  // ','
                }
                is_first = false;
                let ghost mid = out@;
                if object_mode {
                    encode_string(&field_encoder.field.name, out);
                    out.push(58);  // ':'
                    assert(out@ =~= mid + json_string(field_encoder.field.name@) + seq![58u8]);
                }
                if is_null {
                    write_null(out);
                } else {
                    field_encoder.encoder.encode(idx, out);
                }
                proof {
                    let f = self.encoders@[k as int];
                    let prefix = if self.struct_mode is ObjectOnly {
                        json_string(f.field.name@) + seq![58u8]
                    } else {
                        Seq::<u8>::empty()
                    };
                    let body = if is_null {
                        null_lit()
                    } else {
                        f.encoder.json_at(idx as int)
                    };
                    lemma_join_comma_push(frags, prefix + body);
                    assert(struct_frags(
                        self.encoders@,
                        k + 1,
                        idx as int,
                        self.struct_mode,
                        self.explicit_nulls,
                    ) == frags.push(prefix + body));
                    assert(out@ =~= old(out)@ + seq![open] + join_comma(frags.push(prefix + body)));
                }
            } else {
                proof {
                    assert(struct_frags(
                        self.encoders@,
                        k + 1,
                        idx as int,
                        self.struct_mode,
                        self.explicit_nulls,
                    ) == frags);
                }
            }
            k = k + 1;
        }
        out.push(if object_mode { 125 } else { 93 });  // '}' or ']'
        assert(out@ =~= old(out)@ + Encoder::Struct(*self).json_at(idx as int));
    }
}

impl DictionaryEncoder {
    /// Resolves the key at `idx` into the shared value array and delegates
    /// entirely to the child encoder at that resolved index.
    pub fn encode(&self, idx: usize, out: &mut Vec<u8>)
        requires
            Encoder::Dictionary(*self).wf(),
            (idx as nat) < Encoder::Dictionary(*self).len(),
            !Encoder::Dictionary(*self).spec_is_null(idx as int),
        ensures
            final(out)@ == old(out)@ + Encoder::Dictionary(*self).json_at(idx as int),
        decreases *self,
    {
        let key = self.keys[idx];
        self.encoder.encode(key, out);
    }
}

impl MapEncoder {
    /// Renders `{`, then `key:value` for each entry of the row's offset
    /// range (dropping entries with null values unless explicit nulls are
    /// requested), then `}`.
    pub fn encode(&self, idx: usize, out: &mut Vec<u8>)
        requires
            Encoder::MapArray(*self).wf(),
            (idx as nat) < Encoder::MapArray(*self).len(),
        ensures
            final(out)@ == old(out)@ + Encoder::MapArray(*self).json_at(idx as int),
        decreases *self,
    {
        let n_off = self.offsets.len();
        proof {
            assert(idx + 1 < n_off);
        }
        let start = self.offsets[idx];
        let end = self.offsets[idx + 1];
        proof {
            assert(self.offsets@[idx as int] <= self.offsets@[idx + 1]);
            assert(self.offsets@[idx + 1] <= self.offsets@[self.offsets@.len() - 1]);
        }
        let mut is_first = true;
        out.push(123);  // '{'
        let mut j = start;
        while j < end
            invariant
                Encoder::MapArray(*self).wf(),
                start <= j <= end,
                end as nat <= self.keys.len(),
                out@ == old(out)@ + seq![123u8] + join_comma(
                    map_frags(*self, start as int, j as int),
                ),
                is_first == (map_frags(*self, start as int, j as int).len() == 0),
            decreases end - j,
        {
            let ghost frags = map_frags(*self, start as int, j as int);
            let is_null = self.values.is_null(j);
            if !(is_null && !self.explicit_nulls) {
                if !is_first {
                    out.push(44);  // ','
                }
                is_first = false;
                let ghost mid = out@;
                proof {
                    assert(!self.keys.spec_is_null(j as int));
                }
                self.keys.encode(j, out);
                out.push(58);  // ':'
                assert(out@ =~= mid + self.keys.json_at(j as int) + seq![58u8]);
                if is_null {
                    write_null(out);
                } else {
                    self.values.encode(j, out);
                }
                proof {
                    let body = if is_null {
                        null_lit()
                    } else {
                        self.values.json_at(j as int)
                    };
                    let frag = self.keys.json_at(j as int) + seq![58u8] + body;
                    lemma_join_comma_push(frags, frag);
                    assert(map_frags(*self, start as int, j + 1) == frags.push(frag));
                    assert(out@ =~= old(out)@ + seq![123u8] + join_comma(frags.push(frag)));
                }
            } else {
                proof {
                    assert(map_frags(*self, start as int, j + 1) == frags);
                }
            }
            j = j + 1;
        }
        out.push(125);  // '}'
        assert(out@ =~= old(out)@ + Encoder::MapArray(*self).json_at(idx as int));
    }
}

} // verus!
