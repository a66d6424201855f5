//! Laws of the encoder tree, proved once and for all: what record
//! rendering emits per field, dictionary round-trip byte-identity, the
//! offsets frame property of lists and maps, and the shape of the hex
//! rendering of binary columns.

use vstd::prelude::*;

use crate::array::ArrayData;
use crate::dispatch::build_err;
use crate::encoder::{
    item_json, join_comma, list_frags, map_frags, struct_frags, DictionaryEncoder, Encoder,
    FieldEncoder, ListEncoder, MapEncoder, StructArrayEncoder,
};
use crate::json::{hex_bytes, json_string, null_lit};
use crate::{Error, StructMode};

verus! {

/// The fragment one record field contributes when it is not dropped: the
/// escaped field name and a colon in object mode, then the value or the
/// `null` literal.
pub open spec fn field_fragment(f: FieldEncoder, i: int, mode: StructMode) -> Seq<u8> {
    (if mode is ObjectOnly {
        json_string(f.field.name@) + seq![58u8]
    } else {
        Seq::<u8>::empty()
    }) + (if f.encoder.spec_is_null(i) {
        null_lit()
    } else {
        f.encoder.json_at(i)
    })
}

/// When no field can be dropped — explicit nulls are on, or the record
/// renders in list mode — the rendered row has exactly one fragment per
/// declared field, in order, and a null field's fragment carries the
/// `null` literal.
pub proof fn lemma_struct_frags_total(
    fields: Seq<FieldEncoder>,
    k: int,
    i: int,
    mode: StructMode,
    explicit_nulls: bool,
)
    requires
        0 <= k <= fields.len(),
        explicit_nulls || mode is ListOnly,
    ensures
        struct_frags(fields, k, i, mode, explicit_nulls).len() == k,
        forall|j: int|
            0 <= j < k ==> struct_frags(fields, k, i, mode, explicit_nulls)[j]
                == field_fragment(fields[j], i, mode),
    decreases k,
{
    if k > 0 {
        lemma_struct_frags_total(fields, k - 1, i, mode, explicit_nulls);
    }
}

/// Null-dropping totality with explicit nulls: for explicit_nulls=true,
/// every record field that is null renders the `null` literal inside its
/// fragment and no field is ever omitted.
pub proof fn lemma_explicit_nulls_keep_every_field(s: StructArrayEncoder, i: int)
    requires
        s.explicit_nulls,
    ensures
        struct_frags(s.encoders@, s.encoders@.len() as int, i, s.struct_mode, s.explicit_nulls)
            .len() == s.encoders@.len(),
        forall|j: int|
            0 <= j < s.encoders@.len() ==> struct_frags(
                s.encoders@,
                s.encoders@.len() as int,
                i,
                s.struct_mode,
                s.explicit_nulls,
            )[j] == field_fragment(s.encoders@[j], i, s.struct_mode),
        forall|j: int|
            0 <= j < s.encoders@.len() && (#[trigger] s.encoders@[j]).encoder.spec_is_null(i)
                ==> field_fragment(s.encoders@[j], i, s.struct_mode)
                    =~= (if s.struct_mode is ObjectOnly {
                        json_string(s.encoders@[j].field.name@) + seq![58u8]
                    } else {
                        Seq::<u8>::empty()
                    }) + null_lit(),
{
    lemma_struct_frags_total(
        s.encoders@,
        s.encoders@.len() as int,
        i,
        s.struct_mode,
        s.explicit_nulls,
    );
}

/// List-mode totality: in list mode the number of comma-separated slots in
/// a rendered record row equals the number of declared fields, regardless
/// of the explicit-nulls option.
pub proof fn lemma_list_mode_total(s: StructArrayEncoder, i: int)
    requires
        s.struct_mode is ListOnly,
    ensures
        struct_frags(s.encoders@, s.encoders@.len() as int, i, s.struct_mode, s.explicit_nulls)
            .len() == s.encoders@.len(),
{
    lemma_struct_frags_total(
        s.encoders@,
        s.encoders@.len() as int,
        i,
        s.struct_mode,
        s.explicit_nulls,
    );
}

/// Joining one more fragment never shortens the joined bytes; it grows by
/// the fragment plus a comma when others precede it.
proof fn lemma_join_comma_push_len(frags: Seq<Seq<u8>>, x: Seq<u8>)
    ensures
        join_comma(frags.push(x)).len() == join_comma(frags).len() + x.len() + if frags.len() == 0 {
            0int
        } else {
            1int
        },
{
    crate::encoder::lemma_join_comma_push(frags, x);
}

/// Dropped fragments only shorten a record row: with the same fields, the
/// same row and object mode, the frags of the null-dropping rendering
/// join to at most as many bytes as those of the explicit-nulls rendering.
proof fn lemma_dropping_joins_shorter(fields: Seq<FieldEncoder>, k: int, i: int)
    requires
        0 <= k <= fields.len(),
    ensures
        join_comma(struct_frags(fields, k, i, StructMode::ObjectOnly, false)).len() <= join_comma(
            struct_frags(fields, k, i, StructMode::ObjectOnly, true),
        ).len(),
        struct_frags(fields, k, i, StructMode::ObjectOnly, false).len() <= struct_frags(
            fields,
            k,
            i,
            StructMode::ObjectOnly,
            true,
        ).len(),
    decreases k,
{
    if k > 0 {
        lemma_dropping_joins_shorter(fields, k - 1, i);
        let dropped = struct_frags(fields, k - 1, i, StructMode::ObjectOnly, false);
        let explicit = struct_frags(fields, k - 1, i, StructMode::ObjectOnly, true);
        let f = fields[k - 1];
        let prefix = json_string(f.field.name@) + seq![58u8];
        let body = if f.encoder.spec_is_null(i) {
            null_lit()
        } else {
            f.encoder.json_at(i)
        };
        lemma_join_comma_push_len(explicit, prefix + body);
        if !f.encoder.spec_is_null(i) {
            lemma_join_comma_push_len(dropped, prefix + body);
        }
    }
}

/// Null-dropping never lengthens a record row: rendering with nulls
/// dropped (object mode, explicit_nulls off) takes at most as many bytes
/// as rendering the same fields at the same row with explicit nulls.
pub proof fn lemma_null_dropping_never_lengthens(
    s1: StructArrayEncoder,
    s2: StructArrayEncoder,
    i: int,
)
    requires
        s1.encoders@ == s2.encoders@,
        s1.struct_mode is ObjectOnly,
        s2.struct_mode is ObjectOnly,
        !s1.explicit_nulls,
        s2.explicit_nulls,
    ensures
        Encoder::Struct(s1).json_at(i).len() <= Encoder::Struct(s2).json_at(i).len(),
{
    lemma_dropping_joins_shorter(s1.encoders@, s1.encoders@.len() as int, i);
}

/// Round-trip invariance for dictionaries: encoding a dictionary-typed
/// column at row `i` is byte-identical to encoding its value array at the
/// resolved key index, for every non-null row.
pub proof fn lemma_dictionary_round_trip(d: DictionaryEncoder, i: int)
    requires
        0 <= i < Encoder::Dictionary(d).len(),
        !Encoder::Dictionary(d).spec_is_null(i),
    ensures
        Encoder::Dictionary(d).json_at(i) == d.encoder.json_at(d.keys@[i] as int),
{
}

/// Two child encoders that agree on nullness and rendering over
/// `[start, end)` yield identical slot sequences over that range: slots
/// read nothing outside the range.
proof fn lemma_list_frags_frame(e1: Encoder, e2: Encoder, start: int, end: int)
    requires
        forall|j: int|
            #![trigger e1.spec_is_null(j)]
            start <= j < end ==> e1.spec_is_null(j) == e2.spec_is_null(j) && e1.json_at(j)
                == e2.json_at(j),
    ensures
        list_frags(e1, start, end) == list_frags(e2, start, end),
    decreases end - start,
{
    if end > start {
        lemma_list_frags_frame(e1, e2, start, end - 1);
        assert(e1.spec_is_null(end - 1) == e2.spec_is_null(end - 1));
        assert(item_json(e1, end - 1) == item_json(e2, end - 1));
    }
}

/// Offsets consistency for lists: rendering row `i` reads child indices
/// only within `[offsets[i], offsets[i+1])`. Two lists with the same
/// offsets whose children agree on exactly that range render row `i`
/// byte-identically, however the offsets relate across other rows.
pub proof fn lemma_list_reads_only_row_range(l1: ListEncoder, l2: ListEncoder, i: int)
    requires
        l1.offsets@ == l2.offsets@,
        0 <= i,
        i + 1 < l1.offsets@.len(),
        forall|j: int|
            #![trigger l1.encoder.spec_is_null(j)]
            l1.offsets@[i] <= j < l1.offsets@[i + 1] ==> l1.encoder.spec_is_null(j)
                == l2.encoder.spec_is_null(j) && l1.encoder.json_at(j) == l2.encoder.json_at(j),
    ensures
        Encoder::List(l1).json_at(i) == Encoder::List(l2).json_at(i),
{
    let start = l1.offsets@[i] as int;
    let end = l1.offsets@[i + 1] as int;
    assert forall|j: int|
        #![trigger (*l1.encoder).spec_is_null(j)]
        start <= j < end implies (*l1.encoder).spec_is_null(j) == (*l2.encoder).spec_is_null(j)
        && (*l1.encoder).json_at(j) == (*l2.encoder).json_at(j) by {
        assert(l1.encoder.spec_is_null(j) == l2.encoder.spec_is_null(j));
        assert(l1.encoder.json_at(j) == l2.encoder.json_at(j));
    }
    lemma_list_frags_frame(*l1.encoder, *l2.encoder, start, end);
}

/// Two maps whose key and value encoders agree on nullness and rendering
/// over `[start, end)`, under the same explicit-nulls choice, yield
/// identical entry sequences over that range.
proof fn lemma_map_frags_frame(m1: MapEncoder, m2: MapEncoder, start: int, end: int)
    requires
        m1.explicit_nulls == m2.explicit_nulls,
        forall|j: int|
            #![trigger m1.values.spec_is_null(j)]
            start <= j < end ==> m1.values.spec_is_null(j) == m2.values.spec_is_null(j)
                && m1.values.json_at(j) == m2.values.json_at(j) && m1.keys.json_at(j)
                == m2.keys.json_at(j),
    ensures
        map_frags(m1, start, end) == map_frags(m2, start, end),
    decreases end - start,
{
    if end > start {
        lemma_map_frags_frame(m1, m2, start, end - 1);
        assert(m1.values.spec_is_null(end - 1) == m2.values.spec_is_null(end - 1));
    }
}

/// Offsets consistency for maps: rendering row `i` reads entry indices
/// only within `[offsets[i], offsets[i+1])`.
pub proof fn lemma_map_reads_only_row_range(m1: MapEncoder, m2: MapEncoder, i: int)
    requires
        m1.offsets@ == m2.offsets@,
        m1.explicit_nulls == m2.explicit_nulls,
        0 <= i,
        i + 1 < m1.offsets@.len(),
        forall|j: int|
            #![trigger m1.values.spec_is_null(j)]
            m1.offsets@[i] <= j < m1.offsets@[i + 1] ==> m1.values.spec_is_null(j)
                == m2.values.spec_is_null(j) && m1.values.json_at(j) == m2.values.json_at(j)
                && m1.keys.json_at(j) == m2.keys.json_at(j),
    ensures
        Encoder::MapArray(m1).json_at(i) == Encoder::MapArray(m2).json_at(i),
{
    let start = m1.offsets@[i] as int;
    let end = m1.offsets@[i + 1] as int;
    assert forall|j: int|
        #![trigger m1.values.spec_is_null(j)]
        start <= j < end implies m1.values.spec_is_null(j) == m2.values.spec_is_null(j)
        && m1.values.json_at(j) == m2.values.json_at(j) && m1.keys.json_at(j)
        == m2.keys.json_at(j) by {
        assert(m1.values.spec_is_null(j) == m2.values.spec_is_null(j));
    }
    lemma_map_frags_frame(m1, m2, start, end);
}

/// Map key validation: a map array whose keys are not UTF-8 text — an
/// integer-keyed map among them — always fails construction with
/// `InvalidMapKeyType`: it is exactly the error [`build_err`] reports, so
/// the builder's contract returns it and hands back no partial encoder.
pub proof fn lemma_map_key_validation(a: ArrayData)
    requires
        match a {
            ArrayData::MapArray { keys, .. } => !(*keys matches ArrayData::Utf8 { .. }),
            _ => false,
        },
    ensures
        build_err(a) == Option::<Error>::Some(Error::InvalidMapKeyType),
{
}

/// A byte is a lowercase hex digit: `0` to `9` or `a` to `f`.
pub open spec fn is_lower_hex_digit(b: u8) -> bool {
    (48 <= b <= 57) || (97 <= b <= 102)
}

/// Hex binary encoding shape: the hex rendering of any byte sequence is
/// exactly two lowercase hex characters per byte, no separators.
pub proof fn lemma_hex_shape(s: Seq<u8>)
    ensures
        hex_bytes(s).len() == 2 * s.len(),
        forall|k: int| 0 <= k < hex_bytes(s).len() ==> is_lower_hex_digit(#[trigger] hex_bytes(s)[k]),
    decreases s.len(),
{
    if s.len() > 0 {
        lemma_hex_shape(s.drop_last());
    }
}

} // verus!
