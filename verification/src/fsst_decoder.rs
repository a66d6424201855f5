//! The FSST decoder: expands FSST-compressed byte strings using the symbol
//! and length tables read from the buffer's header.
//!
//! Each compressed string is a run of codes: the escape code is followed by
//! one literal byte, and every other code stands for a prefix of its 8-byte
//! table symbol, cut to the table length. The exact expansion is pinned by
//! [`fsst_decode`]; a whole batch by [`fsst_decode_n`].

use vstd::prelude::*;
use vstd::pervasive::VecAdditionalExecFns;

use crate::fsst::{
    bytes_from_vec, bytes_get, bytes_len, bytes_seq, read_fsst_header, FSSTHeader, FsstError,
    ESCAPE_CODE,
};

verus! {

/// The outcome of looking one code up in the tables.
pub enum DecodeResult {
    /// Escape code encountered: the next byte should be copied literally.
    Escape,
    /// A symbol was found: the 8 stored symbol bytes and the actual length.
    Symbol([u8; 8], u8),
}

impl FSSTHeader {
    /// Looks up one code: the escape code, or the symbol bytes and actual
    /// length stored for it.
    pub fn lookup(&self, code: u8) -> (r: DecodeResult)
        requires
            self.wf(),
        ensures
            match r {
                DecodeResult::Escape => code == ESCAPE_CODE,
                DecodeResult::Symbol(sym, len) => {
                    &&& code != ESCAPE_CODE
                    &&& sym@ == bytes_seq(self.symbol_table.inner).subrange(
                        code as int * 8,
                        code as int * 8 + 8,
                    )
                    &&& len == bytes_seq(self.length_table.inner)[code as int]
                },
            },
    {
        if code == ESCAPE_CODE {
            DecodeResult::Escape
        } else {
            DecodeResult::Symbol(self.symbol_table.index(code), self.length_table.index(code))
        }
    }
}

/// The distance from `cur` up to `end`, zero once `cur` has passed it.
pub open spec fn decode_measure(cur: int, end: int) -> nat {
    if cur < end {
        (end - cur) as nat
    } else {
        0
    }
}

/// The expansion of the compressed bytes of `data` from `cur` up to `end`,
/// over symbol table `st` and length table `lt`: the decoded bytes and the
/// final cursor, or nothing where the data runs out (or a table length
/// exceeds the symbol width). An escape pair may straddle `end`: its
/// literal byte is consumed even when it sits at `end` itself.
pub open spec fn fsst_decode(data: Seq<u8>, st: Seq<u8>, lt: Seq<u8>, cur: int, end: int) -> Option<
    (Seq<u8>, int),
>
    decreases decode_measure(cur, end),
{
    if cur >= end {
        Option::Some((Seq::empty(), cur))
    } else if cur >= data.len() {
        Option::None
    } else if data[cur] == ESCAPE_CODE {
        if cur + 1 >= data.len() {
            Option::None
        } else {
            match fsst_decode(data, st, lt, cur + 2, end) {
                Option::Some(rest) => Option::Some((seq![data[cur + 1]] + rest.0, rest.1)),
                Option::None => Option::None,
            }
        }
    } else {
        let code = data[cur] as int;
        let sym_len = lt[code] as int;
        if sym_len > 8 {
            Option::None
        } else {
            match fsst_decode(data, st, lt, cur + 1, end) {
                Option::Some(rest) => Option::Some(
                    (st.subrange(code * 8, code * 8 + sym_len) + rest.0, rest.1),
                ),
                Option::None => Option::None,
            }
        }
    }
}

/// The expansion of `n` consecutive compressed strings starting at `cur`,
/// their compressed lengths taken from `lengths` starting at `li`: the
/// decoded strings, the final cursor, and the final length index.
pub open spec fn fsst_decode_n(
    data: Seq<u8>,
    st: Seq<u8>,
    lt: Seq<u8>,
    cur: int,
    lengths: Seq<i32>,
    li: int,
    n: int,
) -> Option<(Seq<Seq<u8>>, int, int)>
    decreases n,
{
    if n <= 0 {
        Option::Some((Seq::empty(), cur, li))
    } else {
        match fsst_decode(data, st, lt, cur, cur + lengths[li] as int) {
            Option::None => Option::None,
            Option::Some(p) => match fsst_decode_n(data, st, lt, p.1, lengths, li + 1, n - 1) {
                Option::None => Option::None,
                Option::Some(q) => Option::Some((seq![p.0] + q.0, q.1, q.2)),
            },
        }
    }
}

/// Decodes FSST-compressed strings: the header tables, the decoded
/// per-string compressed lengths, the data buffer, and the two cursors
/// into them.
pub struct FSSTDecoder {
    pub header: Option<FSSTHeader>,
    pub compressed_lengths: Vec<i32>,
    pub length_cursor: usize,
    pub data: Option<bytes::Bytes>,
    pub data_cursor: usize,
    pub num_values: usize,
}

impl FSSTDecoder {
    /// The tables are full-sized, the cursors sit inside their buffers,
    /// the compressed lengths are non-negative, and the remaining value
    /// count matches the lengths not yet consumed.
    pub open spec fn wf(&self) -> bool {
        &&& match self.header {
            Option::Some(h) => h.wf(),
            Option::None => true,
        }
        &&& match self.data {
            Option::Some(d) => self.data_cursor as nat <= bytes_seq(d).len(),
            Option::None => true,
        }
        &&& self.length_cursor + self.num_values == self.compressed_lengths@.len()
        &&& forall|i: int|
            0 <= i < self.compressed_lengths@.len() ==> #[trigger] self.compressed_lengths@[i] >= 0
    }

    /// A decoder with no data set.
    pub fn new() -> (r: FSSTDecoder)
        ensures
            r.header is None,
            r.data is None,
            r.compressed_lengths@.len() == 0,
            r.length_cursor == 0,
            r.data_cursor == 0,
            r.num_values == 0,
            r.wf(),
    {
        FSSTDecoder {
            header: Option::None,
            compressed_lengths: Vec::new(),
            length_cursor: 0,
            data: Option::None,
            data_cursor: 0,
            num_values: 0,
        }
    }

    /// Sets a new compressed buffer: reads the header tables from its
    /// front and takes the per-string compressed lengths, which an outside
    /// length decoder produced. Fails exactly when the buffer is shorter
    /// than the header or some length is negative; the decoder is then
    /// left unchanged.
    pub fn set_data(&mut self, data: bytes::Bytes, lengths: Vec<i32>) -> (r: Result<
        (),
        FsstError,
    >)
        ensures
            match r {
                Result::Ok(()) => {
                    &&& bytes_seq(data).len() >= 2304
                    &&& forall|i: int|
                        0 <= i < lengths@.len() ==> #[trigger] lengths@[i] >= 0
                    &&& final(self).header matches Option::Some(h) && h.wf() && bytes_seq(
                        h.symbol_table.inner,
                    ) == bytes_seq(data).subrange(0, 2048) && bytes_seq(h.length_table.inner)
                        == bytes_seq(data).subrange(2048, 2304)
                    &&& final(self).data matches Option::Some(d) && bytes_seq(d) == bytes_seq(
                        data,
                    ).subrange(2304, bytes_seq(data).len() as int)
                    &&& final(self).compressed_lengths == lengths
                    &&& final(self).data_cursor == 0
                    &&& final(self).length_cursor == 0
                    &&& final(self).num_values == lengths@.len()
                    &&& final(self).wf()
                },
                Result::Err(_) => {
                    &&& (bytes_seq(data).len() < 2304 || exists|i: int|
                        0 <= i < lengths@.len() && #[trigger] lengths@[i] < 0)
                    &&& *final(self) == *old(self)
                },
            },
    {
        let (header, rest) = match read_fsst_header(data) {
            Result::Ok(p) => p,
            Result::Err(e) => {
                return Result::Err(e);
            },
        };
        let n = lengths.len();
        let mut i: usize = 0;
        while i < n
            invariant
                n == lengths@.len(),
                i <= n,
                forall|j: int| 0 <= j < i ==> #[trigger] lengths@[j] >= 0,
            decreases n - i,
        {
            if lengths[i] < 0 {
                proof {
                    assert(lengths@[i as int] < 0);
                }
                return Result::Err(
                    FsstError::General(String::from_str("invalid compressed length")),
                );
            }
            i = i + 1;
        }
        self.header = Option::Some(header);
        self.compressed_lengths = lengths;
        self.length_cursor = 0;
        self.data = Option::Some(rest);
        self.data_cursor = 0;
        self.num_values = n;
        Result::Ok(())
    }

    /// Decodes a complete string by consuming exactly `compressed_len`
    /// compressed bytes (an escape pair may straddle that boundary), and
    /// returns the expanded string. The expansion and the final data
    /// cursor are exactly those of [`fsst_decode`]; the decoder fails if
    /// it is not initialized or the data runs out, leaving every field but
    /// the data cursor unchanged.
    pub fn decode_string(&mut self, compressed_len: usize) -> (r: Result<bytes::Bytes, FsstError>)
        requires
            old(self).header matches Option::Some(h) ==> h.wf(),
            old(self).data matches Option::Some(d) ==> old(self).data_cursor as nat <= bytes_seq(
                d,
            ).len(),
        ensures
            final(self).header == old(self).header,
            final(self).compressed_lengths == old(self).compressed_lengths,
            final(self).length_cursor == old(self).length_cursor,
            final(self).data == old(self).data,
            final(self).num_values == old(self).num_values,
            final(self).data matches Option::Some(d) ==> final(self).data_cursor as nat
                <= bytes_seq(d).len(),
            match (old(self).header, old(self).data) {
                (Option::Some(h), Option::Some(d)) => {
                    let res = fsst_decode(
                        bytes_seq(d),
                        bytes_seq(h.symbol_table.inner),
                        bytes_seq(h.length_table.inner),
                        old(self).data_cursor as int,
                        old(self).data_cursor + compressed_len,
                    );
                    match r {
                        Result::Ok(out) => {
                            &&& res matches Option::Some(p)
                            &&& bytes_seq(out) == p.0
                            &&& final(self).data_cursor == p.1
                        },
                        Result::Err(_) => res is None,
                    }
                },
                _ => r is Err && final(self).data_cursor == old(self).data_cursor,
            },
    {
        let data = match &self.data {
            Option::Some(d) => d,
            Option::None => {
                return Result::Err(FsstError::General(String::from_str("not initialized")));
            },
        };
        let header = match &self.header {
            Option::Some(h) => h,
            Option::None => {
                return Result::Err(FsstError::General(String::from_str("not initialized")));
            },
        };
        let ghost gdata = bytes_seq(*data);
        let ghost st = bytes_seq(header.symbol_table.inner);
        let ghost lt = bytes_seq(header.length_table.inner);
        let ghost cur0 = self.data_cursor as int;
        let ghost gend = self.data_cursor + compressed_len as int;
        let data_len = bytes_len(data);
        let mut output: Vec<u8> = Vec::new();
        let mut cur: usize = self.data_cursor;
        let mut remaining: usize = compressed_len;
        while remaining > 0
            invariant
                *self == *old(self),
                cur0 == old(self).data_cursor as int,
                cur0 <= data_len as int,
                gend == cur0 + compressed_len,
                self.header == Option::Some(*header),
                self.data == Option::Some(*data),
                header.wf(),
                st == bytes_seq(header.symbol_table.inner),
                lt == bytes_seq(header.length_table.inner),
                gdata == bytes_seq(*data),
                data_len as nat == gdata.len(),
                cur <= data_len,
                remaining as int == if (cur as int) < gend {
                    gend - cur
                } else {
                    0int
                },
                match fsst_decode(gdata, st, lt, cur as int, gend) {
                    Option::Some(p) => fsst_decode(gdata, st, lt, cur0, gend)
                        == Option::Some::<(Seq<u8>, int)>((output@ + p.0, p.1)),
                    Option::None => fsst_decode(gdata, st, lt, cur0, gend) is None,
                },
            decreases remaining,
        {
            if cur >= data_len {
                proof {
                    assert(fsst_decode(gdata, st, lt, cur as int, gend) is None);
                }
                return Result::Err(FsstError::General(String::from_str("unexpected end of data")));
            }
            let code = bytes_get(data, cur);
            let ghost cur_at = cur as int;
            let ghost out_at = output@;
            cur = cur + 1;
            remaining = remaining - 1;
            match header.lookup(code) {
                DecodeResult::Escape => {
                    if cur >= data_len {
                        return Result::Err(
                            FsstError::General(
                                String::from_str("unexpected end of data after escape"),
                            ),
                        );
                    }
                    output.push(bytes_get(data, cur));
                    cur = cur + 1;
                    remaining = if remaining > 0 {
                        remaining - 1
                    } else {
                        0
                    };
                    proof {
                        assert(output@ =~= out_at + seq![gdata[cur_at + 1]]);
                        match fsst_decode(gdata, st, lt, cur as int, gend) {
                            Option::Some(p) => {
                                assert(fsst_decode(gdata, st, lt, cur_at, gend)
                                    == Option::Some::<(Seq<u8>, int)>(
                                    (seq![gdata[cur_at + 1]] + p.0, p.1),
                                ));
                                assert(out_at + (seq![gdata[cur_at + 1]] + p.0) =~= output@ + p.0);
                            },
                            Option::None => {},
                        }
                    }
                },
                DecodeResult::Symbol(sym, len) => {
                    if len > 8 {
                        return Result::Err(
                            FsstError::General(String::from_str("symbol length exceeds width")),
                        );
                    }
                    let ghost code8 = code as int * 8;
                    let l = len as usize;
                    let mut k: usize = 0;
                    while k < l
                        invariant
                            k <= l,
                            l <= 8,
                            sym@ == st.subrange(code8, code8 + 8),
                            0 <= code8,
                            code8 + 8 <= st.len(),
                            output@ == out_at + st.subrange(code8, code8 + k as int),
                        decreases l - k,
                    {
                        output.push(sym[k]);
                        proof {
                            assert(st.subrange(code8, code8 + 8)[k as int] == st[code8 + k]);
                            assert(sym@[k as int] == st[code8 + k]);
                            assert(output@ =~= out_at + st.subrange(code8, code8 + k + 1));
                        }
                        k = k + 1;
                    }
                    proof {
                        let symsq = st.subrange(code8, code8 + len as int);
                        assert(output@ == out_at + symsq);
                        match fsst_decode(gdata, st, lt, cur as int, gend) {
                            Option::Some(p) => {
                                assert(fsst_decode(gdata, st, lt, cur_at, gend)
                                    == Option::Some::<(Seq<u8>, int)>((symsq + p.0, p.1)));
                                assert(out_at + (symsq + p.0) =~= output@ + p.0);
                            },
                            Option::None => {},
                        }
                    }
                },
            }
        }
        self.data_cursor = cur;
        Result::Ok(bytes_from_vec(output))
    }

    /// Fills the first slots of `buffer` with the next decoded strings:
    /// as many as the buffer holds or values remain, whichever is fewer.
    /// The decoded strings and the new cursors are exactly those of
    /// [`fsst_decode_n`]; a decode failure is reported as an error.
    pub fn get(&mut self, buffer: &mut Vec<bytes::Bytes>) -> (r: Result<usize, FsstError>)
        requires
            old(self).wf(),
        ensures
            final(self).header == old(self).header,
            final(self).compressed_lengths == old(self).compressed_lengths,
            final(self).data == old(self).data,
            r is Ok ==> final(self).wf(),
            final(buffer)@.len() == old(buffer)@.len(),
            match (old(self).header, old(self).data) {
                (Option::Some(h), Option::Some(d)) => {
                    match r {
                        Result::Ok(n) => {
                            &&& n == vstd::math::min(
                                old(buffer)@.len() as int,
                                old(self).num_values as int,
                            )
                            &&& fsst_decode_n(
                                bytes_seq(d),
                                bytes_seq(h.symbol_table.inner),
                                bytes_seq(h.length_table.inner),
                                old(self).data_cursor as int,
                                old(self).compressed_lengths@,
                                old(self).length_cursor as int,
                                n as int,
                            ) matches Option::Some(q) && {
                                let out = final(buffer)@;
                                &&& q.0.len() == n
                                &&& forall|j: int|
                                    0 <= j < n as int ==> bytes_seq(#[trigger] out[j]) == q.0[j]
                                &&& forall|j: int|
                                    n as int <= j < out.len() ==> #[trigger] out[j] == old(
                                        buffer,
                                    )@[j]
                                &&& final(self).data_cursor == q.1
                                &&& final(self).length_cursor == q.2
                                &&& final(self).num_values == old(self).num_values - n
                            }
                        },
                        Result::Err(_) => fsst_decode_n(
                            bytes_seq(d),
                            bytes_seq(h.symbol_table.inner),
                            bytes_seq(h.length_table.inner),
                            old(self).data_cursor as int,
                            old(self).compressed_lengths@,
                            old(self).length_cursor as int,
                            vstd::math::min(
                                old(buffer)@.len() as int,
                                old(self).num_values as int,
                            ),
                        ) is None,
                    }
                },
                _ => {
                    &&& (old(self).num_values > 0 && old(buffer)@.len() > 0 ==> r is Err)
                    &&& (r matches Result::Ok(n) ==> n == vstd::math::min(
                        old(buffer)@.len() as int,
                        old(self).num_values as int,
                    ) && *final(self) == *old(self) && final(buffer)@ == old(buffer)@)
                },
            },
    {
        let n = if buffer.len() < self.num_values {
            buffer.len()
        } else {
            self.num_values
        };
        let ghost cur0 = self.data_cursor as int;
        let ghost li0 = self.length_cursor as int;
        let ghost lens = self.compressed_lengths@;
        let mut k: usize = 0;
        let ghost mut done: Seq<Seq<u8>> = Seq::empty();
        while k < n
            invariant
                old(self).wf(),
                k <= n,
                n <= old(buffer)@.len(),
                n <= old(self).num_values,
                n as int == vstd::math::min(
                    old(buffer)@.len() as int,
                    old(self).num_values as int,
                ),
                self.header == old(self).header,
                self.compressed_lengths == old(self).compressed_lengths,
                self.data == old(self).data,
                lens == old(self).compressed_lengths@,
                self.length_cursor as int == li0 + k,
                self.num_values == old(self).num_values,
                li0 == old(self).length_cursor as int,
                cur0 == old(self).data_cursor as int,
                k == 0 ==> self.data_cursor as int == cur0,
                k > 0 ==> old(self).header is Some && old(self).data is Some,
                match self.header {
                    Option::Some(h) => h.wf(),
                    Option::None => true,
                },
                match self.data {
                    Option::Some(d) => self.data_cursor as nat <= bytes_seq(d).len(),
                    Option::None => true,
                },
                buffer@.len() == old(buffer)@.len(),
                forall|j: int| n as int <= j < buffer@.len() ==> #[trigger] buffer@[j] == old(
                    buffer,
                )@[j],
                done.len() == k,
                forall|j: int| 0 <= j < k as int ==> bytes_seq(#[trigger] buffer@[j]) == done[j],
                old(self).header matches Option::Some(h) ==> old(self).data matches Option::Some(d)
                    ==> match fsst_decode_n(
                    bytes_seq(d),
                    bytes_seq(h.symbol_table.inner),
                    bytes_seq(h.length_table.inner),
                    self.data_cursor as int,
                    lens,
                    li0 + k,
                    n - k,
                ) {
                    Option::Some(q) => fsst_decode_n(
                        bytes_seq(d),
                        bytes_seq(h.symbol_table.inner),
                        bytes_seq(h.length_table.inner),
                        cur0,
                        lens,
                        li0,
                        n as int,
                    ) == Option::Some::<(Seq<Seq<u8>>, int, int)>((done + q.0, q.1, q.2)),
                    Option::None => fsst_decode_n(
                        bytes_seq(d),
                        bytes_seq(h.symbol_table.inner),
                        bytes_seq(h.length_table.inner),
                        cur0,
                        lens,
                        li0,
                        n as int,
                    ) is None,
                },
            decreases n - k,
        {
            let total_lengths = self.compressed_lengths.len();
            let compressed_len_i32 = self.compressed_lengths[self.length_cursor];
            let compressed_len = compressed_len_i32 as usize;
            let ghost cur_pre = self.data_cursor as int;
            let ghost pre_done = done;
            let decompressed = match self.decode_string(compressed_len) {
                Result::Ok(b) => b,
                Result::Err(e) => {
                    proof {
                        match (old(self).header, old(self).data) {
                            (Option::Some(h), Option::Some(d)) => {
                                assert(fsst_decode_n(
                                    bytes_seq(d),
                                    bytes_seq(h.symbol_table.inner),
                                    bytes_seq(h.length_table.inner),
                                    cur_pre,
                                    lens,
                                    li0 + k,
                                    n - k,
                                ) is None);
                            },
                            _ => {},
                        }
                    }
                    return Result::Err(e);
                },
            };
            proof {
                done = pre_done.push(bytes_seq(decompressed));
            }
            buffer.set(k, decompressed);
            self.length_cursor = self.length_cursor + 1;
            proof {
                match (old(self).header, old(self).data) {
                    (Option::Some(h), Option::Some(d)) => {
                        match fsst_decode_n(
                            bytes_seq(d),
                            bytes_seq(h.symbol_table.inner),
                            bytes_seq(h.length_table.inner),
                            self.data_cursor as int,
                            lens,
                            li0 + k + 1,
                            n - k - 1,
                        ) {
                            Option::Some(q) => {
                                assert(pre_done + (seq![bytes_seq(decompressed)] + q.0) =~= done
                                    + q.0);
                            },
                            Option::None => {},
                        }
                    },
                    _ => {},
                }
            }
            k = k + 1;
        }
        proof {
            assert(done + Seq::<Seq<u8>>::empty() =~= done);
        }
        self.num_values = self.num_values - n;
        Result::Ok(n)
    }

    /// The number of values not yet decoded.
    pub fn values_left(&self) -> (r: usize)
        ensures
            r == self.num_values,
    {
        self.num_values
    }

    /// Skips the next `num_values` values (or as many as remain) by
    /// decoding them into a scratch buffer, and reports how many were
    /// skipped: the cursors advance and the remaining count drops exactly
    /// as they do for [`FSSTDecoder::get`].
    pub fn skip(&mut self, num_values: usize) -> (r: Result<usize, FsstError>)
        requires
            old(self).wf(),
        ensures
            final(self).header == old(self).header,
            final(self).compressed_lengths == old(self).compressed_lengths,
            final(self).data == old(self).data,
            r is Ok ==> final(self).wf(),
            match (old(self).header, old(self).data) {
                (Option::Some(h), Option::Some(d)) => {
                    let chain = fsst_decode_n(
                        bytes_seq(d),
                        bytes_seq(h.symbol_table.inner),
                        bytes_seq(h.length_table.inner),
                        old(self).data_cursor as int,
                        old(self).compressed_lengths@,
                        old(self).length_cursor as int,
                        vstd::math::min(num_values as int, old(self).num_values as int),
                    );
                    match r {
                        Result::Ok(n) => {
                            &&& n == vstd::math::min(
                                num_values as int,
                                old(self).num_values as int,
                            )
                            &&& chain matches Option::Some(q) && {
                                &&& final(self).data_cursor == q.1
                                &&& final(self).length_cursor == q.2
                                &&& final(self).num_values == old(self).num_values - n
                            }
                        },
                        Result::Err(_) => chain is None,
                    }
                },
                _ => {
                    &&& (old(self).num_values > 0 && num_values > 0 ==> r is Err)
                    &&& (r matches Result::Ok(n) ==> n == vstd::math::min(
                        num_values as int,
                        old(self).num_values as int,
                    ) && *final(self) == *old(self))
                },
            },
    {
        let mut buffer: Vec<bytes::Bytes> = Vec::new();
        let mut i: usize = 0;
        while i < num_values
            invariant
                i <= num_values,
                buffer@.len() == i,
            decreases num_values - i,
        {
            buffer.push(bytes_from_vec(Vec::new()));
            i = i + 1;
        }
        self.get(&mut buffer)
    }
}

} // verus!
