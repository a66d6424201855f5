//! FSST symbol and length tables, read from the head of a compressed
//! buffer.
//!
//! The tables live in [`bytes::Bytes`] buffers: cheaply sliceable, shared,
//! immutable byte storage. The crate's own code never touches their
//! internals; every access goes through the small trusted wrappers below,
//! whose contracts speak of the buffer's contents as a byte sequence.

use vstd::prelude::*;

verus! {

/// The width of one symbol table entry in bytes.
pub const SYMBOL_WIDTH_BYTES: usize = 8;

/// The number of entries in the symbol and length tables.
pub const NUM_TABLE_ELEMENTS: usize = 256;

/// The code marking an escaped literal byte.
pub const ESCAPE_CODE: u8 = 0xFF;

/// An error while reading or decoding an FSST buffer.
#[derive(Debug, Clone)]
pub enum FsstError {
    General(String),
}

/// The contents of a `bytes::Bytes` buffer, as a byte sequence.
pub uninterp spec fn bytes_seq(b: bytes::Bytes) -> Seq<u8>;

#[verifier::external_type_specification]
#[verifier::external_body]
pub struct ExBytes(bytes::Bytes);

/// Relies on `Clone for bytes::Bytes`: cloning shares the same contents
/// without copying them.
pub assume_specification[ <bytes::Bytes as core::clone::Clone>::clone ](b: &bytes::Bytes) -> (r:
    bytes::Bytes)
    ensures
        bytes_seq(r) == bytes_seq(*b),
;

/// Relies on `bytes::Bytes::len`: the number of bytes in the buffer.
#[verifier::external_body]
pub fn bytes_len(b: &bytes::Bytes) -> (r: usize)
    ensures
        r as nat == bytes_seq(*b).len(),
{
    b.len()
}

/// Relies on the `core::ops::Index` view of `bytes::Bytes` (through its
/// slice deref): the byte at position `i`.
#[verifier::external_body]
pub fn bytes_get(b: &bytes::Bytes, i: usize) -> (r: u8)
    requires
        i < bytes_seq(*b).len(),
    ensures
        r == bytes_seq(*b)[i as int],
{
    b[i]
}

/// Relies on `bytes::Bytes::slice`: a new buffer holding exactly the bytes
/// of the given range, without copying.
#[verifier::external_body]
pub fn bytes_slice(b: &bytes::Bytes, start: usize, end: usize) -> (r: bytes::Bytes)
    requires
        start <= end,
        end <= bytes_seq(*b).len(),
    ensures
        bytes_seq(r) == bytes_seq(*b).subrange(start as int, end as int),
{
    b.slice(start..end)
}

/// Relies on `From<Vec<u8>> for bytes::Bytes`: the buffer takes over the
/// vector's bytes unchanged.
#[verifier::external_body]
pub fn bytes_from_vec(v: Vec<u8>) -> (r: bytes::Bytes)
    ensures
        bytes_seq(r) == v@,
{
    bytes::Bytes::from(v)
}

/// The 256-entry table of 8-byte symbols.
#[derive(Debug, Clone)]
pub struct SymbolTable {
    pub inner: bytes::Bytes,
}

impl SymbolTable {
    /// The table holds exactly 256 entries of 8 bytes each.
    pub open spec fn wf(&self) -> bool {
        bytes_seq(self.inner).len() == 2048
    }

    /// The 8 symbol bytes stored for code `i`.
    pub fn index(&self, i: u8) -> (r: [u8; 8])
        requires
            self.wf(),
        ensures
            r@ == bytes_seq(self.inner).subrange(i as int * 8, i as int * 8 + 8),
    {
        let offset = (i as usize) * 8;
        let r: [u8; 8] = [
            bytes_get(&self.inner, offset),
            bytes_get(&self.inner, offset + 1),
            bytes_get(&self.inner, offset + 2),
            bytes_get(&self.inner, offset + 3),
            bytes_get(&self.inner, offset + 4),
            bytes_get(&self.inner, offset + 5),
            bytes_get(&self.inner, offset + 6),
            bytes_get(&self.inner, offset + 7),
        ];
        proof {
            assert(r@ =~= bytes_seq(self.inner).subrange(i as int * 8, i as int * 8 + 8));
        }
        r
    }
}

/// The 256-entry table of symbol lengths.
#[derive(Debug, Clone)]
pub struct LengthTable {
    pub inner: bytes::Bytes,
}

impl LengthTable {
    /// The table holds exactly one length byte per code.
    pub open spec fn wf(&self) -> bool {
        bytes_seq(self.inner).len() == 256
    }

    /// The symbol length stored for code `i`.
    pub fn index(&self, i: u8) -> (r: u8)
        requires
            self.wf(),
        ensures
            r == bytes_seq(self.inner)[i as int],
    {
        bytes_get(&self.inner, i as usize)
    }
}

/// The header of an FSST-compressed buffer: its symbol and length tables.
#[derive(Debug, Clone)]
pub struct FSSTHeader {
    pub symbol_table: SymbolTable,
    pub length_table: LengthTable,
}

impl FSSTHeader {
    /// Both tables have their full size.
    pub open spec fn wf(&self) -> bool {
        self.symbol_table.wf() && self.length_table.wf()
    }
}

/// Reads and builds up the symbol and length tables: the first 2048 bytes
/// are the symbol table, the next 256 the length table, and everything
/// after the 2304-byte header is returned as the data to decode. Fails
/// exactly when the buffer is shorter than the header.
pub fn read_fsst_header(bytes: bytes::Bytes) -> (r: Result<(FSSTHeader, bytes::Bytes), FsstError>)
    ensures
        match r {
            Result::Ok((header, data)) => {
                &&& bytes_seq(bytes).len() >= 2304
                &&& header.wf()
                &&& bytes_seq(header.symbol_table.inner) == bytes_seq(bytes).subrange(0, 2048)
                &&& bytes_seq(header.length_table.inner) == bytes_seq(bytes).subrange(2048, 2304)
                &&& bytes_seq(data) == bytes_seq(bytes).subrange(
                    2304,
                    bytes_seq(bytes).len() as int,
                )
            },
            Result::Err(_) => bytes_seq(bytes).len() < 2304,
        },
{
    let header_size = NUM_TABLE_ELEMENTS * SYMBOL_WIDTH_BYTES + NUM_TABLE_ELEMENTS;
    let len = bytes_len(&bytes);
    if len < header_size {
        return Result::Err(
            FsstError::General(String::from_str("insufficient bytes for FSST header")),
        );
    }
    let symbol_table = SymbolTable { inner: bytes_slice(&bytes, 0, 2048) };
    let length_table = LengthTable { inner: bytes_slice(&bytes, 2048, 2304) };
    let header = FSSTHeader { symbol_table, length_table };
    let data = bytes_slice(&bytes, 2304, len);
    Result::Ok((header, data))
}

} // verus!
