//! The FSST encoder side: collects the raw bytes of the values to be
//! compressed into one buffer.

use vstd::prelude::*;

use crate::fsst::FsstError;

verus! {

/// The concatenation of all byte runs, in order.
pub open spec fn concat_bytes(vs: Seq<Seq<u8>>) -> Seq<u8>
    decreases vs.len(),
{
    if vs.len() == 0 {
        Seq::empty()
    } else {
        concat_bytes(vs.drop_last()) + vs.last()
    }
}

/// Collects raw value bytes for FSST compression.
pub struct FSSTEncoder {
    buffer: Vec<u8>,
}

impl FSSTEncoder {
    /// An encoder with an empty buffer.
    pub fn new() -> (r: Self)
        ensures
            r.buffered() == Seq::<u8>::empty(),
    {
        FSSTEncoder { buffer: Vec::new() }
    }

    /// The bytes collected so far.
    pub closed spec fn buffered(&self) -> Seq<u8> {
        self.buffer@
    }

    /// Appends the raw bytes of `values`, one run after another in order.
    pub fn put(&mut self, values: &Vec<Vec<u8>>) -> (r: Result<(), FsstError>)
        ensures
            r is Ok,
            final(self).buffered() == old(self).buffered() + concat_bytes(
                values@.map_values(|v: Vec<u8>| v@),
            ),
    {
        let ghost vs = values@.map_values(|v: Vec<u8>| v@);
        let n = values.len();
        let mut i: usize = 0;
        while i < n
            invariant
                n == values@.len(),
                vs == values@.map_values(|v: Vec<u8>| v@),
                i <= n,
                self.buffer@ == old(self).buffer@ + concat_bytes(vs.take(i as int)),
            decreases n - i,
        {
            let ghost pre = self.buffer@;
            crate::json::write_bytes(&values[i], &mut self.buffer);
            proof {
                let t = vs.take(i + 1);
                assert(t.drop_last() =~= vs.take(i as int));
                assert(t.last() == vs[i as int]);
                assert(self.buffer@ =~= old(self).buffer@ + concat_bytes(t));
            }
            i = i + 1;
        }
        proof {
            assert(vs.take(n as int) =~= vs);
        }
        Result::Ok(())
    }

    /// The number of bytes the encoded data is estimated to take.
    pub fn estimated_data_encoded_size(&self) -> (r: usize)
        ensures
            r as nat == self.buffered().len(),
    {
        self.buffer.len()
    }
}

} // verus!
