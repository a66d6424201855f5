//! Byte-level JSON text primitives: the `null` literal, decimal rendering of
//! integers, lowercase hex rendering of binary data, and strict JSON string
//! escaping (quote-wrap, escape control characters, `"` and `\`).

use vstd::prelude::*;

verus! {

/// The bytes of the JSON `null` literal.
pub open spec fn null_lit() -> Seq<u8> {
    seq![110u8, 117u8, 108u8, 108u8]  // "null"
}

/// The bytes of the JSON `true` literal.
pub open spec fn true_lit() -> Seq<u8> {
    seq![116u8, 114u8, 117u8, 101u8]  // "true"
}

/// The bytes of the JSON `false` literal.
pub open spec fn false_lit() -> Seq<u8> {
    seq![102u8, 97u8, 108u8, 115u8, 101u8]  // "false"
}

/// Appends the JSON `null` literal.
pub fn write_null(out: &mut Vec<u8>)
    ensures
        final(out)@ == old(out)@ + null_lit(),
{
    out.push(110);
    out.push(117);
    out.push(108);
    out.push(108);
    assert(out@ =~= old(out)@ + null_lit());
}

/// Appends the JSON `true` or `false` literal.
pub fn write_bool(b: bool, out: &mut Vec<u8>)
    ensures
        final(out)@ == old(out)@ + if b {
            true_lit()
        } else {
            false_lit()
        },
{
    if b {
        out.push(116);
        out.push(114);
        out.push(117);
        out.push(101);
        assert(out@ =~= old(out)@ + true_lit());
    } else {
        out.push(102);
        out.push(97);
        out.push(108);
        out.push(115);
        out.push(101);
        assert(out@ =~= old(out)@ + false_lit());
    }
}

/// Appends all bytes of `src`.
pub fn write_bytes(src: &Vec<u8>, out: &mut Vec<u8>)
    ensures
        final(out)@ == old(out)@ + src@,
{
    let n = src.len();
    let mut i: usize = 0;
    while i < n
        invariant
            n == src@.len(),
            i <= n,
            out@ == old(out)@ + src@.take(i as int),
        decreases n - i,
    {
        out.push(src[i]);
        proof {
            assert(out@ =~= old(out)@ + src@.take(i + 1));
        }
        i = i + 1;
    }
    proof {
        assert(src@.take(n as int) =~= src@);
    }
}

/// The decimal digits of `n`, most significant first, as ASCII bytes.
pub open spec fn dec_digits(n: nat) -> Seq<u8>
    decreases n,
{
    if n < 10 {
        seq![(48 + n) as u8]
    } else {
        dec_digits(n / 10).push((48 + n % 10) as u8)
    }
}

/// The decimal rendering of a signed value: a minus sign for negative
/// values, then the digits of the magnitude.
pub open spec fn dec_int(v: int) -> Seq<u8> {
    if v < 0 {
        seq![45u8] + dec_digits((-v) as nat)  // '-'
    } else {
        dec_digits(v as nat)
    }
}

/// Appends the decimal rendering of an unsigned 64-bit value.
pub fn write_u64(v: u64, out: &mut Vec<u8>)
    ensures
        final(out)@ == old(out)@ + dec_digits(v as nat),
{
    if v == 0 {
        out.push(48);
        assert(out@ =~= old(out)@ + dec_digits(v as nat));
        return;
    }
    let mut digits: Vec<u8> = Vec::new();
    let mut x: u64 = v;
    proof {
        assert(dec_digits(v as nat) =~= dec_digits(v as nat) + digits@.reverse());
    }
    loop
        invariant_except_break
            x > 0,
            dec_digits(v as nat) == dec_digits(x as nat) + digits@.reverse(),
        ensures
            dec_digits(v as nat) == digits@.reverse(),
        decreases x,
    {
        let d: u8 = (x % 10) as u8 + 48;
        let ghost pre = digits@;
        digits.push(d);
        x = x / 10;
        proof {
            assert(pre.push(d).reverse() =~= seq![d] + pre.reverse());
            if x > 0 {
                assert(dec_digits(x as nat).push(d) =~= dec_digits(x as nat) + seq![d]);
                assert(dec_digits(x as nat) + seq![d] + pre.reverse()
                    =~= dec_digits(x as nat) + (seq![d] + pre.reverse()));
            } else {
                assert(dec_digits(v as nat) =~= seq![d] + pre.reverse());
            }
        }
        if x == 0 {
            break;
        }
    }
    let ghost mid = out@;
    let mut i: usize = digits.len();
    while i > 0
        invariant
            i <= digits.len(),
            out@ == mid + digits@.subrange(i as int, digits@.len() as int).reverse(),
        decreases i,
    {
        i = i - 1;
        out.push(digits[i]);
        proof {
            let s = digits@;
            let l = s.len() as int;
            assert(s.subrange(i as int, l) =~= seq![s[i as int]] + s.subrange(i + 1, l));
            assert(s.subrange(i as int, l).reverse()
                =~= s.subrange(i + 1, l).reverse() + seq![s[i as int]]);
            assert(out@ =~= mid + s.subrange(i as int, l).reverse());
        }
    }
    proof {
        assert(digits@.subrange(0, digits@.len() as int) =~= digits@);
        assert(out@ =~= old(out)@ + dec_digits(v as nat));
    }
}

/// Appends the decimal rendering of a signed 64-bit value.
pub fn write_i64(v: i64, out: &mut Vec<u8>)
    ensures
        final(out)@ == old(out)@ + dec_int(v as int),
{
    if v < 0 {
        out.push(45);
        let m: u64 = (-(v as i128)) as u64;
        write_u64(m, out);
        assert(out@ =~= old(out)@ + dec_int(v as int));
    } else {
        write_u64(v as u64, out);
    }
}

/// The lowercase hex digit for a value below 16.
pub open spec fn hex_digit(d: nat) -> u8 {
    if d < 10 {
        (48 + d) as u8  // '0' to '9'
    } else {
        (87 + d) as u8  // 'a' to 'f'
    }
}

/// Two lowercase hex digits per byte, no delimiter, most significant first.
pub open spec fn hex_bytes(s: Seq<u8>) -> Seq<u8>
    decreases s.len(),
{
    if s.len() == 0 {
        Seq::empty()
    } else {
        hex_bytes(s.drop_last()) + seq![
            hex_digit((s.last() / 16) as nat),
            hex_digit((s.last() % 16) as nat),
        ]
    }
}

/// Appends the lowercase hex rendering of `bytes`.
pub fn write_hex(bytes: &Vec<u8>, out: &mut Vec<u8>)
    ensures
        final(out)@ == old(out)@ + hex_bytes(bytes@),
{
    let n = bytes.len();
    let mut i: usize = 0;
    while i < n
        invariant
            n == bytes@.len(),
            i <= n,
            out@ == old(out)@ + hex_bytes(bytes@.take(i as int)),
        decreases n - i,
    {
        let b = bytes[i];
        let hi: u8 = b / 16;
        let lo: u8 = b % 16;
        out.push(if hi < 10 { hi + 48 } else { hi + 87 });
        out.push(if lo < 10 { lo + 48 } else { lo + 87 });
        proof {
            let t = bytes@.take(i + 1);
            assert(t.drop_last() =~= bytes@.take(i as int));
            assert(t.last() == bytes@[i as int]);
            assert(out@ =~= old(out)@ + hex_bytes(t));
        }
        i = i + 1;
    }
    proof {
        assert(bytes@.take(n as int) =~= bytes@);
    }
}

/// The escaped form of one byte inside a JSON string: `"` and `\` get a
/// backslash escape, the control characters with short escapes use them,
/// every other control character uses the `\u00XX` form, and all remaining
/// bytes pass through unchanged.
pub open spec fn esc_byte(b: u8) -> Seq<u8> {
    if b == 34 {  // '"'
        seq![92u8, 34u8]
    } else if b == 92 {  // '\'
        seq![92u8, 92u8]
    } else if b == 8 {  // backspace
        seq![92u8, 98u8]
    } else if b == 9 {  // tab
        seq![92u8, 116u8]
    } else if b == 10 {  // line feed
        seq![92u8, 110u8]
    } else if b == 12 {  // form feed
        seq![92u8, 102u8]
    } else if b == 13 {  // carriage return
        seq![92u8, 114u8]
    } else if b < 32 {  // other control characters
        seq![92u8, 117u8, 48u8, 48u8, hex_digit((b / 16) as nat), hex_digit((b % 16) as nat)]
    } else {
        seq![b]
    }
}

/// The escaped bodies of all bytes of `s`, concatenated.
pub open spec fn esc_bytes(s: Seq<u8>) -> Seq<u8>
    decreases s.len(),
{
    if s.len() == 0 {
        Seq::empty()
    } else {
        esc_bytes(s.drop_last()) + esc_byte(s.last())
    }
}

/// A complete JSON string: a quote, the escaped bytes, a closing quote.
pub open spec fn json_string(s: Seq<u8>) -> Seq<u8> {
    seq![34u8] + esc_bytes(s) + seq![34u8]
}

/// Appends the escaped form of one byte.
fn write_esc_byte(b: u8, out: &mut Vec<u8>)
    ensures
        final(out)@ == old(out)@ + esc_byte(b),
{
    if b == 34 {
        out.push(92);
        out.push(34);
    } else if b == 92 {
        out.push(92);
        out.push(92);
    } else if b == 8 {
        out.push(92);
        out.push(98);
    } else if b == 9 {
        out.push(92);
        out.push(116);
    } else if b == 10 {
        out.push(92);
        out.push(110);
    } else if b == 12 {
        out.push(92);
        out.push(102);
    } else if b == 13 {
        out.push(92);
        out.push(114);
    } else if b < 32 {
        out.push(92);
        out.push(117);
        out.push(48);
        out.push(48);
        let hi: u8 = b / 16;
        let lo: u8 = b % 16;
        out.push(if hi < 10 { hi + 48 } else { hi + 87 });
        out.push(if lo < 10 { lo + 48 } else { lo + 87 });
    } else {
        out.push(b);
    }
    assert(out@ =~= old(out)@ + esc_byte(b));
}

/// Appends the UTF-8 text `s` as a quoted, escaped JSON string.
pub fn encode_string(s: &Vec<u8>, out: &mut Vec<u8>)
    ensures
        final(out)@ == old(out)@ + json_string(s@),
{
    out.push(34);
    let n = s.len();
    let mut i: usize = 0;
    while i < n
        invariant
            n == s@.len(),
            i <= n,
            out@ == old(out)@ + seq![34u8] + esc_bytes(s@.take(i as int)),
        decreases n - i,
    {
        write_esc_byte(s[i], out);
        proof {
            let t = s@.take(i + 1);
            assert(t.drop_last() =~= s@.take(i as int));
            assert(t.last() == s@[i as int]);
            assert(out@ =~= old(out)@ + seq![34u8] + esc_bytes(t));
        }
        i = i + 1;
    }
    out.push(34);
    proof {
        assert(s@.take(n as int) =~= s@);
        assert(out@ =~= old(out)@ + json_string(s@));
    }
}

} // verus!
