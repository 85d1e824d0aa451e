//! Canonical textual and binary encoding primitives shared by the wire layer:
//! lowercase hexadecimal rendering, minimal "quantity" digit strings, and
//! minimal big-endian byte strings.

use vstd::prelude::*;

verus! {

use vstd::string::StringSliceAdditionalSpecFns;

/// ASCII code of the lowercase hexadecimal digit for a nibble.
pub open spec fn spec_hex_char(d: u8) -> u8 {
    if d < 10 {
        (d + 48) as u8
    } else {
        (d + 87) as u8
    }
}

/// The full lowercase hexadecimal digit string of a byte string: two digits per byte.
pub open spec fn hex_digits(s: Seq<u8>) -> Seq<u8>
    decreases s.len(),
{
    if s.len() == 0 {
        Seq::empty()
    } else {
        hex_digits(s.drop_last()) + seq![spec_hex_char(s.last() / 16), spec_hex_char(s.last() % 16)]
    }
}

/// Digit string with its leading `'0'` digits removed; may become empty.
pub open spec fn strip_zero_digits(s: Seq<u8>) -> Seq<u8>
    decreases s.len(),
{
    if s.len() == 0 {
        s
    } else if s[0] == 48 {
        strip_zero_digits(s.skip(1))
    } else {
        s
    }
}

/// The minimal quantity digit string of a big-endian byte string: leading zero
/// digits removed, a single `'0'` for the value zero.
pub open spec fn quantity_digits(bytes: Seq<u8>) -> Seq<u8> {
    let d = strip_zero_digits(hex_digits(bytes));
    if d.len() == 0 {
        seq![48u8]
    } else {
        d
    }
}

/// Byte string with its leading zero bytes removed; empty for the value zero.
pub open spec fn strip_zero_bytes(s: Seq<u8>) -> Seq<u8>
    decreases s.len(),
{
    if s.len() == 0 {
        s
    } else if s[0] == 0 {
        strip_zero_bytes(s.skip(1))
    } else {
        s
    }
}

/// The eight big-endian bytes of a 64-bit value.
pub open spec fn u64_be_bytes(n: u64) -> Seq<u8> {
    seq![
        ((n >> 56) & 0xff) as u8,
        ((n >> 48) & 0xff) as u8,
        ((n >> 40) & 0xff) as u8,
        ((n >> 32) & 0xff) as u8,
        ((n >> 24) & 0xff) as u8,
        ((n >> 16) & 0xff) as u8,
        ((n >> 8) & 0xff) as u8,
        (n & 0xff) as u8,
    ]
}

pub fn hex_char(d: u8) -> (r: u8)
    requires
        d < 16,
    ensures
        r == spec_hex_char(d),
{
    if d < 10 {
        d + 48
    } else {
        d + 87
    }
}

/// Appends the UTF-8 bytes of a string literal to the output buffer.
pub fn push_lit(out: &mut Vec<u8>, s: &str)
    ensures
        final(out)@ == old(out)@ + s.spec_bytes(),
{
    let bytes: &[u8] = s.as_bytes();
    let ghost prefix = out@;
    out.extend_from_slice(bytes);
    proof {
        assert(out@ =~= prefix + s.spec_bytes());
    }
}

/// Appends a byte slice to the output buffer.
pub fn push_slice(out: &mut Vec<u8>, data: &[u8])
    ensures
        final(out)@ == old(out)@ + data@,
{
    let ghost prefix = out@;
    out.extend_from_slice(data);
    proof {
        assert(out@ =~= prefix + data@);
    }
}

/// Appends the full hexadecimal digit string of `bytes` to the output buffer.
pub fn push_hex_digits(out: &mut Vec<u8>, bytes: &[u8])
    ensures
        final(out)@ == old(out)@ + hex_digits(bytes@),
{
    let ghost prefix = out@;
    let n = bytes.len();
    for i in 0..n
        invariant
            n == bytes@.len(),
            out@ == prefix + hex_digits(bytes@.take(i as int)),
    {
        let b = bytes[i];
        out.push(hex_char(b / 16));
        out.push(hex_char(b % 16));
        proof {
            assert(bytes@.take(i + 1).drop_last() =~= bytes@.take(i as int));
            assert(bytes@.take(i + 1).last() == bytes@[i as int]);
            assert(out@ =~= prefix + hex_digits(bytes@.take(i + 1)));
        }
    }
    proof {
        assert(bytes@.take(n as int) =~= bytes@);
    }
}

proof fn lemma_strip_zero_digits_skip(s: Seq<u8>, i: int)
    requires
        0 <= i <= s.len(),
        forall|j: int| 0 <= j < i ==> s[j] == 48,
        i == s.len() || s[i] != 48,
    ensures
        strip_zero_digits(s) == s.skip(i),
    decreases i,
{
    if i == 0 {
        assert(s.skip(0) =~= s);
    } else {
        lemma_strip_zero_digits_skip(s.skip(1), i - 1);
        assert(s.skip(1).skip(i - 1) =~= s.skip(i));
    }
}

proof fn lemma_strip_zero_bytes_skip(s: Seq<u8>, i: int)
    requires
        0 <= i <= s.len(),
        forall|j: int| 0 <= j < i ==> s[j] == 0,
        i == s.len() || s[i] != 0,
    ensures
        strip_zero_bytes(s) == s.skip(i),
    decreases i,
{
    if i == 0 {
        assert(s.skip(0) =~= s);
    } else {
        lemma_strip_zero_bytes_skip(s.skip(1), i - 1);
        assert(s.skip(1).skip(i - 1) =~= s.skip(i));
    }
}

/// Appends the minimal quantity digit string of the big-endian byte string
/// `bytes` to the output buffer.
pub fn push_quantity_digits(out: &mut Vec<u8>, bytes: &[u8])
    ensures
        final(out)@ == old(out)@ + quantity_digits(bytes@),
{
    let mut digits: Vec<u8> = Vec::new();
    push_hex_digits(&mut digits, bytes);
    let mut i: usize = 0;
    while i < digits.len() && digits[i] == 48
        invariant
            digits@ == hex_digits(bytes@),
            0 <= i <= digits@.len(),
            forall|j: int| 0 <= j < i ==> digits@[j] == 48,
        decreases digits@.len() - i,
    {
        i += 1;
    }
    proof {
        lemma_strip_zero_digits_skip(digits@, i as int);
    }
    if i == digits.len() {
        out.push(48);
        proof {
            assert(final(out)@ =~= old(out)@ + quantity_digits(bytes@));
        }
    } else {
        let ghost prefix = out@;
        let n = digits.len();
        let mut j: usize = i;
        while j < n
            invariant
                i <= j <= n,
                n == digits@.len(),
                out@ == prefix + digits@.subrange(i as int, j as int),
            decreases n - j,
        {
            out.push(digits[j]);
            proof {
                assert(digits@.subrange(i as int, j + 1) =~= digits@.subrange(
                    i as int,
                    j as int,
                ).push(digits@[j as int]));
            }
            j += 1;
        }
        proof {
            assert(digits@.subrange(i as int, n as int) =~= digits@.skip(i as int));
            assert(final(out)@ =~= old(out)@ + quantity_digits(bytes@));
        }
    }
}

/// The big-endian byte string of a 64-bit value.
pub fn u64_bytes(n: u64) -> (r: Vec<u8>)
    ensures
        r@ == u64_be_bytes(n),
{
    let mut r: Vec<u8> = Vec::new();
    r.push(((n >> 56) & 0xff) as u8);
    r.push(((n >> 48) & 0xff) as u8);
    r.push(((n >> 40) & 0xff) as u8);
    r.push(((n >> 32) & 0xff) as u8);
    r.push(((n >> 24) & 0xff) as u8);
    r.push(((n >> 16) & 0xff) as u8);
    r.push(((n >> 8) & 0xff) as u8);
    r.push((n & 0xff) as u8);
    proof {
        assert(r@ =~= u64_be_bytes(n));
    }
    r
}

/// Copy of a byte string with its leading zero bytes removed.
pub fn minimal_bytes(bytes: &[u8]) -> (r: Vec<u8>)
    ensures
        r@ == strip_zero_bytes(bytes@),
{
    let n = bytes.len();
    let mut i: usize = 0;
    while i < n && bytes[i] == 0
        invariant
            n == bytes@.len(),
            0 <= i <= n,
            forall|j: int| 0 <= j < i ==> bytes@[j] == 0,
        decreases n - i,
    {
        i += 1;
    }
    proof {
        lemma_strip_zero_bytes_skip(bytes@, i as int);
    }
    let mut r: Vec<u8> = Vec::new();
    let mut j: usize = i;
    while j < n
        invariant
            i <= j <= n,
            n == bytes@.len(),
            r@ == bytes@.subrange(i as int, j as int),
        decreases n - j,
    {
        r.push(bytes[j]);
        proof {
            assert(bytes@.subrange(i as int, j + 1) =~= bytes@.subrange(i as int, j as int).push(
                bytes@[j as int],
            ));
        }
        j += 1;
    }
    proof {
        assert(bytes@.subrange(i as int, n as int) =~= bytes@.skip(i as int));
    }
    r
}

/// Equality of two byte strings.
pub fn bytes_eq(a: &[u8], b: &[u8]) -> (r: bool)
    ensures
        r == (a@ == b@),
{
    if a.len() != b.len() {
        proof {
            assert(a@.len() != b@.len());
        }
        return false;
    }
    let n = a.len();
    for i in 0..n
        invariant
            n == a@.len(),
            n == b@.len(),
            forall|j: int| 0 <= j < i ==> a@[j] == b@[j],
    {
        if a[i] != b[i] {
            return false;
        }
    }
    proof {
        assert(a@ =~= b@);
    }
    true
}

} // verus!
