//! Reading and writing little-endian integers in linear memory.
use byteorder::ByteOrder;
use byteorder::LittleEndian;
use crate::parser::utils::le_value;
use vstd::arithmetic::div_mod::lemma_fundamental_div_mod;
use vstd::arithmetic::div_mod::lemma_fundamental_div_mod_converse;
use vstd::arithmetic::power2::*;
use vstd::prelude::*;

verus! {

/// Bytes read as a little-endian two's complement integer.
pub open spec fn le_signed(s: Seq<u8>) -> int {
    if s.len() > 0 && le_value(s) >= pow2((8 * s.len() - 1) as nat) {
        le_value(s) - pow2(8 * s.len())
    } else {
        le_value(s) as int
    }
}

/// The `k` low bytes of `n` in two's complement, least significant first.
pub open spec fn le_bytes(n: int, k: nat) -> Seq<u8>
    decreases k,
{
    if k == 0 {
        Seq::empty()
    } else {
        seq![(n % 256) as u8] + le_bytes(n / 256, (k - 1) as nat)
    }
}

/// Calls `byteorder`'s `LittleEndian::read_int`, which reads the first `nbytes`
/// bytes of `buf` as a little-endian two's complement integer and sign-extends
/// it; it panics unless `1 <= nbytes <= 8` and `buf` holds `nbytes` bytes.
#[verifier::external_body]
pub(crate) fn le_read_int(buf: &[u8], nbytes: usize) -> (r: i64)
    requires
        1 <= nbytes <= 8,
        nbytes <= buf@.len(),
    ensures
        r as int == le_signed(buf@.take(nbytes as int)),
{
    LittleEndian::read_int(buf, nbytes)
}

/// Calls `byteorder`'s `LittleEndian::read_uint`, which reads the first `nbytes`
/// bytes of `buf` as a little-endian unsigned integer; it panics unless
/// `1 <= nbytes <= 8` and `buf` holds `nbytes` bytes.
#[verifier::external_body]
pub(crate) fn le_read_uint(buf: &[u8], nbytes: usize) -> (r: u64)
    requires
        1 <= nbytes <= 8,
        nbytes <= buf@.len(),
    ensures
        r as nat == le_value(buf@.take(nbytes as int)),
{
    LittleEndian::read_uint(buf, nbytes)
}

/// Calls `byteorder`'s `LittleEndian::write_int` on a buffer of `nbytes` zero
/// bytes: it writes the `nbytes` low bytes of `n`, least significant first; it
/// panics unless `1 <= nbytes <= 8`. Its documentation also names a panic where
/// `n` does not fit in `nbytes` bytes, but its source first cuts `n` down to
/// those bytes, so that no such panic occurs.
#[verifier::external_body]
pub(crate) fn le_int_bytes(n: i64, nbytes: usize) -> (r: Vec<u8>)
    requires
        1 <= nbytes <= 8,
    ensures
        r@ == le_bytes(n as int, nbytes as nat),
{
    let mut buf = vec![0u8; nbytes];
    LittleEndian::write_int(&mut buf, n, nbytes);
    buf
}

/// A little-endian encoding has as many bytes as asked for.
pub proof fn lemma_le_bytes_len(n: int, k: nat)
    ensures
        le_bytes(n, k).len() == k,
    decreases k,
{
    if k > 0 {
        lemma_le_bytes_len(n / 256, (k - 1) as nat);
    }
}

/// Splitting a remainder modulo `256 * z` at the low byte.
proof fn lemma_mod_split(n: int, z: int)
    requires
        z > 0,
    ensures
        n % (256 * z) == 256 * ((n / 256) % z) + n % 256,
{
    let a = n / 256;
    let b = n % 256;
    let c = a / z;
    let d = a % z;
    lemma_fundamental_div_mod(n, 256);
    lemma_fundamental_div_mod(a, z);
    assert(n == c * (256 * z) + (256 * d + b)) by (nonlinear_arith)
        requires
            n == 256 * a + b,
            a == z * c + d,
    ;
    assert(0 <= 256 * d + b < 256 * z) by (nonlinear_arith)
        requires
            0 <= d < z,
            0 <= b < 256,
    ;
    lemma_fundamental_div_mod_converse(n, 256 * z, c, 256 * d + b);
}

/// The bytes of `n` read back as an unsigned integer give `n` modulo
/// `2^(8k)`.
pub proof fn lemma_le_bytes_value(n: int, k: nat)
    ensures
        le_value(le_bytes(n, k)) == n % (pow2(8 * k) as int),
    decreases k,
{
    lemma_le_bytes_len(n, k);
    if k == 0 {
        lemma2_to64();
    } else {
        let s = le_bytes(n, k);
        lemma_le_bytes_value(n / 256, (k - 1) as nat);
        assert(s.drop_first() =~= le_bytes(n / 256, (k - 1) as nat));
        assert(s[0] as int == n % 256);
        lemma2_to64();
        lemma_pow2_adds(8, 8 * (k - 1) as nat);
        assert(8 + 8 * (k - 1) as nat == 8 * k);
        lemma_pow2_pos(8 * (k - 1) as nat);
        lemma_mod_split(n, pow2(8 * (k - 1) as nat) as int);
    }
}

/// The bytes of an `n` that fits in `k` bytes as a signed integer read back as
/// a signed integer give `n`.
pub proof fn lemma_le_bytes_signed(n: int, k: nat)
    requires
        k >= 1,
        -pow2((8 * k - 1) as nat) <= n < pow2((8 * k - 1) as nat),
    ensures
        le_signed(le_bytes(n, k)) == n,
{
    lemma_le_bytes_len(n, k);
    lemma_le_bytes_value(n, k);
    lemma_pow2_adds(1, (8 * k - 1) as nat);
    lemma2_to64();
    assert(1 + (8 * k - 1) as nat == 8 * k);
    let m = pow2(8 * k) as int;
    if n >= 0 {
        lemma_fundamental_div_mod_converse(n, m, 0, n);
    } else {
        lemma_fundamental_div_mod_converse(n, m, -1, n + m);
    }
}

} // verus!
