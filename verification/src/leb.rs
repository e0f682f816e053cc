//! LEB128 variable-length integers, as WebAssembly encodes them.
//!
//! Every byte carries seven bits of payload, least significant group first;
//! the high bit of a byte says whether another byte follows.
use vstd::arithmetic::div_mod::*;
use vstd::arithmetic::power2::*;
use vstd::prelude::*;

verus! {

/// Why a read from a byte stream failed.
#[derive(Debug, Clone, Copy, PartialEq, Eq, Structural)]
pub enum ReadError {
    /// The stream ended before the value was complete.
    UnexpectedEof,
    /// More continuation bytes than the bit budget allows ("Num too big").
    NumTooBig,
    /// The last byte holds bits beyond the bit budget ("Wrong value").
    WrongValue,
    /// Bytes that should form UTF-8 text do not.
    InvalidData,
}

/// Payload of a byte: its low seven bits.
pub open spec fn payload(b: u8) -> nat {
    (b % 128) as nat
}

/// A byte with the continuation bit set.
pub open spec fn continues(b: u8) -> bool {
    b >= 128
}

/// Decoding of an unsigned LEB128 value of at most `max_bits` bits that starts at
/// `pos`: the value and the position just after its last byte.
///
/// While bits remain in the budget a byte is read; a final byte read with fewer
/// than eight bits left may only use those bits; a continuation byte read with
/// seven or fewer bits left exceeds the budget (no further byte is read).
pub open spec fn varuint_spec(s: Seq<u8>, pos: int, max_bits: int) -> Result<(nat, int), ReadError>
    decreases max_bits,
{
    if max_bits <= 0 {
        Err(ReadError::NumTooBig)
    } else if pos < 0 || pos >= s.len() {
        Err(ReadError::UnexpectedEof)
    } else if !continues(s[pos]) {
        if max_bits < 8 && s[pos] >= pow2(max_bits as nat) {
            Err(ReadError::WrongValue)
        } else {
            Ok((s[pos] as nat, pos + 1))
        }
    } else if max_bits <= 7 {
        Err(ReadError::NumTooBig)
    } else {
        match varuint_spec(s, pos + 1, max_bits - 7) {
            Ok((v, p)) => Ok((payload(s[pos]) + 128 * v, p)),
            Err(e) => Err(e),
        }
    }
}

/// Where decoding an unsigned LEB128 value of at most `max_bits` bits that
/// starts at `pos` leaves the stream: just after the last byte it read, whether
/// it succeeded or failed; a read at the end of the input reads nothing.
pub open spec fn varuint_end(s: Seq<u8>, pos: int, max_bits: int) -> int
    decreases max_bits,
{
    if max_bits <= 0 || pos < 0 || pos >= s.len() {
        pos
    } else if !continues(s[pos]) || max_bits <= 7 {
        pos + 1
    } else {
        varuint_end(s, pos + 1, max_bits - 7)
    }
}

/// Inputs on which decoding with a budget of `max_bits` bits would read an
/// eleventh byte: ten continuation bytes at `pos`, another byte after them,
/// and more than 70 bits of budget. Its payload would be shifted by 70 bits.
pub open spec fn varuint_overflows(s: Seq<u8>, pos: int, max_bits: int) -> bool {
    max_bits > 70 && overlong_run(s, pos)
}

/// Inputs on which signed decoding overflows: those of `varuint_overflows`, and
/// a value whose tenth byte is its last and has its top payload bit set, which
/// would be sign-extended from bit 70.
pub open spec fn varint_overflows(s: Seq<u8>, pos: int, max_bits: int) -> bool {
    ||| varuint_overflows(s, pos, max_bits)
    ||| (varuint_spec(s, pos, max_bits) matches Ok((v, p)) && p - pos >= 10 && payload(s[p - 1]) >= 64)
}

/// The low 64 bits of `w` read as a two's complement integer.
pub open spec fn low_i64(w: nat) -> int {
    if w % pow2(64) >= pow2(63) {
        w % pow2(64) - pow2(64)
    } else {
        (w % pow2(64)) as int
    }
}

/// The signed value of an unsigned decoding `u` of `n` bytes whose last byte is
/// `last`: sign-extended from the top payload bit of `last` where it is set,
/// otherwise the low 64 bits of `u` as a two's complement integer.
pub open spec fn sign_extended(u: nat, last: u8, n: int) -> int {
    if payload(last) >= 64 {
        u - pow2((7 * n) as nat)
    } else {
        low_i64(u)
    }
}

/// Decoding of a signed LEB128 value: the unsigned decoding, sign-extended from
/// the top payload bit of the last byte read.
pub open spec fn varint_spec(s: Seq<u8>, pos: int, max_bits: int) -> Result<(int, int), ReadError> {
    match varuint_spec(s, pos, max_bits) {
        Ok((v, p)) => Ok((sign_extended(v, s[p - 1], p - pos), p)),
        Err(e) => Err(e),
    }
}

/// Decoding of an unsigned LEB128 value without a bit budget: bytes are read
/// until one without the continuation bit.
pub open spec fn unbounded_spec(s: Seq<u8>, pos: int) -> Result<(nat, int), ReadError>
    decreases s.len() - pos,
{
    if pos < 0 || pos >= s.len() {
        Err(ReadError::UnexpectedEof)
    } else if !continues(s[pos]) {
        Ok((s[pos] as nat, pos + 1))
    } else {
        match unbounded_spec(s, pos + 1) {
            Ok((v, p)) => Ok((payload(s[pos]) + 128 * v, p)),
            Err(e) => Err(e),
        }
    }
}

/// Ten continuation bytes in a row at `pos`, followed by at least one more byte:
/// reading them without a bit budget shifts a payload past 64 bits.
pub open spec fn overlong_run(s: Seq<u8>, pos: int) -> bool {
    &&& 0 <= pos
    &&& pos + 10 < s.len()
    &&& forall|i: int| 0 <= i < 10 ==> continues(#[trigger] s[pos + i])
}

/// The minimal unsigned LEB128 encoding of `v`.
pub open spec fn uleb_encode(v: nat) -> Seq<u8>
    decreases v,
{
    if v < 128 {
        seq![v as u8]
    } else {
        seq![((v % 128) + 128) as u8] + uleb_encode(v / 128)
    }
}

spec fn lift(r: Result<(nat, int), ReadError>, acc: nat, mult: nat) -> Result<(nat, int), ReadError> {
    match r {
        Ok((v, p)) => Ok((acc + mult * v, p)),
        Err(e) => Err(e),
    }
}

proof fn lemma_lift_compose(r: Result<(nat, int), ReadError>, lo: nat, acc: nat, mult: nat)
    ensures
        lift(lift(r, lo, 128), acc, mult) == lift(r, acc + mult * lo, mult * 128),
{
    match r {
        Ok((v, p)) => {
            assert(acc + mult * (lo + 128 * v) == (acc + mult * lo) + (mult * 128) * v)
                by (nonlinear_arith);
        },
        Err(e) => {},
    }
}

/// Values of the powers of two that bound the decoder.
proof fn lemma_pow2_sevens(k: nat)
    requires
        k <= 9,
    ensures
        pow2(7 * k) <= 0x8000_0000_0000_0000,
        k <= 8 ==> pow2(7 * k) <= 0x100_0000_0000_0000,
        pow2(7 * (k + 1)) == 128 * pow2(7 * k),
{
    lemma2_to64();
    lemma2_to64_rest();
    lemma_pow2_adds(7 * k, 7);
    assert(7 * (k + 1) == 7 * k + 7);
    if k <= 8 {
        if 7 * k < 56 {
            lemma_pow2_strictly_increases(7 * k, 56);
        }
    } else {
        assert(7 * k == 63);
    }
}

/// Exact power of two for a small exponent.
fn small_pow2(m: i8) -> (r: u64)
    requires
        0 <= m < 8,
    ensures
        r == pow2(m as nat),
{
    proof {
        lemma2_to64();
    }
    if m == 0 {
        1
    } else if m == 1 {
        2
    } else if m == 2 {
        4
    } else if m == 3 {
        8
    } else if m == 4 {
        16
    } else if m == 5 {
        32
    } else if m == 6 {
        64
    } else {
        128
    }
}

/// Decodes an unsigned LEB128 value of at most `max_bits` bits from `input` at
/// `pos`, keeping its low 64 bits; on an error, also gives the position just
/// after the last byte read.
pub fn read_varuint_at(input: &[u8], pos: usize, max_bits: i8) -> (res: Result<(u64, usize), (ReadError, usize)>)
    requires
        !varuint_overflows(input@, pos as int, max_bits as int),
    ensures
        match res {
            Ok((v, p)) => varuint_spec(input@, pos as int, max_bits as int) matches Ok((w, q)) && v as nat == w % pow2(64)
                && p as int == q,
            Err((e, p)) => varuint_spec(input@, pos as int, max_bits as int) == Err::<(nat, int), ReadError>(e)
                && p as int == varuint_end(input@, pos as int, max_bits as int),
        },
{
    let mut result: u64 = 0;
    let mut mult: u64 = 1;
    let mut p: usize = pos;
    let mut mb: i8 = max_bits;
    let ghost mut k: nat = 0;
    proof {
        lemma2_to64();
        assert(lift(varuint_spec(input@, pos as int, max_bits as int), 0, 1) == varuint_spec(input@, pos as int, max_bits as int));
    }
    while mb > 0
        invariant
            !varuint_overflows(input@, pos as int, max_bits as int),
            mb as int == max_bits as int - 7 * k,
            p as int == pos as int + k,
            k <= 9,
            mult as nat == pow2(7 * k),
            (result as nat) < (mult as nat),
            forall|i: int| 0 <= i < k ==> pos + i < input@.len() && continues(#[trigger] input@[pos + i]),
            varuint_spec(input@, pos as int, max_bits as int) == lift(varuint_spec(input@, p as int, mb as int), result as nat, mult as nat),
            varuint_end(input@, pos as int, max_bits as int) == varuint_end(input@, p as int, mb as int),
        decreases mb,
    {
        proof {
            lemma_pow2_sevens(k);
            lemma2_to64();
        }
        if p >= input.len() {
            return Err((ReadError::UnexpectedEof, p));
        }
        let next: u8 = input[p];
        if next < 128 {
            if mb < 8 {
                let bound: u64 = small_pow2(mb);
                if (next as u64) >= bound {
                    return Err((ReadError::WrongValue, p + 1));
                }
            }
            if p - pos == 9 {
                // the tenth byte is shifted by 63 bits: only its lowest payload bit stays
                let top: u64 = (next % 2) as u64;
                proof {
                    let acc = result as nat;
                    let b = next as nat;
                    lemma2_to64_rest();
                    let m = pow2(63);
                    assert(m == 0x8000_0000_0000_0000);
                    assert(acc + m * b == (acc + m * (b % 2)) + pow2(64) * (b / 2)) by (nonlinear_arith)
                        requires
                            m == 0x8000_0000_0000_0000,
                            pow2(64) == 0x1_0000_0000_0000_0000,
                    ;
                    lemma_mod_multiples_vanish((b / 2) as int, (acc + m * (b % 2)) as int, pow2(64) as int);
                    lemma_small_mod((acc + m * (b % 2)) as nat, pow2(64));
                }
                return Ok((result + mult * top, p + 1));
            }
            assert((result as nat) + (mult as nat) * (next as nat) < 0x100_0000_0000_0000 * 128) by (nonlinear_arith)
                requires
                    (result as nat) < (mult as nat),
                    mult <= 0x100_0000_0000_0000,
                    next < 128,
            ;
            proof {
                lemma2_to64_rest();
                lemma_small_mod((result as nat) + (mult as nat) * (next as nat), pow2(64));
            }
            let value: u64 = result + mult * (next as u64);
            return Ok((value, p + 1));
        }
        if mb <= 7 {
            return Err((ReadError::NumTooBig, p + 1));
        }
        if p - pos == 9 {
            // ten continuation bytes with more than 70 bits of budget: the input
            // ends after them
            assert(p + 1 >= input.len()) by {
                if p + 1 < input.len() {
                    assert forall|i: int| 0 <= i < 10 implies continues(#[trigger] input@[pos + i]) by {
                        if i == 9 {
                            assert(input@[pos + i] == next);
                        }
                    }
                    assert(overlong_run(input@, pos as int));
                }
            }
            proof {
                assert(varuint_spec(input@, p as int + 1, mb as int - 7) == Err::<(nat, int), ReadError>(ReadError::UnexpectedEof));
                assert(varuint_spec(input@, p as int, mb as int) == Err::<(nat, int), ReadError>(ReadError::UnexpectedEof));
                assert(varuint_end(input@, p as int + 1, mb as int - 7) == p + 1);
                assert(varuint_end(input@, p as int, mb as int) == p + 1);
            }
            return Err((ReadError::UnexpectedEof, p + 1));
        }
        let low: u64 = (next - 128) as u64;
        assert((result as nat) + (mult as nat) * (low as nat) < (mult as nat) * 128) by (nonlinear_arith)
            requires
                (result as nat) < (mult as nat),
                low < 128,
        ;
        proof {
            lemma_lift_compose(varuint_spec(input@, p as int + 1, mb as int - 7), low as nat, result as nat, mult as nat);
            assert(payload(next) == low);
        }
        result = result + mult * low;
        mult = mult * 128;
        p = p + 1;
        mb = mb - 7;
        proof {
            k = k + 1;
        }
    }
    Err((ReadError::NumTooBig, p))
}

/// Facts about a successful bounded decoding: it reads at least one byte, the
/// last byte read ends the value, the value fits in the bytes read and in the
/// bit budget, and a last byte with its top payload bit set was read with at
/// least seven bits left.
pub proof fn lemma_varuint_facts(s: Seq<u8>, pos: int, max_bits: int)
    ensures
        varuint_spec(s, pos, max_bits) matches Ok((v, p)) ==> {
            &&& pos < p <= s.len()
            &&& 0 <= pos
            &&& !continues(s[p - 1])
            &&& v < pow2((7 * (p - pos)) as nat)
            &&& v < pow2(max_bits as nat)
            &&& (payload(s[p - 1]) >= 64 ==> 7 * (p - pos) <= max_bits)
        },
    decreases max_bits,
{
    if let Ok((v, p)) = varuint_spec(s, pos, max_bits) {
        lemma2_to64();
        if !continues(s[pos]) {
            assert(p == pos + 1);
            if max_bits >= 8 {
                lemma_pow2_strictly_increases(7, max_bits as nat);
            }
        } else {
            lemma_varuint_facts(s, pos + 1, max_bits - 7);
            let (v2, p2) = varuint_spec(s, pos + 1, max_bits - 7)->Ok_0;
            assert(p2 == p);
            let n2 = (7 * (p - pos - 1)) as nat;
            lemma_pow2_adds(7, n2);
            lemma_pow2_adds(7, (max_bits - 7) as nat);
            assert(7 * (p - pos) == 7 + n2);
            assert((7 + (max_bits - 7)) as nat == max_bits as nat);
            let lo = payload(s[pos]);
            assert(lo + 128 * v2 < 128 * pow2(n2)) by (nonlinear_arith)
                requires
                    lo < 128,
                    v2 < pow2(n2),
            ;
            assert(lo + 128 * v2 < 128 * pow2((max_bits - 7) as nat)) by (nonlinear_arith)
                requires
                    lo < 128,
                    v2 < pow2((max_bits - 7) as nat),
            ;
        }
    }
}

/// Decodes a signed LEB128 value of at most `max_bits` bits from `input` at
/// `pos`; on an error, also gives the position just after the last byte read.
pub fn read_varint_at(input: &[u8], pos: usize, max_bits: i8) -> (res: Result<(i64, usize), (ReadError, usize)>)
    requires
        !varint_overflows(input@, pos as int, max_bits as int),
    ensures
        match res {
            Ok((v, p)) => varint_spec(input@, pos as int, max_bits as int) == Ok::<(int, int), ReadError>((v as int, p as int)),
            Err((e, p)) => varint_spec(input@, pos as int, max_bits as int) == Err::<(int, int), ReadError>(e)
                && p as int == varuint_end(input@, pos as int, max_bits as int),
        },
{
    match read_varuint_at(input, pos, max_bits) {
        Err(e) => Err(e),
        Ok((v, p)) => {
            proof {
                lemma_varuint_facts(input@, pos as int, max_bits as int);
                lemma2_to64();
                lemma2_to64_rest();
            }
            let last: u8 = input[p - 1];
            if last % 128 >= 64 {
                let n: usize = p - pos;
                proof {
                    let w = varuint_spec(input@, pos as int, max_bits as int)->Ok_0.0;
                    if n < 9 {
                        lemma_pow2_strictly_increases((7 * n) as nat, 63);
                    }
                    lemma_pow2_strictly_increases(63, 64);
                    lemma_small_mod(w, pow2(64));
                }
                let mut big: u64 = 1;
                let mut i: usize = 0;
                while i < n
                    invariant
                        7 * n <= 63,
                        i <= n,
                        big as nat == pow2((7 * i) as nat),
                    decreases n - i,
                {
                    proof {
                        lemma2_to64();
                        lemma2_to64_rest();
                        lemma_pow2_adds((7 * i) as nat, 7);
                        assert((7 * i + 7) as nat == (7 * (i + 1)) as nat);
                        if 7 * i + 7 < 63 {
                            lemma_pow2_strictly_increases((7 * i + 7) as nat, 63);
                        }
                    }
                    big = big * 128;
                    i = i + 1;
                }
                let wide: i128 = (v as i128) - (big as i128);
                assert(-0x8000_0000_0000_0000 <= wide < 0x8000_0000_0000_0000);
                Ok((wide as i64, p))
            } else if v >= 0x8000_0000_0000_0000 {
                let wide: i128 = (v as i128) - 0x1_0000_0000_0000_0000i128;
                Ok((wide as i64, p))
            } else {
                Ok((v as i64, p))
            }
        },
    }
}

/// Decodes an unsigned LEB128 value with no bit budget from `input` at `pos`;
/// payload bits beyond the 64th are dropped.
pub fn read_unbounded_at(input: &[u8], pos: usize) -> (res: Result<(u64, usize), ReadError>)
    requires
        !overlong_run(input@, pos as int),
    ensures
        match res {
            Ok((v, p)) => unbounded_spec(input@, pos as int) matches Ok((w, q)) && v as nat == w % pow2(64) && p as int == q,
            Err(e) => unbounded_spec(input@, pos as int) == Err::<(nat, int), ReadError>(e),
        },
{
    let mut result: u64 = 0;
    let mut mult: u64 = 1;
    let mut p: usize = pos;
    let mut k: usize = 0;
    proof {
        lemma2_to64();
        assert(lift(unbounded_spec(input@, pos as int), 0, 1) == unbounded_spec(input@, pos as int));
    }
    loop
        invariant
            !overlong_run(input@, pos as int),
            p as int == pos as int + k,
            k <= 9,
            mult as nat == pow2((7 * k) as nat),
            (result as nat) < (mult as nat),
            forall|i: int| 0 <= i < k ==> pos + i < input@.len() && continues(#[trigger] input@[pos + i]),
            unbounded_spec(input@, pos as int) == lift(unbounded_spec(input@, p as int), result as nat, mult as nat),
        decreases 9 - k,
    {
        proof {
            lemma_pow2_sevens(k as nat);
            lemma2_to64();
        }
        if p >= input.len() {
            return Err(ReadError::UnexpectedEof);
        }
        let next: u8 = input[p];
        if next < 128 {
            if k == 9 {
                // the ninth shift keeps only the lowest payload bit
                let top: u64 = (next % 2) as u64;
                proof {
                    let acc = result as nat;
                    let b = next as nat;
                    lemma2_to64_rest();
                    let m = pow2(63);
                    assert(m == 0x8000_0000_0000_0000);
                    assert(acc + m * b == (acc + m * (b % 2)) + pow2(64) * (b / 2)) by (nonlinear_arith)
                        requires
                            m == 0x8000_0000_0000_0000,
                            pow2(64) == 0x1_0000_0000_0000_0000,
                    ;
                    lemma_mod_multiples_vanish((b / 2) as int, (acc + m * (b % 2)) as int, pow2(64) as int);
                    lemma_small_mod((acc + m * (b % 2)) as nat, pow2(64));
                }
                return Ok((result + mult * top, p + 1));
            }
            assert((result as nat) + (mult as nat) * (next as nat) < 0x100_0000_0000_0000 * 128) by (nonlinear_arith)
                requires
                    (result as nat) < (mult as nat),
                    mult <= 0x100_0000_0000_0000,
                    next < 128,
            ;
            proof {
                lemma_small_mod((result as nat) + (mult as nat) * (next as nat), pow2(64));
            }
            return Ok((result + mult * (next as u64), p + 1));
        }
        if k == 9 {
            // a tenth continuation byte is the last byte of the input
            assert(p + 1 >= input.len()) by {
                if p + 1 < input.len() {
                    assert forall|i: int| 0 <= i < 10 implies continues(#[trigger] input@[pos + i]) by {
                        if i == 9 {
                            assert(input@[pos + i] == next);
                        }
                    }
                    assert(overlong_run(input@, pos as int));
                }
            }
            return Err(ReadError::UnexpectedEof);
        }
        let low: u64 = (next - 128) as u64;
        assert((result as nat) + (mult as nat) * (low as nat) < (mult as nat) * 128) by (nonlinear_arith)
            requires
                (result as nat) < (mult as nat),
                low < 128,
        ;
        proof {
            lemma_lift_compose(unbounded_spec(input@, p as int + 1), low as nat, result as nat, mult as nat);
            assert(payload(next) == low);
        }
        result = result + mult * low;
        mult = mult * 128;
        p = p + 1;
        k = k + 1;
    }
}

/// Decoding with a bit budget stops within the input.
proof fn lemma_varuint_end_bound(s: Seq<u8>, pos: int, max_bits: int)
    requires
        0 <= pos <= s.len(),
    ensures
        pos <= varuint_end(s, pos, max_bits) <= s.len(),
    decreases max_bits,
{
    if max_bits > 7 && pos < s.len() && continues(s[pos]) {
        lemma_varuint_end_bound(s, pos + 1, max_bits - 7);
    }
}

/// Decoding without a bit budget stops within the input.
proof fn lemma_unbounded_end(s: Seq<u8>, pos: int)
    requires
        0 <= pos <= s.len(),
    ensures
        unbounded_spec(s, pos) matches Ok((w, q)) ==> pos < q <= s.len(),
    decreases s.len() - pos,
{
    if pos < s.len() && continues(s[pos]) {
        lemma_unbounded_end(s, pos + 1);
    }
}

/// A byte stream with a read position.
pub struct Bytes {
    data: Vec<u8>,
    pos: usize,
}

impl Bytes {
    /// The position never passes the end of the data.
    #[verifier::type_invariant]
    spec fn inv(&self) -> bool {
        self.pos <= self.data@.len()
    }

    /// The bytes of the stream.
    pub closed spec fn data(&self) -> Seq<u8> {
        self.data@
    }

    /// The position of the next byte to read.
    pub closed spec fn pos(&self) -> int {
        self.pos as int
    }

    /// A stream over `data`, positioned at its first byte.
    pub fn new(data: Vec<u8>) -> (r: Bytes)
        ensures
            r.data() == data@,
            r.pos() == 0,
            r.pos() <= r.data().len(),
    {
        Bytes { data, pos: 0 }
    }

    /// The position of the next byte to read.
    pub fn position(&self) -> (r: usize)
        ensures
            r as int == self.pos(),
            self.pos() <= self.data().len(),
    {
        proof {
            use_type_invariant(self);
        }
        self.pos
    }

    /// The next byte, or `None` at the end of the stream.
    pub fn next(&mut self) -> (r: Option<u8>)
        ensures
            final(self).data() == old(self).data(),
            0 <= old(self).pos() < old(self).data().len() ==> r == Some(old(self).data()[old(self).pos()])
                && final(self).pos() == old(self).pos() + 1,
            old(self).pos() >= old(self).data().len() ==> r is None && final(self).pos() == old(self).pos(),
            final(self).pos() <= final(self).data().len(),
    {
        proof {
            use_type_invariant(&*self);
        }
        if self.pos < self.data.len() {
            let b: u8 = self.data[self.pos];
            self.pos = self.pos + 1;
            Some(b)
        } else {
            None
        }
    }
}

/// Reading LEB128 integers from a stream.
pub trait ReadLEB {
    /// The bytes of the stream.
    spec fn leb_data(&self) -> Seq<u8>;

    /// The position of the next byte to read.
    spec fn leb_pos(&self) -> int;

    /// Reads an unsigned integer of at most `max_bits` bits.
    fn read_varuint(&mut self, max_bits: i8) -> Result<u64, ReadError>
        requires
            !varuint_overflows(old(self).leb_data(), old(self).leb_pos(), max_bits as int),
    ;

    /// Reads a signed integer of at most `max_bits` bits.
    fn read_varint(&mut self, max_bits: i8) -> Result<i64, ReadError>
        requires
            !varint_overflows(old(self).leb_data(), old(self).leb_pos(), max_bits as int),
    ;
}

impl ReadLEB for Bytes {
    open spec fn leb_data(&self) -> Seq<u8> {
        self.data()
    }

    open spec fn leb_pos(&self) -> int {
        self.pos()
    }

    /// On success the stream moves past the value; on failure it moves past the
    /// bytes that were read.
    fn read_varuint(&mut self, max_bits: i8) -> (res: Result<u64, ReadError>)
        ensures
            final(self).data() == old(self).data(),
            match res {
                Ok(v) => varuint_spec(old(self).data(), old(self).pos(), max_bits as int) matches Ok((w, q)) && v as nat
                    == w % pow2(64) && final(self).pos() == q,
                Err(e) => varuint_spec(old(self).data(), old(self).pos(), max_bits as int) == Err::<(nat, int), ReadError>(e)
                    && final(self).pos() == varuint_end(old(self).data(), old(self).pos(), max_bits as int),
            },
            final(self).pos() <= final(self).data().len(),
    {
        proof {
            use_type_invariant(&*self);
            lemma_varuint_end_bound(self.data@, self.pos as int, max_bits as int);
            lemma_varuint_facts(self.data@, self.pos as int, max_bits as int);
        }
        match read_varuint_at(self.data.as_slice(), self.pos, max_bits) {
            Ok((v, p)) => {
                self.pos = p;
                Ok(v)
            },
            Err((e, p)) => {
                self.pos = p;
                Err(e)
            },
        }
    }

    /// On success the stream moves past the value; on failure it moves past the
    /// bytes that were read.
    fn read_varint(&mut self, max_bits: i8) -> (res: Result<i64, ReadError>)
        ensures
            final(self).data() == old(self).data(),
            match res {
                Ok(v) => varint_spec(old(self).data(), old(self).pos(), max_bits as int) == Ok::<(int, int), ReadError>((v as int, final(self).pos())),
                Err(e) => varint_spec(old(self).data(), old(self).pos(), max_bits as int) == Err::<(int, int), ReadError>(e)
                    && final(self).pos() == varuint_end(old(self).data(), old(self).pos(), max_bits as int),
            },
            final(self).pos() <= final(self).data().len(),
    {
        proof {
            use_type_invariant(&*self);
            lemma_varuint_end_bound(self.data@, self.pos as int, max_bits as int);
            lemma_varuint_facts(self.data@, self.pos as int, max_bits as int);
        }
        match read_varint_at(self.data.as_slice(), self.pos, max_bits) {
            Ok((v, p)) => {
                self.pos = p;
                Ok(v)
            },
            Err((e, p)) => {
                self.pos = p;
                Err(e)
            },
        }
    }
}

/// Reads an unsigned integer of at most `max_bits` bits from `buffer`.
pub fn read(max_bits: i8, buffer: &mut Bytes) -> (res: Result<u64, ReadError>)
    requires
        !varuint_overflows(old(buffer).data(), old(buffer).pos(), max_bits as int),
    ensures
        final(buffer).data() == old(buffer).data(),
        match res {
            Ok(v) => varuint_spec(old(buffer).data(), old(buffer).pos(), max_bits as int) matches Ok((w, q)) && v as nat
                == w % pow2(64) && final(buffer).pos() == q,
            Err(e) => varuint_spec(old(buffer).data(), old(buffer).pos(), max_bits as int) == Err::<(nat, int), ReadError>(e)
                && final(buffer).pos() == varuint_end(old(buffer).data(), old(buffer).pos(), max_bits as int),
        },
        final(buffer).pos() <= final(buffer).data().len(),
{
    buffer.read_varuint(max_bits)
}

/// Reads an unsigned integer with no bit budget, keeping its low 64 bits.
pub fn unsigned(buffer: &mut Bytes) -> (res: Result<u64, ReadError>)
    requires
        !overlong_run(old(buffer).data(), old(buffer).pos()),
    ensures
        final(buffer).data() == old(buffer).data(),
        match res {
            Ok(v) => unbounded_spec(old(buffer).data(), old(buffer).pos()) matches Ok((w, q)) && v as nat == w % pow2(64)
                && final(buffer).pos() == q,
            Err(e) => unbounded_spec(old(buffer).data(), old(buffer).pos()) == Err::<(nat, int), ReadError>(e)
                && final(buffer).pos() == old(buffer).data().len(),
        },
        final(buffer).pos() <= final(buffer).data().len(),
{
    proof {
        use_type_invariant(&*buffer);
        lemma_unbounded_end(buffer.data@, buffer.pos as int);
    }
    match read_unbounded_at(buffer.data.as_slice(), buffer.pos) {
        Ok((v, p)) => {
            buffer.pos = p;
            Ok(v)
        },
        Err(e) => {
            // the stream was read to its end
            buffer.pos = buffer.data.len();
            Err(e)
        },
    }
}

/// Reads an unsigned integer with no bit budget and returns its low 64 bits as a
/// two's complement integer (no sign extension from the last byte).
pub fn signed(buffer: &mut Bytes) -> (res: Result<i64, ReadError>)
    requires
        !overlong_run(old(buffer).data(), old(buffer).pos()),
    ensures
        final(buffer).data() == old(buffer).data(),
        match res {
            Ok(v) => unbounded_spec(old(buffer).data(), old(buffer).pos()) matches Ok((w, q))
                && v as int == low_i64(w)
                && final(buffer).pos() == q,
            Err(e) => unbounded_spec(old(buffer).data(), old(buffer).pos()) == Err::<(nat, int), ReadError>(e)
                && final(buffer).pos() == old(buffer).data().len(),
        },
        final(buffer).pos() <= final(buffer).data().len(),
{
    match unsigned(buffer) {
        Ok(val) => {
            proof {
                lemma2_to64();
                lemma2_to64_rest();
            }
            if val >= 0x8000_0000_0000_0000 {
                let wide: i128 = (val as i128) - 0x1_0000_0000_0000_0000i128;
                Ok(wide as i64)
            } else {
                Ok(val as i64)
            }
        },
        Err(e) => Err(e),
    }
}

/// With a budget of at most 64 bits, decoding never overflows.
pub proof fn lemma_within_64_no_overflow(s: Seq<u8>, pos: int, max_bits: int)
    requires
        max_bits <= 64,
    ensures
        !varuint_overflows(s, pos, max_bits),
        !varint_overflows(s, pos, max_bits),
{
    lemma_varuint_facts(s, pos, max_bits);
}

/// A decoding moved by `d` positions.
pub open spec fn moved<T>(r: Result<(T, int), ReadError>, d: int) -> Result<(T, int), ReadError> {
    match r {
        Ok((v, p)) => Ok((v, p + d)),
        Err(e) => Err(e),
    }
}

/// Bounded decoding depends only on the bytes that remain: two inputs with the
/// same bytes from their positions on give the same value or the same error,
/// and both read the same number of bytes.
pub proof fn lemma_varuint_remaining(s1: Seq<u8>, p1: int, s2: Seq<u8>, p2: int, max_bits: int)
    requires
        0 <= p1 <= s1.len(),
        0 <= p2 <= s2.len(),
        s1.skip(p1) == s2.skip(p2),
    ensures
        varuint_spec(s1, p1, max_bits) == moved(varuint_spec(s2, p2, max_bits), p1 - p2),
        varuint_end(s1, p1, max_bits) - p1 == varuint_end(s2, p2, max_bits) - p2,
    decreases max_bits,
{
    assert(s1.len() - p1 == s2.skip(p2).len());
    if max_bits > 0 && p1 < s1.len() {
        assert(s1[p1] == s1.skip(p1)[0]);
        assert(s2[p2] == s2.skip(p2)[0]);
        if continues(s1[p1]) && max_bits > 7 {
            assert(s1.skip(p1 + 1) =~= s1.skip(p1).skip(1));
            assert(s2.skip(p2 + 1) =~= s2.skip(p2).skip(1));
            lemma_varuint_remaining(s1, p1 + 1, s2, p2 + 1, max_bits - 7);
        }
    }
}

/// Signed and unsigned bounded decoding of the same remaining bytes: both
/// succeed or fail alike, with the same error, after reading the same number of
/// bytes; the signed value is the unsigned one sign-extended from the last
/// byte read.
pub proof fn lemma_varint_against_varuint(s1: Seq<u8>, p1: int, s2: Seq<u8>, p2: int, max_bits: int)
    requires
        0 <= p1 <= s1.len(),
        0 <= p2 <= s2.len(),
        s1.skip(p1) == s2.skip(p2),
    ensures
        varint_spec(s1, p1, max_bits) == (match varuint_spec(s2, p2, max_bits) {
            Ok((u, q)) => Ok::<(int, int), ReadError>((sign_extended(u, s2[q - 1], q - p2), p1 + (q - p2))),
            Err(e) => Err::<(int, int), ReadError>(e),
        }),
        varuint_end(s1, p1, max_bits) - p1 == varuint_end(s2, p2, max_bits) - p2,
{
    lemma_varuint_remaining(s1, p1, s2, p2, max_bits);
    lemma_varuint_facts(s2, p2, max_bits);
    if let Ok((u, q)) = varuint_spec(s2, p2, max_bits) {
        let k = q - 1 - p2;
        assert(p2 < q <= s2.len());
        assert(s1.skip(p1).len() == s2.skip(p2).len());
        assert(0 <= k < s1.skip(p1).len());
        assert(s1.skip(p1)[k] == s1[p1 + k]);
        assert(s2.skip(p2)[k] == s2[p2 + k]);
    }
}

/// Unbounded decoding depends only on the bytes that remain.
pub proof fn lemma_unbounded_remaining(s1: Seq<u8>, p1: int, s2: Seq<u8>, p2: int)
    requires
        0 <= p1 <= s1.len(),
        0 <= p2 <= s2.len(),
        s1.skip(p1) == s2.skip(p2),
    ensures
        unbounded_spec(s1, p1) == moved(unbounded_spec(s2, p2), p1 - p2),
        overlong_run(s1, p1) == overlong_run(s2, p2),
    decreases s1.len() - p1,
{
    assert(s1.len() - p1 == s2.skip(p2).len());
    assert forall|i: int| 0 <= i < s1.len() - p1 implies #[trigger] s1[p1 + i] == s2[p2 + i] by {
        assert(s1[p1 + i] == s1.skip(p1)[i]);
        assert(s2[p2 + i] == s2.skip(p2)[i]);
    }
    if p1 < s1.len() {
        assert(s1[p1] == s1.skip(p1)[0]);
        assert(s2[p2] == s2.skip(p2)[0]);
        if continues(s1[p1]) {
            assert(s1.skip(p1 + 1) =~= s1.skip(p1).skip(1));
            assert(s2.skip(p2 + 1) =~= s2.skip(p2).skip(1));
            lemma_unbounded_remaining(s1, p1 + 1, s2, p2 + 1);
        }
    }
    if overlong_run(s1, p1) {
        assert forall|i: int| 0 <= i < 10 implies continues(#[trigger] s2[p2 + i]) by {
            assert(s1[p1 + i] == s2[p2 + i]);
        }
    }
    if overlong_run(s2, p2) {
        assert forall|i: int| 0 <= i < 10 implies continues(#[trigger] s1[p1 + i]) by {
            assert(s1[p1 + i] == s2[p2 + i]);
        }
    }
}

/// `signed` against `unsigned` on the same remaining bytes: both succeed or fail
/// alike, the signed value is the unsigned one read as a two's complement
/// integer (no sign extension), and both read the same number of bytes.
pub proof fn lemma_signed_against_unsigned(s1: Seq<u8>, p1: int, s2: Seq<u8>, p2: int)
    requires
        0 <= p1 <= s1.len(),
        0 <= p2 <= s2.len(),
        s1.skip(p1) == s2.skip(p2),
    ensures
        match unbounded_spec(s2, p2) {
            Ok((w, q)) => unbounded_spec(s1, p1) == Ok::<(nat, int), ReadError>((w, p1 + (q - p2)))
                && low_i64(w) == low_i64(w % pow2(64)),
            Err(e) => unbounded_spec(s1, p1) == Err::<(nat, int), ReadError>(e),
        },
        s1.len() - p1 == s2.len() - p2,
{
    lemma_unbounded_remaining(s1, p1, s2, p2);
    assert(s1.len() - p1 == s2.skip(p2).len());
    lemma2_to64_rest();
    if let Ok((w, q)) = unbounded_spec(s2, p2) {
        lemma_mod_twice(w as int, pow2(64) as int);
    }
}

/// A value decoded with a budget of `max_bits` bits is below `2^max_bits`.
pub proof fn lemma_varuint_bound(s: Seq<u8>, pos: int, max_bits: int)
    ensures
        varuint_spec(s, pos, max_bits) matches Ok((v, p)) ==> v < pow2(max_bits as nat),
{
    lemma_varuint_facts(s, pos, max_bits);
}

/// Decoding reads only the bytes of the value: bytes after them do not matter.
pub proof fn lemma_varuint_prefix(s: Seq<u8>, t: Seq<u8>, pos: int, max_bits: int)
    ensures
        varuint_spec(s, pos, max_bits) matches Ok((v, p)) ==> varuint_spec(s + t, pos, max_bits) == Ok::<(nat, int), ReadError>((v, p)),
    decreases max_bits,
{
    if let Ok((v, p)) = varuint_spec(s, pos, max_bits) {
        assert((s + t)[pos] == s[pos]);
        if continues(s[pos]) {
            lemma_varuint_prefix(s, t, pos + 1, max_bits - 7);
        }
    }
}

/// The minimal encoding of a value below `2^max_bits` decodes to that value and
/// is read to its end.
pub proof fn lemma_uleb_roundtrip(prefix: Seq<u8>, v: nat, rest: Seq<u8>, max_bits: int)
    requires
        1 <= max_bits,
        v < pow2(max_bits as nat),
    ensures
        varuint_spec(prefix + uleb_encode(v) + rest, prefix.len() as int, max_bits) == Ok::<(nat, int), ReadError>(
            (v, (prefix.len() + uleb_encode(v).len()) as int),
        ),
    decreases v,
{
    let s = prefix + uleb_encode(v) + rest;
    let pos = prefix.len() as int;
    lemma2_to64();
    assert(s[pos] == uleb_encode(v)[0]);
    if v < 128 {
        assert(uleb_encode(v)[0] == v as u8);
        if max_bits < 8 {
            assert(s[pos] < pow2(max_bits as nat));
        }
    } else {
        let first = ((v % 128) + 128) as u8;
        let hi = v / 128;
        assert(max_bits >= 8) by {
            if max_bits < 8 {
                if max_bits < 7 {
                    lemma_pow2_strictly_increases(max_bits as nat, 7);
                }
            }
        }
        lemma_pow2_adds(7, (max_bits - 7) as nat);
        assert((7 + (max_bits - 7)) as nat == max_bits as nat);
        assert(hi < pow2((max_bits - 7) as nat)) by (nonlinear_arith)
            requires
                hi == v / 128,
                v < 128 * pow2((max_bits - 7) as nat),
        ;
        let prefix2 = prefix.push(first);
        assert(prefix2 + uleb_encode(hi) + rest =~= s);
        lemma_uleb_roundtrip(prefix2, hi, rest, max_bits - 7);
        assert(payload(first) == v % 128);
        assert(v == v % 128 + 128 * hi);
    }
}

} // verus!
