//! HPACK integer representation (RFC 7541 Section 5.1).
//!
//! An integer is written in the low `N` bits of a first byte (the prefix);
//! when it does not fit, the prefix is all ones and the rest follows in
//! little-endian groups of 7 bits, each byte but the last with its high bit
//! set.
use vstd::prelude::*;
use super::error::HpackError;

verus! {

/// The largest value the `n`-bit prefix holds: `2^n - 1`.
pub open spec fn prefix_max(n: u8) -> nat
    decreases n,
{
    if n == 0 {
        0
    } else {
        2 * prefix_max((n - 1) as u8) + 1
    }
}

/// `128^k`: the weight of the `k`-th continuation byte.
pub open spec fn pow128(k: nat) -> nat
    decreases k,
{
    if k == 0 {
        1
    } else {
        128 * pow128((k - 1) as nat)
    }
}

/// The continuation bytes that carry `v`: 7 bits at a time, least
/// significant group first, the high bit set on all but the last byte.
pub open spec fn continuation_bytes(v: nat) -> Seq<u8>
    decreases v,
{
    if v < 128 {
        seq![v as u8]
    } else {
        seq![((v % 128) + 128) as u8] + continuation_bytes(v / 128)
    }
}

/// The HPACK representation of `value` with an `n`-bit prefix, whose other
/// high bits come from `prefix`.
pub open spec fn integer_encoding(value: nat, n: u8, prefix: u8) -> Seq<u8> {
    if value < prefix_max(n) {
        seq![prefix | (value as u8)]
    } else {
        seq![prefix | (prefix_max(n) as u8)] + continuation_bytes((value - prefix_max(n)) as nat)
    }
}

/// Reads continuation bytes from position `pos` of `data`, where `k` of them
/// were read before and `acc` is the value so far. At most five continuation
/// bytes are accepted, and the value must fit in `usize`.
pub open spec fn decode_continuation(data: Seq<u8>, pos: nat, k: nat, acc: nat) -> Result<
    (nat, nat),
    HpackError,
>
    decreases 5 - k,
{
    if pos >= data.len() {
        Err(HpackError::Incomplete)
    } else {
        let b = data[pos as int];
        let acc2: nat = acc + ((b % 128) as nat) * pow128(k);
        if acc2 > usize::MAX {
            Err(HpackError::InvalidInteger)
        } else if b < 128 {
            Ok((acc2, pos + 1))
        } else if k + 1 > 4 {
            Err(HpackError::InvalidInteger)
        } else {
            decode_continuation(data, pos + 1, k + 1, acc2)
        }
    }
}

/// The value and length of the HPACK integer with an `n`-bit prefix at the
/// start of `data`, or why there is none.
pub open spec fn integer_decoding(data: Seq<u8>, n: u8) -> Result<(nat, nat), HpackError> {
    if data.len() == 0 {
        Err(HpackError::Incomplete)
    } else {
        let v0 = (data[0] as nat) % (prefix_max(n) + 1);
        if v0 < prefix_max(n) {
            Ok((v0, 1))
        } else {
            decode_continuation(data, 1, 0, v0)
        }
    }
}

proof fn lemma_prefix_max(n: u8)
    requires
        n <= 8,
    ensures
        prefix_max(n) <= 255,
        n == 0 ==> prefix_max(n) == 0,
        n == 1 ==> prefix_max(n) == 1,
        n == 2 ==> prefix_max(n) == 3,
        n == 3 ==> prefix_max(n) == 7,
        n == 4 ==> prefix_max(n) == 15,
        n == 5 ==> prefix_max(n) == 31,
        n == 6 ==> prefix_max(n) == 63,
        n == 7 ==> prefix_max(n) == 127,
        n == 8 ==> prefix_max(n) == 255,
{
    reveal_with_fuel(prefix_max, 9);
}

/// Once the prefix has 8 bits or more, its mask keeps all 8 low bits.
proof fn lemma_prefix_max_low_byte(n: u8)
    requires
        n >= 8,
    ensures
        prefix_max(n) % 256 == 255,
    decreases n,
{
    if n == 8 {
        lemma_prefix_max(n);
    } else {
        lemma_prefix_max_low_byte((n - 1) as u8);
        let q = prefix_max((n - 1) as u8) / 256;
        assert(prefix_max((n - 1) as u8) == 256 * q + 255);
        assert(prefix_max(n) == 256 * (2 * q + 1) + 255);
    }
}

/// `prefix_max(n) + 1` is `2^n`, so below the width of `usize` the mask
/// fits in a `usize`.
proof fn lemma_prefix_max_fits(n: u8)
    requires
        n <= usize::BITS,
    ensures
        prefix_max(n) <= usize::MAX,
{
    lemma_prefix_max_pow2(n);
    vstd::arithmetic::power2::lemma2_to64();
    if (n as nat) < usize::BITS as nat {
        vstd::arithmetic::power2::lemma_pow2_strictly_increases(n as nat, usize::BITS as nat);
    }
}

proof fn lemma_prefix_max_pow2(n: u8)
    ensures
        prefix_max(n) + 1 == vstd::arithmetic::power2::pow2(n as nat),
    decreases n,
{
    if n == 0 {
        vstd::arithmetic::power2::lemma2_to64();
    } else {
        lemma_prefix_max_pow2((n - 1) as u8);
        vstd::arithmetic::power2::lemma_pow2_unfold(n as nat);
    }
}

/// The mask of an `n`-bit prefix, `2^n - 1`.
fn prefix_mask(n: u8) -> (r: usize)
    requires
        n < usize::BITS,
    ensures
        r == prefix_max(n),
{
    let mut m: usize = 0;
    let mut i: u8 = 0;
    while i < n
        invariant
            i <= n,
            n < usize::BITS,
            m == prefix_max(i),
        decreases n - i,
    {
        proof {
            lemma_prefix_max_fits((i + 1) as u8);
        }
        m = 2 * m + 1;
        i = i + 1;
    }
    m
}

/// The prefix bits of a first byte are the byte modulo `2^n`.
proof fn lemma_first_byte(b: u8, n: u8)
    requires
        n < usize::BITS,
    ensures
        ((b as usize) & (prefix_max(n) as usize)) as nat == (b as nat) % (prefix_max(n) + 1),
        ((b as usize) & (prefix_max(n) as usize)) <= 255,
{
    lemma_prefix_max_fits(n);
    let m = prefix_max(n) as usize;
    if n <= 8 {
        lemma_prefix_max(n);
        let m8 = m as u8;
        assert(((b as usize) & (m8 as usize)) == ((b & m8) as usize)) by (bit_vector);
        lemma_and_mask_is_mod(b, n);
    } else {
        lemma_prefix_max_low_byte(n);
        assert(m % 256 == 255);
        assert((m % 256 == 255) ==> ((b as usize) & m) == (b as usize)) by (bit_vector);
        assert(prefix_max(n) >= 255);
        vstd::arithmetic::div_mod::lemma_small_mod(b as nat, (prefix_max(n) + 1) as nat);
    }
    assert(((b as usize) & m) <= 255) by (bit_vector);
}

proof fn lemma_and_mask_is_mod(b: u8, n: u8)
    requires
        n <= 8,
    ensures
        (b & (prefix_max(n) as u8)) as nat == (b as nat) % (prefix_max(n) + 1),
{
    lemma_prefix_max(n);
    if n == 0 {
        assert(b & 0 == 0) by (bit_vector);
    } else if n == 1 {
        assert(b & 1 == b % 2) by (bit_vector);
    } else if n == 2 {
        assert(b & 3 == b % 4) by (bit_vector);
    } else if n == 3 {
        assert(b & 7 == b % 8) by (bit_vector);
    } else if n == 4 {
        assert(b & 15 == b % 16) by (bit_vector);
    } else if n == 5 {
        assert(b & 31 == b % 32) by (bit_vector);
    } else if n == 6 {
        assert(b & 63 == b % 64) by (bit_vector);
    } else if n == 7 {
        assert(b & 127 == b % 128) by (bit_vector);
    } else {
        assert(b & 255 == b) by (bit_vector);
        assert(b as nat % 256 == b as nat);
    }
}

/// Encode an integer with a prefix (RFC 7541 Section 5.1), appending it to
/// `buf`.
pub fn encode_integer(value: usize, prefix_bits: u8, prefix: u8, buf: &mut Vec<u8>)
    requires
        prefix_bits < usize::BITS,
    ensures
        final(buf)@ == old(buf)@ + integer_encoding(value as nat, prefix_bits, prefix),
{
    let max_prefix: usize = prefix_mask(prefix_bits);
    let ghost original = buf@;
    if value < max_prefix {
        buf.push(prefix | (value as u8));
        assert(buf@ =~= original + seq![prefix | (value as u8)]);
    } else {
        buf.push(prefix | (max_prefix as u8));
        let mut rest: usize = value - max_prefix;
        let ghost start = buf@;
        assert(start =~= original + seq![prefix | (max_prefix as u8)]);
        while rest >= 128
            invariant
                start + continuation_bytes((value - max_prefix) as nat) == buf@
                    + continuation_bytes(rest as nat),
            decreases rest,
        {
            let ghost before = buf@;
            buf.push(((rest % 128) as u8) | 0x80);
            proof {
                let r = rest;
                assert(((r % 128) as u8) | 0x80 == ((r % 128) + 128) as u8) by (bit_vector);
                assert(continuation_bytes(rest as nat) == seq![((rest % 128) + 128) as u8]
                    + continuation_bytes((rest / 128) as nat));
                assert(before + continuation_bytes(rest as nat) == buf@ + continuation_bytes(
                    (rest / 128) as nat,
                ));
            }
            rest = rest / 128;
        }
        let ghost before = buf@;
        buf.push(rest as u8);
        assert(continuation_bytes(rest as nat) == seq![rest as u8]);
        assert(buf@ =~= before + continuation_bytes(rest as nat));
        assert(buf@ =~= start + continuation_bytes((value - max_prefix) as nat));
    }
}

/// Decode an HPACK integer (RFC 7541 Section 5.1) at the start of `data`.
/// Returns the value and the number of bytes it took.
pub fn decode_integer(data: &[u8], prefix_bits: u8) -> (r: Result<(usize, usize), HpackError>)
    requires
        prefix_bits < usize::BITS,
    ensures
        match r {
            Ok((v, c)) => integer_decoding(data@, prefix_bits) == Ok::<(nat, nat), HpackError>(
                (v as nat, c as nat),
            ),
            Err(e) => integer_decoding(data@, prefix_bits) == Err::<(nat, nat), HpackError>(e),
        },
{
    if data.len() == 0 {
        return Err(HpackError::Incomplete);
    }
    let max_prefix: usize = prefix_mask(prefix_bits);
    proof {
        lemma_first_byte(data[0], prefix_bits);
    }
    let first: usize = (data[0] as usize) & max_prefix;
    let mut value: usize = first;
    let mut consumed: usize = 1;
    if first < max_prefix {
        return Ok((value, consumed));
    }
    // The weight of the next continuation byte, 128^k.
    let mut weight: u64 = 1;
    let mut k: usize = 0;
    loop
        invariant
            1 <= consumed <= data.len(),
            consumed == k + 1,
            k <= 4,
            weight == pow128(k as nat),
            weight <= 0x1000_0000,
            value as nat + 1 <= 256 * weight,
            integer_decoding(data@, prefix_bits) == decode_continuation(
                data@,
                consumed as nat,
                k as nat,
                value as nat,
            ),
        decreases 5 - k,
    {
        proof {
            reveal_with_fuel(pow128, 5);
        }
        if consumed >= data.len() {
            return Err(HpackError::Incomplete);
        }
        let byte: u8 = data[consumed];
        consumed = consumed + 1;
        // The contribution is computed in u64 so it cannot overflow on any
        // target; the sum is then checked against the range of usize.
        proof {
            let b = (byte % 128) as nat;
            let w = weight as nat;
            assert(b * w <= 127 * w) by (nonlinear_arith)
                requires b <= 127;
        }
        let contribution: u64 = (byte % 128) as u64 * weight;
        let total: u64 = value as u64 + contribution;
        if total > usize::MAX as u64 {
            return Err(HpackError::InvalidInteger);
        }
        value = total as usize;
        if byte < 128 {
            return Ok((value, consumed));
        }
        if k + 1 > 4 {
            return Err(HpackError::InvalidInteger);
        }
        k = k + 1;
        weight = weight * 128;
    }
}

} // verus!

verus! {

proof fn lemma_pow128_split(k: nat)
    ensures
        pow128(k + 1) == 128 * pow128(k),
        pow128(k) >= 1,
    decreases k,
{
    if k > 0 {
        lemma_pow128_split((k - 1) as nat);
    }
}

proof fn lemma_decode_continuation_of_encoding(
    data: Seq<u8>,
    pos: nat,
    k: nat,
    acc: nat,
    w: nat,
)
    requires
        pos + continuation_bytes(w).len() <= data.len(),
        data.subrange(pos as int, (pos + continuation_bytes(w).len()) as int) == continuation_bytes(w),
        k <= 4,
        w < pow128((5 - k) as nat),
        acc + w * pow128(k) <= usize::MAX,
    ensures
        decode_continuation(data, pos, k, acc) == Ok::<(nat, nat), HpackError>(
            (acc + w * pow128(k), pos + continuation_bytes(w).len()),
        ),
    decreases w,
{
    let p = pow128(k);
    lemma_pow128_split(k);
    let enc = continuation_bytes(w);
    assert(data[pos as int] == enc[0]);
    if w < 128 {
        assert(enc == seq![w as u8]);
        assert((w as u8) as nat % 128 == w);
    } else {
        let b = ((w % 128) + 128) as u8;
        assert(enc == seq![b] + continuation_bytes(w / 128));
        assert(b as nat % 128 == w % 128);
        assert(w % 128 * p <= w * p) by (nonlinear_arith)
            requires w % 128 <= w;
        assert(k < 4) by {
            if k == 4 {
                assert(pow128(1) == 128) by {
                    reveal_with_fuel(pow128, 2);
                }
            }
        }
        lemma_pow128_split((4 - k) as nat);
        assert(w / 128 < pow128((5 - (k + 1)) as nat)) by (nonlinear_arith)
            requires
                w < pow128((5 - k) as nat),
                pow128((5 - k) as nat) == 128 * pow128((5 - (k + 1)) as nat);
        assert(acc + (w % 128) * p + (w / 128) * pow128(k + 1) == acc + w * p) by (nonlinear_arith)
            requires
                pow128(k + 1) == 128 * p;
        let rest = continuation_bytes(w / 128);
        assert(data.subrange((pos + 1) as int, (pos + 1 + rest.len()) as int) == rest) by {
            assert(data.subrange((pos + 1) as int, (pos + 1 + rest.len()) as int) =~= enc.subrange(1, enc.len() as int));
            assert(enc.subrange(1, enc.len() as int) =~= rest);
        }
        lemma_decode_continuation_of_encoding(
            data,
            pos + 1,
            k + 1,
            acc + (w % 128) * p,
            w / 128,
        );
    }
}

/// Decoding the HPACK representation of an integer gives the integer back,
/// and tells how many bytes it took, whatever follows it. This holds for
/// every prefix width of at most 8 bits, every prefix pattern that leaves the
/// prefix bits clear, and every value that fits in `usize` and that the
/// decoder's limit of five continuation bytes can carry.
pub proof fn lemma_integer_roundtrip(value: nat, n: u8, prefix: u8, rest: Seq<u8>)
    requires
        n <= 8,
        prefix & (prefix_max(n) as u8) == 0,
        value <= usize::MAX,
        value < prefix_max(n) + pow128(5),
    ensures
        integer_decoding(integer_encoding(value, n, prefix) + rest, n) == Ok::<
            (nat, nat),
            HpackError,
        >((value, integer_encoding(value, n, prefix).len())),
{
    lemma_prefix_max(n);
    let m = prefix_max(n);
    let enc = integer_encoding(value, n, prefix);
    let data = enc + rest;
    let x: u8 = if value < m { value as u8 } else { m as u8 };
    let mm: u8 = m as u8;
    assert(x <= mm);
    assert(data[0] == prefix | x);
    assert((prefix | x) & mm == x) by (bit_vector)
        requires
            prefix & mm == 0,
            x <= mm,
            mm == 0 || mm == 1 || mm == 3 || mm == 7 || mm == 15 || mm == 31 || mm == 63 || mm
                == 127 || mm == 255;
    lemma_and_mask_is_mod(prefix | x, n);
    assert((data[0] as nat) % (m + 1) == x);
    if value >= m {
        let w = (value - m) as nat;
        let cont = continuation_bytes(w);
        assert(data.subrange(1, (1 + cont.len()) as int) =~= cont);
        reveal_with_fuel(pow128, 6);
        assert(pow128(0) == 1);
        assert(w * pow128(0) == w) by (nonlinear_arith)
            requires pow128(0) == 1;
        lemma_decode_continuation_of_encoding(data, 1, 0, m, w);
        assert(enc.len() == 1 + cont.len());
    } else {
        assert(x as nat == value);
        assert(enc.len() == 1);
    }
}

/// The number that continuation bytes carry, as RFC 7541 Section 5.1 reads
/// them: seven bits per byte, least significant group first.
pub open spec fn base128_value(s: Seq<u8>) -> nat
    decreases s.len(),
{
    if s.len() == 0 {
        0
    } else {
        (s[0] % 128) as nat + 128 * base128_value(s.drop_first())
    }
}

/// The integer representation of RFC 7541 Section 5.1: a value below
/// 2^N - 1 fills the N-bit prefix of the first byte; a larger one fills the
/// prefix with ones and carries the rest, `value - (2^N - 1)`, in
/// continuation bytes, seven bits each, least significant first, the high
/// bit set on every byte but the last. The bits above the prefix are kept.
pub proof fn lemma_integer_representation(value: nat, n: u8, prefix: u8)
    requires
        1 <= n <= 8,
    ensures
        ({
            let e = integer_encoding(value, n, prefix);
            let m: nat = if n == 1 { 1 } else if n == 2 { 3 } else if n == 3 { 7 } else if n == 4 {
                15
            } else if n == 5 { 31 } else if n == 6 { 63 } else if n == 7 { 127 } else { 255 };
            &&& value < m ==> e == seq![prefix | (value as u8)]
            &&& value >= m ==> {
                &&& e.len() >= 2
                &&& e[0] == prefix | (m as u8)
                &&& e.last() < 128
                &&& forall|k: int| 1 <= k < e.len() - 1 ==> #[trigger] e[k] >= 128
                &&& base128_value(e.drop_first()) == value - m
            }
        }),
{
    reveal_with_fuel(prefix_max, 9);
    let m = prefix_max(n);
    if value >= m {
        lemma_continuation_representation((value - m) as nat);
        let e = integer_encoding(value, n, prefix);
        assert(e.drop_first() =~= continuation_bytes((value - m) as nat));
    }
}

/// Continuation bytes carry their value in base 128, least significant
/// group first, with the high bit on all bytes but the last.
proof fn lemma_continuation_representation(v: nat)
    ensures
        continuation_bytes(v).len() >= 1,
        continuation_bytes(v).last() < 128,
        forall|k: int| 0 <= k < continuation_bytes(v).len() - 1 ==> #[trigger] continuation_bytes(v)[k] >= 128,
        base128_value(continuation_bytes(v)) == v,
    decreases v,
{
    let c = continuation_bytes(v);
    if v < 128 {
        assert(c.drop_first() =~= Seq::<u8>::empty());
        assert(base128_value(Seq::<u8>::empty()) == 0);
        assert(c[0] % 128 == v);
    } else {
        lemma_continuation_representation(v / 128);
        let t = continuation_bytes(v / 128);
        assert(c.drop_first() =~= t);
        assert(c[0] == ((v % 128) + 128) as u8);
        assert(c[0] % 128 == v % 128);
        assert(v == (v % 128) + 128 * (v / 128));
        assert forall|k: int| 0 <= k < c.len() - 1 implies #[trigger] c[k] >= 128 by {
            if k > 0 {
                assert(c[k] == t[k - 1]);
            }
        }
    }
}

} // verus!
