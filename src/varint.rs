use vstd::prelude::*;

verus! {

/// 128 raised to the power `n`: the weight of the `n`-th seven-bit group.
pub open spec fn pow128(n: nat) -> nat
    decreases n,
{
    if n == 0 {
        1
    } else {
        128 * pow128((n - 1) as nat)
    }
}

/// The minimal varint encoding of `v`: seven bits per byte, least
/// significant group first, the high bit set on every byte but the last.
pub open spec fn varint_encoding(v: nat) -> Seq<u8>
    decreases v,
{
    if v < 128 {
        seq![v as u8]
    } else {
        seq![(v % 128 + 128) as u8] + varint_encoding(v / 128)
    }
}

/// The number that the seven-bit groups of `s` stand for, first byte lowest.
pub open spec fn group_sum(s: Seq<u8>) -> nat
    decreases s.len(),
{
    if s.len() == 0 {
        0
    } else {
        (s[0] % 128) as nat + 128 * group_sum(s.drop_first())
    }
}

/// Why a varint could not be read.
#[derive(Debug, Clone, Copy, PartialEq, Eq, Structural)]
pub enum VarintError {
    /// The bytes ended before a byte without the continuation bit.
    Incomplete,
    /// Five bytes were read and the last still had the continuation bit.
    TooLong,
}

/// Scans the varint that starts at `start`, having already passed `i`
/// continuation bytes; on success gives the varint's length in bytes.
pub open spec fn varint_scan(s: Seq<u8>, start: int, i: nat) -> Result<nat, VarintError>
    decreases 5 - i,
{
    if i >= 5 {
        Err(VarintError::TooLong)
    } else if start + i >= s.len() {
        Err(VarintError::Incomplete)
    } else if s[start + i] < 128 {
        Ok(i + 1)
    } else {
        varint_scan(s, start, i + 1)
    }
}

/// The varint at `start` of `s`: its value, kept to 32 bits, and its length.
pub open spec fn varint_decode_at(s: Seq<u8>, start: int) -> Result<(u32, nat), VarintError> {
    match varint_scan(s, start, 0) {
        Ok(n) => Ok(((group_sum(s.subrange(start, start + n)) % 0x1_0000_0000) as u32, n)),
        Err(e) => Err(e),
    }
}

/// A varint that scans fine is one to five bytes long and lies within `s`.
pub proof fn lemma_scan_bounds(s: Seq<u8>, start: int, i: nat)
    requires
        0 <= start,
        i <= 5,
    ensures
        varint_scan(s, start, i) matches Ok(n) ==> i < n && n <= 5 && start + n <= s.len(),
    decreases 5 - i,
{
    if i < 5 && start + i < s.len() && s[start + i] >= 128 {
        lemma_scan_bounds(s, start, i + 1);
    }
}

proof fn lemma_group_sum_push(s: Seq<u8>, b: u8)
    ensures
        group_sum(s.push(b)) == group_sum(s) + pow128(s.len()) * (b % 128) as nat,
    decreases s.len(),
{
    let t = s.push(b);
    assert(t[0] == if s.len() == 0 { b } else { s[0] });
    if s.len() == 0 {
        assert(t.drop_first() =~= Seq::<u8>::empty());
        assert(group_sum(t.drop_first()) == 0);
        assert(pow128(0) == 1);
    } else {
        assert(t.drop_first() =~= s.drop_first().push(b));
        lemma_group_sum_push(s.drop_first(), b);
        assert(pow128(s.len()) == 128 * pow128((s.len() - 1) as nat));
        let p = pow128((s.len() - 1) as nat);
        let g = group_sum(s.drop_first());
        let c = (b % 128) as nat;
        assert(128 * (g + p * c) == 128 * g + (128 * p) * c) by (nonlinear_arith);
    }
}

proof fn lemma_encoding_sum(v: nat)
    ensures
        group_sum(varint_encoding(v)) == v,
    decreases v,
{
    let s = varint_encoding(v);
    if v < 128 {
        assert(s.drop_first() =~= Seq::<u8>::empty());
        assert(group_sum(s.drop_first()) == 0);
    } else {
        lemma_encoding_sum(v / 128);
        assert(s.drop_first() =~= varint_encoding(v / 128));
        assert(s[0] % 128 == v % 128);
    }
}

/// An encoding is at most `k` bytes long when the value is below `128^k`.
pub proof fn lemma_encoding_len(v: nat, k: nat)
    requires
        k >= 1,
        v < pow128(k),
    ensures
        varint_encoding(v).len() <= k,
    decreases v,
{
    if v >= 128 {
        assert(k >= 2) by {
            if k == 1 {
                assert(pow128(1) == 128 * pow128(0));
            }
        }
        assert(pow128(k) == 128 * pow128((k - 1) as nat));
        lemma_encoding_len(v / 128, (k - 1) as nat);
    }
}

/// Every value below 2^32 encodes in at most five bytes.
pub proof fn lemma_encoding_len_u32(v: u32)
    ensures
        varint_encoding(v as nat).len() <= 5,
        v < 0x20_0000 ==> varint_encoding(v as nat).len() <= 3,
        varint_encoding(v as nat).len() >= 1,
{
    reveal_with_fuel(pow128, 6);
    lemma_encoding_len(v as nat, 5);
    if v < 0x20_0000 {
        lemma_encoding_len(v as nat, 3);
    }
}

proof fn lemma_scan_encoding(t: Seq<u8>, start: int, i: nat, w: nat)
    requires
        0 <= start,
        start + i + varint_encoding(w).len() <= t.len(),
        i + varint_encoding(w).len() <= 5,
        t.subrange(start + i, start + i + varint_encoding(w).len()) == varint_encoding(w),
    ensures
        varint_scan(t, start, i) == Ok::<nat, VarintError>(i + varint_encoding(w).len()),
    decreases w,
{
    let e = varint_encoding(w);
    assert(t[start + i] == t.subrange(start + i, start + i + e.len())[0]);
    if w >= 128 {
        let e2 = varint_encoding(w / 128);
        assert(e =~= seq![(w % 128 + 128) as u8] + e2);
        assert(e.subrange(1, e.len() as int) =~= e2);
        assert(t.subrange(start + i + 1, start + i + 1 + e2.len()) =~= e.subrange(1, e.len() as int));
        lemma_scan_encoding(t, start, i + 1, w / 128);
    }
}

/// Decoding the encoding of `v`, followed by any bytes at all, gives back
/// `v` and the encoding's own length.
pub proof fn lemma_varint_round_trip(v: u32, rest: Seq<u8>)
    ensures
        varint_decode_at(varint_encoding(v as nat) + rest, 0) == Ok::<(u32, nat), VarintError>(
            (v, varint_encoding(v as nat).len()),
        ),
{
    let e = varint_encoding(v as nat);
    let t = e + rest;
    lemma_encoding_len_u32(v);
    assert(t.subrange(0, e.len() as int) =~= e);
    lemma_scan_encoding(t, 0, 0, v as nat);
    lemma_encoding_sum(v as nat);
}

/// Encodes `value` as a minimal varint.
pub fn encode_varint(value: u32) -> (r: Vec<u8>)
    ensures
        r@ == varint_encoding(value as nat),
        r@.len() <= 5,
{
    proof {
        lemma_encoding_len_u32(value);
    }
    let mut out: Vec<u8> = Vec::new();
    let mut rest: u32 = value;
    while rest >= 128
        invariant
            out@ + varint_encoding(rest as nat) == varint_encoding(value as nat),
        decreases rest,
    {
        let b: u8 = (rest % 128 + 128) as u8;
        assert(varint_encoding(rest as nat) == seq![b] + varint_encoding((rest / 128) as nat));
        assert(out@.push(b) + varint_encoding((rest / 128) as nat) =~= out@ + (seq![b]
            + varint_encoding((rest / 128) as nat)));
        out.push(b);
        rest = rest / 128;
    }
    assert(out@.push(rest as u8) =~= out@ + varint_encoding(rest as nat));
    out.push(rest as u8);
    out
}

/// Reads the varint that starts at `start` of `buf`.
pub fn decode_varint(buf: &[u8], start: usize) -> (r: Result<(u32, usize), VarintError>)
    requires
        start <= buf@.len(),
    ensures
        match (r, varint_decode_at(buf@, start as int)) {
            (Ok((v, n)), Ok((sv, sn))) => v == sv && n == sn,
            (Err(e), Err(se)) => e == se,
            _ => false,
        },
{
    let mut i: usize = 0;
    let mut acc: u64 = 0;
    let mut mult: u64 = 1;
    while i < 5
        invariant
            start <= buf@.len(),
            i <= 5,
            mult == pow128(i as nat),
            mult <= 0x8_0000_0000,
            acc < mult,
            acc == group_sum(buf@.subrange(start as int, start + i)),
            start + i <= buf@.len(),
            varint_scan(buf@, start as int, 0) == varint_scan(buf@, start as int, i as nat),
        decreases 5 - i,
    {
        if i >= buf.len() - start {
            return Err(VarintError::Incomplete);
        }
        let b: u8 = buf[start + i];
        proof {
            let s = buf@.subrange(start as int, start + i);
            assert(buf@.subrange(start as int, start + i + 1) =~= s.push(b));
            lemma_group_sum_push(s, b);
            let c = (b % 128) as nat;
            assert(acc + mult * c < 128 * mult) by (nonlinear_arith)
                requires
                    acc < mult,
                    c < 128,
            ;
        }
        acc = acc + mult * ((b % 128) as u64);
        if b < 128 {
            return Ok(((acc % 0x1_0000_0000) as u32, i + 1));
        }
        proof {
            reveal_with_fuel(pow128, 6);
        }
        mult = mult * 128;
        i = i + 1;
    }
    Err(VarintError::TooLong)
}

} // verus!
