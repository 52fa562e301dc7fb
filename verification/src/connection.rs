//! The framing of messages on a connection: an 8-byte little-endian length, then the bytes.
use vstd::prelude::*;
use vstd::arithmetic::div_mod::{lemma_mod_breakdown, lemma_div_denominator};

verus! {

/// 256 to the power `k`.
pub open spec fn pow256(k: nat) -> nat
    decreases k,
{
    if k == 0 {
        1
    } else {
        256 * pow256((k - 1) as nat)
    }
}

/// The `k` lowest bytes of `n`, least significant first.
pub open spec fn le_bytes(n: nat, k: nat) -> Seq<u8>
    decreases k,
{
    if k == 0 {
        seq![]
    } else {
        le_bytes(n, (k - 1) as nat).push(((n / pow256((k - 1) as nat)) % 256) as u8)
    }
}

/// The number that bytes stand for, least significant first.
pub open spec fn le_value(s: Seq<u8>) -> nat
    decreases s.len(),
{
    if s.len() == 0 {
        0
    } else {
        le_value(s.drop_last()) + (s.last() as nat) * pow256((s.len() - 1) as nat)
    }
}

/// The header of a frame whose body has `len` bytes.
pub open spec fn frame_header(len: nat) -> Seq<u8> {
    le_bytes(len, 8)
}

/// Number of bytes of a frame header.
pub const FRAME_HEADER_LEN: usize = 8;

proof fn lemma_pow256_positive(k: nat)
    ensures
        pow256(k) > 0,
    decreases k,
{
    if k > 0 {
        lemma_pow256_positive((k - 1) as nat);
    }
}

proof fn lemma_pow256_8()
    ensures
        pow256(8) == 0x1_0000_0000_0000_0000,
{
    reveal_with_fuel(pow256, 9);
}

proof fn lemma_le_bytes_len(n: nat, k: nat)
    ensures
        le_bytes(n, k).len() == k,
    decreases k,
{
    if k > 0 {
        lemma_le_bytes_len(n, (k - 1) as nat);
    }
}

/// The bytes of `le_bytes(n, k)` stand for `n` modulo `256^k`.
proof fn lemma_le_value_of_bytes(n: nat, k: nat)
    ensures
        le_value(le_bytes(n, k)) == n % pow256(k),
    decreases k,
{
    lemma_pow256_positive(k);
    lemma_le_bytes_len(n, k);
    if k > 0 {
        let j = (k - 1) as nat;
        let p = pow256(j);
        lemma_pow256_positive(j);
        lemma_le_value_of_bytes(n, j);
        let s = le_bytes(n, k);
        assert(s.drop_last() =~= le_bytes(n, j));
        lemma_mod_breakdown(n as int, p as int, 256);
        assert(p * 256 == pow256(k));
        let d = (n / p) % 256;
        assert(s.last() == d as u8);
        assert((d as u8) as nat == d);
        assert(le_value(s) == n % p + d * p);
        assert(d * p == p * d) by (nonlinear_arith);
    } else {
        assert(n % 1 == 0);
    }
}

/// The frame length that a header announces is the length of the body it was made for.
pub proof fn lemma_frame_header_round_trip(len: nat)
    requires
        len < 0x1_0000_0000_0000_0000,
    ensures
        frame_header(len).len() == FRAME_HEADER_LEN,
        le_value(frame_header(len)) == len,
{
    lemma_le_bytes_len(len, 8);
    lemma_le_value_of_bytes(len, 8);
    lemma_pow256_8();
}

/// The frame that carries `body`: its length as 8 little-endian bytes, then the body.
pub fn encode_frame(body: &[u8]) -> (r: Vec<u8>)
    requires
        body@.len() <= i64::MAX,
    ensures
        r@ == frame_header(body@.len()) + body@,
{
    let n: u64 = body.len() as u64;
    let mut out: Vec<u8> = Vec::new();
    let mut rest: u64 = n;
    let mut k: usize = 0;
    assert(pow256(0) == 1);
    assert(n as nat / 1 == n) by (nonlinear_arith);
    while k < FRAME_HEADER_LEN
        invariant
            k <= 8,
            n == body@.len(),
            out@ == le_bytes(n as nat, k as nat),
            rest == n as nat / pow256(k as nat),
        decreases 8 - k,
    {
        proof {
            lemma_pow256_positive(k as nat);
            lemma_div_denominator(n as int, pow256(k as nat) as int, 256);
            assert(pow256(k as nat) * 256 == pow256((k + 1) as nat));
        }
        out.push((rest % 256) as u8);
        rest = rest / 256;
        k = k + 1;
    }
    let ghost header = out@;
    let mut i: usize = 0;
    while i < body.len()
        invariant
            i <= body@.len(),
            header == le_bytes(n as nat, 8),
            n == body@.len(),
            out@ == header + body@.subrange(0, i as int),
        decreases body@.len() - i,
    {
        out.push(body[i]);
        i = i + 1;
        assert(out@ =~= header + body@.subrange(0, i as int));
    }
    assert(body@.subrange(0, body@.len() as int) =~= body@);
    out
}

/// The body length that a frame header announces.
pub fn decode_frame_len(header: &[u8]) -> (r: u64)
    requires
        header@.len() == FRAME_HEADER_LEN,
    ensures
        r == le_value(header@),
{
    let mut value: u64 = 0;
    let mut k: usize = 8;
    // Horner's rule, most significant byte first.
    while k > 0
        invariant
            k <= 8,
            header@.len() == 8,
            value == le_value(header@.subrange(k as int, 8)),
            le_value(header@.subrange(k as int, 8)) < pow256((8 - k) as nat),
        decreases k,
    {
        proof {
            lemma_le_value_prepend(header@.subrange((k - 1) as int, 8));
            assert(header@.subrange((k - 1) as int, 8).drop_first() =~= header@.subrange(k as int, 8));
            lemma_pow256_8();
            lemma_pow256_mono((8 - k) as nat);
        }
        value = value * 256 + header[k - 1] as u64;
        k = k - 1;
    }
    assert(header@.subrange(0, 8) =~= header@);
    value
}

proof fn lemma_pow256_mono(j: nat)
    requires
        j < 8,
    ensures
        pow256(j) * 256 == pow256(j + 1),
        pow256(j + 1) <= 0x1_0000_0000_0000_0000,
{
    reveal_with_fuel(pow256, 9);
    assert(j == 0 || j == 1 || j == 2 || j == 3 || j == 4 || j == 5 || j == 6 || j == 7);
}

/// Reading a byte sequence from the front: the first byte is the least significant.
proof fn lemma_le_value_prepend(s: Seq<u8>)
    requires
        s.len() > 0,
    ensures
        le_value(s) == s[0] + 256 * le_value(s.drop_first()),
        le_value(s.drop_first()) < pow256((s.len() - 1) as nat) ==> le_value(s) < pow256(s.len()),
    decreases s.len(),
{
    let u = s.drop_first();
    if s.len() == 1 {
        assert(s.drop_last() =~= Seq::<u8>::empty());
        assert(u =~= Seq::<u8>::empty());
        assert(le_value(Seq::<u8>::empty()) == 0);
        assert(pow256(0) == 1);
        assert(le_value(s) == (s.last() as nat) * 1);
        assert(s.last() == s[0]);
    } else {
        let t = s.drop_last();
        lemma_le_value_prepend(t);
        assert(t.drop_first() =~= u.drop_last());
        assert(u.last() == s.last());
        assert(t[0] == s[0]);
        let m = (s.len() - 2) as nat;
        let l = s.last() as nat;
        assert(u.len() - 1 == m);
        assert(le_value(u) == le_value(t.drop_first()) + l * pow256(m));
        assert(le_value(s) == le_value(t) + l * pow256(m + 1));
        assert(pow256(m + 1) == 256 * pow256(m));
        assert(l * pow256(m + 1) == 256 * (l * pow256(m))) by (nonlinear_arith)
            requires pow256(m + 1) == 256 * pow256(m);
    }
    assert(pow256(s.len()) == 256 * pow256((s.len() - 1) as nat));
}

} // verus!
