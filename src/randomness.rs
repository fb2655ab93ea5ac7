//! Derivation of a winning ticket from several entropy sources.
use vstd::prelude::*;
use crate::address::Address;

verus! {

/// The SHA-256 digest of `data`.
pub uninterp spec fn digest_of(data: Seq<u8>) -> Seq<u8>;

/// Relies on solana_program's `hash::hash`: the SHA-256 digest of the bytes,
/// 32 bytes long.
#[verifier::external_body]
fn sha256(data: &Vec<u8>) -> (r: [u8; 32])
    ensures
        r@ == digest_of(data@),
        r@.len() == 32,
{
    solana_program::hash::hash(data.as_slice()).to_bytes()
}

/// The first `n` little-endian bytes of `v`.
pub open spec fn le_bytes(v: nat, n: nat) -> Seq<u8>
    decreases n,
{
    if n == 0 {
        Seq::empty()
    } else {
        seq![(v % 256) as u8] + le_bytes(v / 256, (n - 1) as nat)
    }
}

/// The unsigned integer that the bytes of `s` encode, least significant first.
pub open spec fn le_value(s: Seq<u8>) -> nat
    decreases s.len(),
{
    if s.len() == 0 {
        0
    } else {
        s[0] as nat + 256 * le_value(s.subrange(1, s.len() as int))
    }
}

pub open spec fn pow256(n: nat) -> nat
    decreases n,
{
    if n == 0 {
        1
    } else {
        256 * pow256((n - 1) as nat)
    }
}

proof fn lemma_le_value_bound(s: Seq<u8>)
    ensures
        le_value(s) < pow256(s.len()),
    decreases s.len(),
{
    if s.len() > 0 {
        let t = s.subrange(1, s.len() as int);
        lemma_le_value_bound(t);
        assert(t.len() == s.len() - 1);
        assert(le_value(s) < pow256(s.len())) by (nonlinear_arith)
            requires
                le_value(s) == s[0] as nat + 256 * le_value(t),
                s[0] < 256,
                le_value(t) < pow256(t.len()),
                pow256(s.len()) == 256 * pow256(t.len()),
        ;
    }
}

proof fn lemma_pow256_monotone(a: nat, b: nat)
    requires
        a <= b,
    ensures
        pow256(a) <= pow256(b),
    decreases b,
{
    if a < b {
        lemma_pow256_monotone(a, (b - 1) as nat);
    }
}

/// The entropy buffer: timestamp, recent chain value, caller and lottery id.
pub open spec fn entropy(now: u64, recent: Seq<u8>, caller: Seq<u8>, lottery_id: u64) -> Seq<u8> {
    le_bytes(now as nat, 8) + recent + caller + le_bytes(lottery_id as nat, 8)
}

/// The winning ticket that a digest selects among `total` tickets, numbered from 1.
pub open spec fn winner_of(digest: Seq<u8>, total: nat) -> nat
    recommends
        total > 0,
{
    le_value(digest.subrange(0, 8)) % total + 1
}

/// Appends the eight little-endian bytes of `v` to `buf`.
fn push_le_u64(buf: &mut Vec<u8>, v: u64)
    ensures
        final(buf)@ == old(buf)@ + le_bytes(v as nat, 8),
{
    let mut x: u64 = v;
    let mut i: usize = 0;
    while i < 8
        invariant
            0 <= i <= 8,
            buf@ + le_bytes(x as nat, (8 - i) as nat) == old(buf)@ + le_bytes(v as nat, 8),
        decreases 8 - i,
    {
        let ghost before = buf@;
        let ghost x0: nat = x as nat;
        let ghost k: nat = (8 - i - 1) as nat;
        assert(le_bytes(x0, k + 1) == seq![(x0 % 256) as u8] + le_bytes(x0 / 256, k));
        buf.push((x % 256) as u8);
        x = x / 256;
        i = i + 1;
        assert(buf@ + le_bytes(x as nat, k) =~= before + le_bytes(x0, k + 1));
    }
    assert(buf@ + le_bytes(x as nat, 0) =~= buf@);
}

/// Reads the first eight bytes of `d` as a little-endian unsigned integer.
pub fn read_le_u64(d: &[u8; 32]) -> (r: u64)
    ensures
        r as nat == le_value(d@.subrange(0, 8)),
{
    proof {
        reveal_with_fuel(pow256, 9);
        assert(pow256(8) == 18446744073709551616);
    }
    let mut acc: u64 = 0;
    let mut i: usize = 8;
    while i > 0
        invariant
            0 <= i <= 8,
            d@.len() == 32,
            pow256(8) == 18446744073709551616,
            acc as nat == le_value(d@.subrange(i as int, 8)),
        decreases i,
    {
        let ghost s = d@.subrange(i as int - 1, 8);
        assert(s.subrange(1, s.len() as int) =~= d@.subrange(i as int, 8));
        assert(le_value(s) == s[0] as nat + 256 * acc as nat);
        proof {
            lemma_le_value_bound(s);
            lemma_pow256_monotone(s.len(), 8);
        }
        assert(le_value(s) < 18446744073709551616);
        acc = d[i - 1] as u64 + 256 * acc;
        i = i - 1;
    }
    assert(d@.subrange(0, 8) =~= d@.subrange(i as int, 8));
    acc
}

/// Appends all bytes of `src` to `buf`.
fn push_all(buf: &mut Vec<u8>, src: &[u8; 32])
    ensures
        final(buf)@ == old(buf)@ + src@,
{
    let mut i: usize = 0;
    while i < 32
        invariant
            0 <= i <= 32,
            src@.len() == 32,
            buf@ == old(buf)@ + src@.subrange(0, i as int),
        decreases 32 - i,
    {
        buf.push(src[i]);
        i = i + 1;
        assert(buf@ =~= old(buf)@ + src@.subrange(0, i as int));
    }
    assert(src@.subrange(0, 32) =~= src@);
}

/// Concatenates the entropy sources into one buffer.
pub fn build_entropy(now: u64, recent: &[u8; 32], caller: &Address, lottery_id: u64) -> (r: Vec<u8>)
    ensures
        r@ == entropy(now, recent@, caller@, lottery_id),
{
    let mut buf: Vec<u8> = Vec::new();
    push_le_u64(&mut buf, now);
    push_all(&mut buf, recent);
    push_all(&mut buf, &caller.bytes);
    push_le_u64(&mut buf, lottery_id);
    assert(buf@ =~= entropy(now, recent@, caller@, lottery_id));
    buf
}

/// Maps a digest to a ticket number in `1..=total`.
pub fn winner_from_digest(digest: &[u8; 32], total: u32) -> (r: u64)
    requires
        total > 0,
    ensures
        r as nat == winner_of(digest@, total as nat),
        1 <= r <= total,
{
    let x = read_le_u64(digest);
    x % (total as u64) + 1
}

/// Hashes the entropy sources of a declaration.
pub fn draw_digest(now: u64, recent: &[u8; 32], caller: &Address, lottery_id: u64) -> (r: [u8; 32])
    ensures
        r@ == digest_of(entropy(now, recent@, caller@, lottery_id)),
        r@.len() == 32,
{
    let buf = build_entropy(now, recent, caller, lottery_id);
    sha256(&buf)
}

} // verus!
