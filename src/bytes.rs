//! Big-endian unsigned integers in byte sequences.
use vstd::prelude::*;

verus! {

/// `256` raised to the power `n`.
pub open spec fn pow256(n: nat) -> nat
    decreases n,
{
    if n == 0 {
        1
    } else {
        256 * pow256((n - 1) as nat)
    }
}

/// The unsigned integer that a big-endian byte sequence spells.
pub open spec fn be_value(s: Seq<u8>) -> nat
    decreases s.len(),
{
    if s.len() == 0 {
        0
    } else {
        be_value(s.drop_last()) * 256 + (s.last() as nat)
    }
}

/// Byte `j` (most significant first) of the 16-byte big-endian form of `v`.
pub open spec fn word_byte(v: u128, j: int) -> u8 {
    ((v >> ((8 * (15 - j)) as u128)) & 0xff) as u8
}

/// The 16-byte big-endian form of `v`.
pub open spec fn word_bytes(v: u128) -> Seq<u8> {
    Seq::new(16, |j: int| word_byte(v, j))
}

pub proof fn lemma_pow256_positive(n: nat)
    ensures
        pow256(n) >= 1,
    decreases n,
{
    if n > 0 {
        lemma_pow256_positive((n - 1) as nat);
    }
}

pub proof fn lemma_pow256_monotone(a: nat, b: nat)
    requires
        a <= b,
    ensures
        pow256(a) <= pow256(b),
    decreases b,
{
    if a < b {
        lemma_pow256_monotone(a, (b - 1) as nat);
        lemma_pow256_positive((b - 1) as nat);
    }
}

pub proof fn lemma_pow256_values()
    ensures
        pow256(4) == 0x1_0000_0000,
        pow256(8) == 0x1_0000_0000_0000_0000,
        pow256(16) == 0x1_0000_0000_0000_0000_0000_0000_0000_0000,
{
    reveal_with_fuel(pow256, 17);
}

/// Reads the `len` bytes of `data` from `start` on as a big-endian unsigned integer.
pub fn read_be(data: &[u8], start: usize, len: usize) -> (r: u128)
    requires
        len <= 16,
        start + len <= data@.len(),
    ensures
        r as nat == be_value(data@.subrange(start as int, start + len)),
        (r as nat) < pow256(len as nat),
{
    let n: usize = data.len();
    assert(start + len <= n);
    let end: usize = start + len;
    let mut v: u128 = 0;
    let mut i: usize = start;
    while i < end
        invariant
            end == start + len,
            start <= i <= end,
            end <= data@.len(),
            len <= 16,
            v as nat == be_value(data@.subrange(start as int, i as int)),
            (v as nat) < pow256((i - start) as nat),
        decreases end - i,
    {
        let ghost k: nat = (i - start) as nat;
        let ghost p: nat = pow256(k);
        let b: u8 = data[i];
        proof {
            lemma_pow256_monotone(k + 1, 16);
            lemma_pow256_values();
            assert(pow256(k + 1) == 256 * p);
            assert((v as nat) * 256 + (b as nat) < 256 * p) by (nonlinear_arith)
                requires
                    (v as nat) < p,
                    (b as nat) < 256,
            ;
            let s = data@.subrange(start as int, i + 1);
            assert(s.drop_last() =~= data@.subrange(start as int, i as int));
        }
        v = v * 256 + b as u128;
        i = i + 1;
    }
    v
}

/// The 16-byte big-endian form of `v`.
pub fn write_word(v: u128) -> (r: [u8; 16])
    ensures
        r@ == word_bytes(v),
{
    let mut r: [u8; 16] = [0u8; 16];
    let mut j: usize = 0;
    while j < 16
        invariant
            j <= 16,
            r@.len() == 16,
            forall|k: int| 0 <= k < j ==> r@[k] == word_byte(v, k),
        decreases 16 - j,
    {
        let shift: u128 = (8 * (15 - j)) as u128;
        r[j] = ((v >> shift) & 0xff) as u8;
        j = j + 1;
    }
    assert(r@ =~= word_bytes(v));
    r
}

/// The low byte and the rest of a 128-bit value.
proof fn lemma_split_low_byte(x: u128)
    ensures
        x as nat == (x >> 8u128) as nat * 256 + (x & 0xffu128) as nat,
        (x & 0xffu128) < 256,
{
    assert(x >> 8u128 == x / 256) by (bit_vector);
    assert(x & 0xffu128 == x % 256) by (bit_vector);
    assert((x & 0xffu128) < 256) by (bit_vector);
}

/// The first `k` bytes of the word of `v` spell `v` without its last `16 - k` bytes.
proof fn lemma_word_prefix(v: u128, k: nat)
    requires
        1 <= k <= 16,
    ensures
        be_value(word_bytes(v).take(k as int)) == (v >> ((8 * (16 - k)) as u128)) as nat,
    decreases k,
{
    let t = word_bytes(v).take(k as int);
    let s: u128 = (8 * (16 - k)) as u128;
    let x: u128 = v >> s;
    lemma_split_low_byte(x);
    assert(t.drop_last() =~= word_bytes(v).take(k - 1));
    assert(t.last() == word_byte(v, k - 1));
    assert(word_byte(v, k - 1) == (x & 0xffu128) as u8);
    if k == 1 {
        assert(s == 120);
        assert((v >> 120u128) >> 8u128 == 0) by (bit_vector);
        assert(be_value(t.drop_last()) == 0);
    } else {
        lemma_word_prefix(v, (k - 1) as nat);
        assert(s + 8 <= 120);
        assert((v >> s) >> 8u128 == v >> ((s + 8) as u128)) by (bit_vector)
            requires
                s + 8 <= 120,
        ;
        assert(((8 * (16 - (k - 1))) as u128) == ((s + 8) as u128));
    }
}

/// A 128-bit value survives being written as a word and read back.
pub proof fn lemma_word_round_trip(v: u128)
    ensures
        be_value(word_bytes(v)) == v as nat,
        word_bytes(v).len() == 16,
{
    lemma_word_prefix(v, 16);
    assert(word_bytes(v).take(16) =~= word_bytes(v));
    assert(v >> 0u128 == v) by (bit_vector);
}

} // verus!
