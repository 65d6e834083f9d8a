//! Hyperplane hashing for the approximate nearest neighbour index: how
//! many buckets an index has and which bucket a sign pattern falls into.
use vstd::prelude::*;
use vstd::arithmetic::power2::{pow2, lemma_pow2_unfold, lemma_pow2_pos, lemma_pow2_strictly_increases, lemma2_to64, lemma2_to64_rest};

verus! {

/// The binary signature of a sign pattern: bit `i` is set where the point
/// lies on the non-negative side of hyperplane `i`.
pub open spec fn signature(signs: Seq<bool>) -> nat
    decreases signs.len(),
{
    if signs.len() == 0 {
        0
    } else {
        signature(signs.drop_last()) + if signs.last() {
            pow2((signs.len() - 1) as nat)
        } else {
            0
        }
    }
}

/// The most hyperplanes that contribute to the bucket count.
pub const MAX_HASH_BITS: usize = 16;

/// The number of buckets of an index with `num_hyperplanes` hyperplanes:
/// `2^min(num_hyperplanes, 16)`.
pub fn bucket_count(num_hyperplanes: usize) -> (n: usize)
    ensures
        n == pow2(if num_hyperplanes < 16 { num_hyperplanes as nat } else { 16 }),
        n >= 1,
{
    let bits = if num_hyperplanes < MAX_HASH_BITS {
        num_hyperplanes
    } else {
        MAX_HASH_BITS
    };
    let mut n: usize = 1;
    let mut i: usize = 0;
    proof {
        lemma2_to64();
    }
    while i < bits
        invariant
            i <= bits <= 16,
            n == pow2(i as nat),
            n <= 65536,
        decreases bits - i,
    {
        proof {
            lemma_pow2_bound(i as nat, 16);
            lemma_pow2_unfold((i + 1) as nat);
            lemma_pow2_bound((i + 1) as nat, 16);
        }
        n = n * 2;
        i = i + 1;
    }
    proof {
        lemma_pow2_pos(i as nat);
    }
    n
}

/// The bucket of a point with the given hyperplane sign pattern: its
/// signature modulo the bucket count.
pub fn bucket_of(signs: &Vec<bool>, num_buckets: usize) -> (b: usize)
    requires
        signs@.len() <= 64,
        num_buckets >= 1,
    ensures
        b == signature(signs@) % (num_buckets as nat),
        b < num_buckets,
{
    let n = signs.len();
    let mut hash: u64 = 0;
    let mut bit: u64 = 1;
    let mut i: usize = 0;
    proof {
        assert(signs@.take(0) =~= Seq::<bool>::empty());
        lemma2_to64();
    }
    while i < n
        invariant
            n == signs@.len() <= 64,
            i <= n,
            hash == signature(signs@.take(i as int)),
            hash < pow2(i as nat),
            i < 64 ==> bit == pow2(i as nat),
        decreases n - i,
    {
        proof {
            assert(signs@.take(i + 1).drop_last() =~= signs@.take(i as int));
            lemma_pow2_bound(i as nat, 63);
            lemma_pow2_bound((i + 1) as nat, 64);
            lemma_pow2_unfold((i + 1) as nat);
            if i + 1 < 64 {
                lemma_pow2_bound((i + 1) as nat, 63);
            }
        }
        if signs[i] {
            hash = hash + bit;
        }
        if i + 1 < 64 {
            bit = bit * 2;
        }
        i = i + 1;
    }
    proof {
        assert(signs@.take(n as int) =~= signs@);
    }
    (hash % (num_buckets as u64)) as usize
}

/// `2^i <= 2^k` for `i <= k`, and the values at 16, 63 and 64.
proof fn lemma_pow2_bound(i: nat, k: nat)
    requires
        i <= k,
    ensures
        pow2(i) <= pow2(k),
        pow2(16) == 65536,
        pow2(63) == 0x8000_0000_0000_0000,
        pow2(64) == 0x1_0000_0000_0000_0000,
{
    lemma2_to64();
    lemma2_to64_rest();
    if i < k {
        lemma_pow2_strictly_increases(i, k);
    }
}

/// Every point of an index lands in one of its buckets, whatever its sign
/// pattern: the bucket of a pattern is below the bucket count.
pub proof fn lemma_bucket_in_range(signs: Seq<bool>, num_hyperplanes: usize, num_buckets: usize)
    requires
        num_buckets == pow2(if num_hyperplanes < 16 { num_hyperplanes as nat } else { 16 }),
    ensures
        num_buckets >= 1,
        signature(signs) % (num_buckets as nat) < num_buckets,
{
    lemma_pow2_pos(if num_hyperplanes < 16 { num_hyperplanes as nat } else { 16 });
}

} // verus!
