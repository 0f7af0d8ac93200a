//! Plain 32-bit model of SHA-256.
//!
//! Everything the ciphertext-domain engine promises is stated against the
//! specification functions here: modular 32-bit arithmetic, the bitwise
//! mixing functions, the round constants and initial hash values, the
//! message schedule, the round function, and the block compression.

use vstd::prelude::*;

verus! {

/// Addition modulo 2^32.
pub open spec fn add32(x: u32, y: u32) -> u32 {
    ((x + y) % 0x1_0000_0000) as u32
}

/// Subtraction modulo 2^32.
pub open spec fn sub32(x: u32, y: u32) -> u32 {
    (((x - y) % 0x1_0000_0000 + 0x1_0000_0000) % 0x1_0000_0000) as u32
}

/// Negation modulo 2^32.
pub open spec fn neg32(x: u32) -> u32 {
    sub32(0u32, x)
}

/// Right rotation of a 32-bit word by `n` positions, built from two shifts,
/// as the engine computes it: `(x >> n) | (x << (32 - n))`.
pub open spec fn rotr32(x: u32, n: u32) -> u32
    recommends
        n < 32,
{
    if n == 0 {
        x
    } else {
        (x >> n) | (x << ((32 - n) as u32))
    }
}

/// Message-schedule mixing function sigma-0.
pub open spec fn sigma0_spec(x: u32) -> u32 {
    rotr32(x, 7) ^ rotr32(x, 18) ^ (x >> 3)
}

/// Message-schedule mixing function sigma-1.
pub open spec fn sigma1_spec(x: u32) -> u32 {
    rotr32(x, 17) ^ rotr32(x, 19) ^ (x >> 10)
}

/// Compression mixing function capital-Sigma-0.
pub open spec fn sigma_upper_case_0_spec(x: u32) -> u32 {
    rotr32(x, 2) ^ rotr32(x, 13) ^ rotr32(x, 22)
}

/// Compression mixing function capital-Sigma-1.
pub open spec fn sigma_upper_case_1_spec(x: u32) -> u32 {
    rotr32(x, 6) ^ rotr32(x, 11) ^ rotr32(x, 25)
}

/// Majority function: `(x & (y ^ z)) ^ (y & z)`.
pub open spec fn maj_spec(x: u32, y: u32, z: u32) -> u32 {
    (x & (y ^ z)) ^ (y & z)
}

/// Choice function: `(!x & z) ^ (x & y)`.
pub open spec fn ch_spec(x: u32, y: u32, z: u32) -> u32 {
    (!x & z) ^ (x & y)
}

/// Law: two's-complement bitwise NOT arises from negation modulo 2^32
/// followed by subtracting one, so an encryption scheme may realize NOT on
/// a word as algebraic negation composed with a constant adjustment.
pub proof fn lemma_not_via_neg(x: u32)
    by (bit_vector)
    ensures
        sub32(neg32(x), 1) == !x,
{
}

/// Law: the choice function equals the standard per-bit choose: where a bit
/// of `x` is one the bit of `y` is selected, else the bit of `z`.
pub proof fn lemma_ch_matches_choose(x: u32, y: u32, z: u32)
    by (bit_vector)
    ensures
        ch_spec(x, y, z) == ((x & y) | (!x & z)),
{
}

/// Law: the majority function equals the standard majority of the three
/// input bits at every bit position.
pub proof fn lemma_maj_matches_majority(x: u32, y: u32, z: u32)
    by (bit_vector)
    ensures
        maj_spec(x, y, z) == ((x & y) | (x & z) | (y & z)),
{
}

/// Law: rotation by zero is the identity.
pub proof fn lemma_rotr32_zero(x: u32)
    ensures
        rotr32(x, 0) == x,
{
}

/// Law: `rotr32` is a true bit rotation within the 32-bit width: bit `i` of
/// the result is bit `(i + n) % 32` of the input.
pub proof fn lemma_rotr32_bit(x: u32, n: u32, i: u32)
    by (bit_vector)
    requires
        n < 32,
        i < 32,
    ensures
        (rotr32(x, n) >> i) & 1 == (x >> (((i + n) % 32) as u32)) & 1,
{
}

/// The 64 public SHA-256 round constants.
pub open spec fn k_spec(i: int) -> u32 {
    if i == 0 {
        0x428a2f98u32
    } else if i == 1 {
        0x71374491u32
    } else if i == 2 {
        0xb5c0fbcfu32
    } else if i == 3 {
        0xe9b5dba5u32
    } else if i == 4 {
        0x3956c25bu32
    } else if i == 5 {
        0x59f111f1u32
    } else if i == 6 {
        0x923f82a4u32
    } else if i == 7 {
        0xab1c5ed5u32
    } else if i == 8 {
        0xd807aa98u32
    } else if i == 9 {
        0x12835b01u32
    } else if i == 10 {
        0x243185beu32
    } else if i == 11 {
        0x550c7dc3u32
    } else if i == 12 {
        0x72be5d74u32
    } else if i == 13 {
        0x80deb1feu32
    } else if i == 14 {
        0x9bdc06a7u32
    } else if i == 15 {
        0xc19bf174u32
    } else if i == 16 {
        0xe49b69c1u32
    } else if i == 17 {
        0xefbe4786u32
    } else if i == 18 {
        0x0fc19dc6u32
    } else if i == 19 {
        0x240ca1ccu32
    } else if i == 20 {
        0x2de92c6fu32
    } else if i == 21 {
        0x4a7484aau32
    } else if i == 22 {
        0x5cb0a9dcu32
    } else if i == 23 {
        0x76f988dau32
    } else if i == 24 {
        0x983e5152u32
    } else if i == 25 {
        0xa831c66du32
    } else if i == 26 {
        0xb00327c8u32
    } else if i == 27 {
        0xbf597fc7u32
    } else if i == 28 {
        0xc6e00bf3u32
    } else if i == 29 {
        0xd5a79147u32
    } else if i == 30 {
        0x06ca6351u32
    } else if i == 31 {
        0x14292967u32
    } else if i == 32 {
        0x27b70a85u32
    } else if i == 33 {
        0x2e1b2138u32
    } else if i == 34 {
        0x4d2c6dfcu32
    } else if i == 35 {
        0x53380d13u32
    } else if i == 36 {
        0x650a7354u32
    } else if i == 37 {
        0x766a0abbu32
    } else if i == 38 {
        0x81c2c92eu32
    } else if i == 39 {
        0x92722c85u32
    } else if i == 40 {
        0xa2bfe8a1u32
    } else if i == 41 {
        0xa81a664bu32
    } else if i == 42 {
        0xc24b8b70u32
    } else if i == 43 {
        0xc76c51a3u32
    } else if i == 44 {
        0xd192e819u32
    } else if i == 45 {
        0xd6990624u32
    } else if i == 46 {
        0xf40e3585u32
    } else if i == 47 {
        0x106aa070u32
    } else if i == 48 {
        0x19a4c116u32
    } else if i == 49 {
        0x1e376c08u32
    } else if i == 50 {
        0x2748774cu32
    } else if i == 51 {
        0x34b0bcb5u32
    } else if i == 52 {
        0x391c0cb3u32
    } else if i == 53 {
        0x4ed8aa4au32
    } else if i == 54 {
        0x5b9cca4fu32
    } else if i == 55 {
        0x682e6ff3u32
    } else if i == 56 {
        0x748f82eeu32
    } else if i == 57 {
        0x78a5636fu32
    } else if i == 58 {
        0x84c87814u32
    } else if i == 59 {
        0x8cc70208u32
    } else if i == 60 {
        0x90befffau32
    } else if i == 61 {
        0xa4506cebu32
    } else if i == 62 {
        0xbef9a3f7u32
    } else if i == 63 {
        0xc67178f2u32
    } else {
        0u32
    }
}

/// The 8 initial hash-state words.
pub open spec fn iv_spec(j: int) -> u32 {
    if j == 0 {
        0x6a09e667u32
    } else if j == 1 {
        0xbb67ae85u32
    } else if j == 2 {
        0x3c6ef372u32
    } else if j == 3 {
        0xa54ff53au32
    } else if j == 4 {
        0x510e527fu32
    } else if j == 5 {
        0x9b05688cu32
    } else if j == 6 {
        0x1f83d9abu32
    } else if j == 7 {
        0x5be0cd19u32
    } else {
        0u32
    }
}

/// The initial hash state as a sequence of 8 words.
pub open spec fn iv_seq() -> Seq<u32> {
    Seq::new(8, |j: int| iv_spec(j))
}

/// Word `i` of the 64-word message schedule of one 16-word block: the first
/// 16 words are the block itself, the rest follow the fixed recurrence
/// `w[i] = sigma1(w[i-2]) + w[i-7] + sigma0(w[i-15]) + w[i-16]` modulo 2^32.
pub open spec fn w_word(block: Seq<u32>, i: int) -> u32
    recommends
        block.len() == 16,
        0 <= i < 64,
    decreases i,
{
    if i < 16 {
        block[i]
    } else {
        add32(
            add32(
                add32(sigma1_spec(w_word(block, i - 2)), w_word(block, i - 7)),
                sigma0_spec(w_word(block, i - 15)),
            ),
            w_word(block, i - 16),
        )
    }
}

/// The full 64-word schedule of one block.
pub open spec fn schedule_seq(block: Seq<u32>) -> Seq<u32>
    recommends
        block.len() == 16,
{
    Seq::new(64, |i: int| w_word(block, i))
}

/// Block number `bi` of a padded input: its 16 consecutive words.
pub open spec fn block_at(words: Seq<u32>, bi: int) -> Seq<u32>
    recommends
        0 <= bi,
        16 * bi + 16 <= words.len(),
{
    words.subrange(16 * bi, 16 * bi + 16)
}

/// One SHA-256 round on the working variables `a..h` (held as a sequence of
/// 8 words), with schedule word `wi` and round constant `ki`.
pub open spec fn round_step(s: Seq<u32>, wi: u32, ki: u32) -> Seq<u32>
    recommends
        s.len() == 8,
{
    let t1 = add32(
        add32(add32(add32(s[7], ch_spec(s[4], s[5], s[6])), wi), ki),
        sigma_upper_case_1_spec(s[4]),
    );
    let t2 = add32(sigma_upper_case_0_spec(s[0]), maj_spec(s[0], s[1], s[2]));
    seq![add32(t1, t2), s[0], s[1], s[2], add32(s[3], t1), s[4], s[5], s[6]]
}

/// The working variables after the first `n` rounds over the schedule words
/// `ws`, starting from state `s0`.
pub open spec fn rounds_upto(s0: Seq<u32>, ws: Seq<u32>, n: int) -> Seq<u32>
    recommends
        s0.len() == 8,
        ws.len() == 64,
        0 <= n <= 64,
    decreases n,
{
    if n <= 0 {
        s0
    } else {
        round_step(rounds_upto(s0, ws, n - 1), ws[n - 1], k_spec(n - 1))
    }
}

/// Compression of one 16-word block into the running hash state: 64 rounds
/// over the block's schedule, then each final working variable is added back
/// into the state word.
pub open spec fn compress_block_spec(s: Seq<u32>, block: Seq<u32>) -> Seq<u32>
    recommends
        s.len() == 8,
        block.len() == 16,
{
    let e = rounds_upto(s, schedule_seq(block), 64);
    Seq::new(8, |j: int| add32(s[j], e[j]))
}

/// The hash state after the first `n` blocks of `words` (each block is 16
/// consecutive words), threaded strictly in input order.
pub open spec fn compress_prefix(s0: Seq<u32>, words: Seq<u32>, n: int) -> Seq<u32>
    recommends
        s0.len() == 8,
        words.len() % 16 == 0,
        0 <= 16 * n <= words.len(),
    decreases n,
{
    if n <= 0 {
        s0
    } else {
        compress_block_spec(compress_prefix(s0, words, n - 1), block_at(words, n - 1))
    }
}

/// The eight digest words of a padded input: all its blocks compressed in
/// order, starting from the initial hash state.
pub open spec fn digest_spec(words: Seq<u32>) -> Seq<u32>
    recommends
        words.len() % 16 == 0,
{
    compress_prefix(iv_seq(), words, words.len() as int / 16)
}

} // verus!
