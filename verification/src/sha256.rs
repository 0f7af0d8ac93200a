//! The homomorphic SHA-256 compression engine: schedule expansion, the
//! 64-round compression loop and the running-state update, entirely in the
//! ciphertext domain, proved against the plain model in `model`.

use vstd::prelude::*;

use crate::integer_ops::{ch, maj, sigma0, sigma1, sigma_upper_case_0, sigma_upper_case_1};
use crate::model::{
    add32, block_at, compress_block_spec, compress_prefix, digest_spec, iv_seq, k_spec,
    round_step, rounds_upto, schedule_seq, sigma0_spec, sigma1_spec, w_word,
};
use crate::word::{all_keyed, duplicate, plains, EvalKey, HomWord};

verus! {

/// The round constant `K[i]`, as a plain public value.
pub fn k_value(i: usize) -> (r: u32)
    requires
        i < 64,
    ensures
        r == k_spec(i as int),
{
    if i == 0 {
        0x428a2f98u32
    } else if i == 1 {
        0x71374491u32
    } else if i == 2 {
        0xb5c0fbcfu32
    } else if i == 3 {
        0xe9b5dba5u32
    } else if i == 4 {
        0x3956c25bu32
    } else if i == 5 {
        0x59f111f1u32
    } else if i == 6 {
        0x923f82a4u32
    } else if i == 7 {
        0xab1c5ed5u32
    } else if i == 8 {
        0xd807aa98u32
    } else if i == 9 {
        0x12835b01u32
    } else if i == 10 {
        0x243185beu32
    } else if i == 11 {
        0x550c7dc3u32
    } else if i == 12 {
        0x72be5d74u32
    } else if i == 13 {
        0x80deb1feu32
    } else if i == 14 {
        0x9bdc06a7u32
    } else if i == 15 {
        0xc19bf174u32
    } else if i == 16 {
        0xe49b69c1u32
    } else if i == 17 {
        0xefbe4786u32
    } else if i == 18 {
        0x0fc19dc6u32
    } else if i == 19 {
        0x240ca1ccu32
    } else if i == 20 {
        0x2de92c6fu32
    } else if i == 21 {
        0x4a7484aau32
    } else if i == 22 {
        0x5cb0a9dcu32
    } else if i == 23 {
        0x76f988dau32
    } else if i == 24 {
        0x983e5152u32
    } else if i == 25 {
        0xa831c66du32
    } else if i == 26 {
        0xb00327c8u32
    } else if i == 27 {
        0xbf597fc7u32
    } else if i == 28 {
        0xc6e00bf3u32
    } else if i == 29 {
        0xd5a79147u32
    } else if i == 30 {
        0x06ca6351u32
    } else if i == 31 {
        0x14292967u32
    } else if i == 32 {
        0x27b70a85u32
    } else if i == 33 {
        0x2e1b2138u32
    } else if i == 34 {
        0x4d2c6dfcu32
    } else if i == 35 {
        0x53380d13u32
    } else if i == 36 {
        0x650a7354u32
    } else if i == 37 {
        0x766a0abbu32
    } else if i == 38 {
        0x81c2c92eu32
    } else if i == 39 {
        0x92722c85u32
    } else if i == 40 {
        0xa2bfe8a1u32
    } else if i == 41 {
        0xa81a664bu32
    } else if i == 42 {
        0xc24b8b70u32
    } else if i == 43 {
        0xc76c51a3u32
    } else if i == 44 {
        0xd192e819u32
    } else if i == 45 {
        0xd6990624u32
    } else if i == 46 {
        0xf40e3585u32
    } else if i == 47 {
        0x106aa070u32
    } else if i == 48 {
        0x19a4c116u32
    } else if i == 49 {
        0x1e376c08u32
    } else if i == 50 {
        0x2748774cu32
    } else if i == 51 {
        0x34b0bcb5u32
    } else if i == 52 {
        0x391c0cb3u32
    } else if i == 53 {
        0x4ed8aa4au32
    } else if i == 54 {
        0x5b9cca4fu32
    } else if i == 55 {
        0x682e6ff3u32
    } else if i == 56 {
        0x748f82eeu32
    } else if i == 57 {
        0x78a5636fu32
    } else if i == 58 {
        0x84c87814u32
    } else if i == 59 {
        0x8cc70208u32
    } else if i == 60 {
        0x90befffau32
    } else if i == 61 {
        0xa4506cebu32
    } else if i == 62 {
        0xbef9a3f7u32
    } else if i == 63 {
        0xc67178f2u32
    } else {
        0u32
    }
}

/// The 64 schedule slots of one block, initialized with trivial encryptions
/// of zero before the block's words are written into them.
pub fn initialize_w(sk: &EvalKey) -> (r: Vec<HomWord>)
    ensures
        r@.len() == 64,
        all_keyed(r@, sk.key@),
        forall|j: int| 0 <= j < 64 ==> r@[j]@ == 0u32,
{
    let mut w: Vec<HomWord> = Vec::new();
    for i in 0..64
        invariant
            w@.len() == i,
            all_keyed(w@, sk.key@),
            forall|j: int| 0 <= j < i ==> w@[j]@ == 0u32,
    {
        w.push(sk.trivial_zero());
    }
    w
}

/// The eight working/state words of one compression, as one value.
pub struct HashState {
    pub v0: HomWord,
    pub v1: HomWord,
    pub v2: HomWord,
    pub v3: HomWord,
    pub v4: HomWord,
    pub v5: HomWord,
    pub v6: HomWord,
    pub v7: HomWord,
}

/// The plaintexts of the eight state words.
pub open spec fn state_plains(s: HashState) -> Seq<u32> {
    seq![s.v0@, s.v1@, s.v2@, s.v3@, s.v4@, s.v5@, s.v6@, s.v7@]
}

/// All eight state words belong to the key pair `k`.
pub open spec fn state_keyed(s: HashState, k: int) -> bool {
    &&& s.v0.key@ == k
    &&& s.v1.key@ == k
    &&& s.v2.key@ == k
    &&& s.v3.key@ == k
    &&& s.v4.key@ == k
    &&& s.v5.key@ == k
    &&& s.v6.key@ == k
    &&& s.v7.key@ == k
}

/// The initial hash state: trivial encryptions of the eight public SHA-256
/// initial constants.
pub fn initial_state(sk: &EvalKey) -> (r: HashState)
    ensures
        state_plains(r) == iv_seq(),
        state_keyed(r, sk.key@),
{
    let r = HashState {
        v0: sk.trivial(0x6a09e667),
        v1: sk.trivial(0xbb67ae85),
        v2: sk.trivial(0x3c6ef372),
        v3: sk.trivial(0xa54ff53a),
        v4: sk.trivial(0x510e527f),
        v5: sk.trivial(0x9b05688c),
        v6: sk.trivial(0x1f83d9ab),
        v7: sk.trivial(0x5be0cd19),
    };
    proof {
        assert(state_plains(r) =~= iv_seq());
    }
    r
}

/// Expand block `blk_idx` of the padded input into its 64 schedule words:
/// slots 0 to 15 are copies of the block's own words, the rest follow the
/// fixed recurrence, all in the ciphertext domain.
#[verifier::loop_isolation(false)]
fn expand_schedule(padded_input: &Vec<HomWord>, blk_idx: usize, sk: &EvalKey) -> (w: Vec<
    HomWord,
>)
    requires
        16 * blk_idx + 16 <= padded_input@.len(),
        all_keyed(padded_input@, sk.key@),
    ensures
        w@.len() == 64,
        all_keyed(w@, sk.key@),
        plains(w@) == schedule_seq(block_at(plains(padded_input@), blk_idx as int)),
{
    let ghost block = block_at(plains(padded_input@), blk_idx as int);
    let total = padded_input.len();
    let base = 16 * blk_idx;
    proof {
        assert(base + 16 <= total);
    }
    let mut w = initialize_w(sk);
    for i in 0..16
        invariant
            w@.len() == 64,
            all_keyed(w@, sk.key@),
            forall|j: int| 0 <= j < i ==> w@[j]@ == w_word(block, j),
    {
        let t = duplicate(&padded_input[base + i]);
        w.set(i, t);
        proof {
            assert(w@[i as int]@ == w_word(block, i as int));
        }
    }
    for i in 16..64
        invariant
            w@.len() == 64,
            all_keyed(w@, sk.key@),
            forall|j: int| 0 <= j < i ==> w@[j]@ == w_word(block, j),
    {
        let s1 = sigma1(&w[i - 2], sk);
        let t0 = sk.add(&s1, &w[i - 7]);
        let s0 = sigma0(&w[i - 15], sk);
        let t1 = sk.add(&t0, &s0);
        let t2 = sk.add(&t1, &w[i - 16]);
        w.set(i, t2);
        proof {
            let ghost ii = i as int;
            assert(s1@ == sigma1_spec(w_word(block, ii - 2)));
            assert(t2@ == add32(
                add32(
                    add32(sigma1_spec(w_word(block, ii - 2)), w_word(block, ii - 7)),
                    sigma0_spec(w_word(block, ii - 15)),
                ),
                w_word(block, ii - 16),
            ));
            assert(w_word(block, ii) == add32(
                add32(
                    add32(sigma1_spec(w_word(block, ii - 2)), w_word(block, ii - 7)),
                    sigma0_spec(w_word(block, ii - 15)),
                ),
                w_word(block, ii - 16),
            ));
            assert(w@[i as int]@ == w_word(block, i as int));
        }
    }
    proof {
        assert(plains(w@) =~= schedule_seq(block));
    }
    w
}

/// Run the 64 compression rounds over an expanded schedule, starting from
/// the given state.
#[verifier::loop_isolation(false)]
fn run_rounds(w: &Vec<HomWord>, state: &HashState, sk: &EvalKey) -> (r: HashState)
    requires
        w@.len() == 64,
        all_keyed(w@, sk.key@),
        state_keyed(*state, sk.key@),
    ensures
        state_plains(r) == rounds_upto(state_plains(*state), plains(w@), 64),
        state_keyed(r, sk.key@),
{
    let ghost s_start = state_plains(*state);
    let ghost ws = plains(w@);
    let mut a = duplicate(&state.v0);
    let mut b = duplicate(&state.v1);
    let mut c = duplicate(&state.v2);
    let mut d = duplicate(&state.v3);
    let mut e = duplicate(&state.v4);
    let mut f = duplicate(&state.v5);
    let mut g = duplicate(&state.v6);
    let mut h = duplicate(&state.v7);
    for i in 0..64
        invariant
            seq![a@, b@, c@, d@, e@, f@, g@, h@] == rounds_upto(s_start, ws, i as int),
            a.key@ == sk.key@,
            b.key@ == sk.key@,
            c.key@ == sk.key@,
            d.key@ == sk.key@,
            e.key@ == sk.key@,
            f.key@ == sk.key@,
            g.key@ == sk.key@,
            h.key@ == sk.key@,
    {
        let ghost s_before = seq![a@, b@, c@, d@, e@, f@, g@, h@];
        let kv = sk.trivial(k_value(i));
        let choice = ch(&e, &f, &g, sk);
        let t1a = sk.add(&h, &choice);
        let t1b = sk.add(&t1a, &w[i]);
        let t1c = sk.add(&t1b, &kv);
        let big1 = sigma_upper_case_1(&e, sk);
        let temp1 = sk.add(&t1c, &big1);
        let big0 = sigma_upper_case_0(&a, sk);
        let majority = maj(&a, &b, &c, sk);
        let temp2 = sk.add(&big0, &majority);
        h = g;
        g = f;
        f = e;
        e = sk.add(&d, &temp1);
        d = c;
        c = b;
        b = a;
        a = sk.add(&temp1, &temp2);
        proof {
            assert(seq![a@, b@, c@, d@, e@, f@, g@, h@] =~= round_step(
                s_before,
                ws[i as int],
                k_spec(i as int),
            ));
        }
    }
    let r = HashState { v0: a, v1: b, v2: c, v3: d, v4: e, v5: f, v6: g, v7: h };
    proof {
        assert(state_plains(r) =~= rounds_upto(s_start, ws, 64));
    }
    r
}

/// Compress block `blk_idx` of the padded input into the running hash
/// state: expand its schedule, run the 64 rounds, and add each final working
/// variable back into the corresponding state word.
fn compress_one_block(
    padded_input: &Vec<HomWord>,
    blk_idx: usize,
    state: HashState,
    sk: &EvalKey,
) -> (r: HashState)
    requires
        16 * blk_idx + 16 <= padded_input@.len(),
        all_keyed(padded_input@, sk.key@),
        state_keyed(state, sk.key@),
    ensures
        state_plains(r) == compress_block_spec(
            state_plains(state),
            block_at(plains(padded_input@), blk_idx as int),
        ),
        state_keyed(r, sk.key@),
{
    let w = expand_schedule(padded_input, blk_idx, sk);
    let rounds_out = run_rounds(&w, &state, sk);
    let r = HashState {
        v0: sk.add(&state.v0, &rounds_out.v0),
        v1: sk.add(&state.v1, &rounds_out.v1),
        v2: sk.add(&state.v2, &rounds_out.v2),
        v3: sk.add(&state.v3, &rounds_out.v3),
        v4: sk.add(&state.v4, &rounds_out.v4),
        v5: sk.add(&state.v5, &rounds_out.v5),
        v6: sk.add(&state.v6, &rounds_out.v6),
        v7: sk.add(&state.v7, &rounds_out.v7),
    };
    proof {
        assert(state_plains(r) =~= compress_block_spec(
            state_plains(state),
            block_at(plains(padded_input@), blk_idx as int),
        ));
    }
    r
}

/// Compress a padded input — a positive whole number of 16-word blocks —
/// into the eight digest words, without ever leaving the ciphertext domain:
/// the result decrypts to the SHA-256 compression of the input plaintexts,
/// with the hash state threaded through the blocks strictly in input order.
#[verifier::loop_isolation(false)]
pub fn sha256_fhe(padded_input: Vec<HomWord>, sk: &EvalKey) -> (r: Vec<HomWord>)
    requires
        padded_input@.len() % 16 == 0,
        padded_input@.len() > 0,
        all_keyed(padded_input@, sk.key@),
    ensures
        r@.len() == 8,
        plains(r@) == digest_spec(plains(padded_input@)),
        all_keyed(r@, sk.key@),
{
    let ghost words = plains(padded_input@);
    let num_blocks = padded_input.len() / 16;
    proof {
        assert(16 * (padded_input@.len() as int / 16) == padded_input@.len() as int);
    }
    let mut state = initial_state(sk);
    for blk_idx in 0..num_blocks
        invariant
            state_plains(state) == compress_prefix(iv_seq(), words, blk_idx as int),
            state_keyed(state, sk.key@),
    {
        state = compress_one_block(&padded_input, blk_idx, state, sk);
    }
    let HashState { v0, v1, v2, v3, v4, v5, v6, v7 } = state;
    let mut output: Vec<HomWord> = Vec::new();
    output.push(v0);
    output.push(v1);
    output.push(v2);
    output.push(v3);
    output.push(v4);
    output.push(v5);
    output.push(v6);
    output.push(v7);
    proof {
        assert(plains(output@) =~= digest_spec(words));
    }
    output
}

/// Like `sha256_fhe`, with the block-format invariant tested at entry: a
/// word count that is not a positive multiple of 16 is rejected as `None`
/// before any homomorphic work is done.
pub fn sha256_fhe_checked(padded_input: Vec<HomWord>, sk: &EvalKey) -> (r: Option<Vec<HomWord>>)
    requires
        all_keyed(padded_input@, sk.key@),
    ensures
        r is Some <==> (padded_input@.len() % 16 == 0 && padded_input@.len() > 0),
        r matches Some(digest) ==> {
            &&& digest@.len() == 8
            &&& plains(digest@) == digest_spec(plains(padded_input@))
            &&& all_keyed(digest@, sk.key@)
        },
{
    if padded_input.len() % 16 == 0 && padded_input.len() > 0 {
        Some(sha256_fhe(padded_input, sk))
    } else {
        None
    }
}

} // verus!
