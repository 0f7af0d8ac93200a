//! The homomorphic bitwise primitives of SHA-256: rotation and the six
//! mixing functions, each built only from the evaluation capability's
//! operations and proved to compute its plain 32-bit counterpart from
//! `model` on the hidden plaintexts.

use vstd::prelude::*;

use crate::model::{
    ch_spec, maj_spec, rotr32, sigma0_spec, sigma1_spec, sigma_upper_case_0_spec,
    sigma_upper_case_1_spec,
};
use crate::word::{duplicate, EvalKey, HomWord};

verus! {

/// Right rotation of an encrypted word by a public amount `n < 32`,
/// computed as `(x >> n) | (x << (32 - n))`; rotation by zero is a copy.
pub fn rotate_right(x: &HomWord, n: u32, sk: &EvalKey) -> (r: HomWord)
    requires
        n < 32,
        x.key@ == sk.key@,
    ensures
        r@ == rotr32(x@, n),
        r.key@ == sk.key@,
{
    if n == 0 {
        duplicate(x)
    } else {
        let left = sk.shift_right(x, n);
        let right = sk.shift_left(x, 32 - n);
        sk.bitor(&left, &right)
    }
}

/// Message-schedule mixing function sigma-0 on an encrypted word.
pub fn sigma0(x: &HomWord, sk: &EvalKey) -> (r: HomWord)
    requires
        x.key@ == sk.key@,
    ensures
        r@ == sigma0_spec(x@),
        r.key@ == sk.key@,
{
    let a = rotate_right(x, 7, sk);
    let b = rotate_right(x, 18, sk);
    let c = sk.shift_right(x, 3);
    let result = sk.bitxor(&a, &b);
    sk.bitxor(&result, &c)
}

/// Message-schedule mixing function sigma-1 on an encrypted word.
pub fn sigma1(x: &HomWord, sk: &EvalKey) -> (r: HomWord)
    requires
        x.key@ == sk.key@,
    ensures
        r@ == sigma1_spec(x@),
        r.key@ == sk.key@,
{
    let a = rotate_right(x, 17, sk);
    let b = rotate_right(x, 19, sk);
    let c = sk.shift_right(x, 10);
    let result = sk.bitxor(&a, &b);
    sk.bitxor(&result, &c)
}

/// Compression mixing function capital-Sigma-0 on an encrypted word.
pub fn sigma_upper_case_0(x: &HomWord, sk: &EvalKey) -> (r: HomWord)
    requires
        x.key@ == sk.key@,
    ensures
        r@ == sigma_upper_case_0_spec(x@),
        r.key@ == sk.key@,
{
    let a = rotate_right(x, 2, sk);
    let b = rotate_right(x, 13, sk);
    let c = rotate_right(x, 22, sk);
    let result = sk.bitxor(&a, &b);
    sk.bitxor(&result, &c)
}

/// Compression mixing function capital-Sigma-1 on an encrypted word.
pub fn sigma_upper_case_1(x: &HomWord, sk: &EvalKey) -> (r: HomWord)
    requires
        x.key@ == sk.key@,
    ensures
        r@ == sigma_upper_case_1_spec(x@),
        r.key@ == sk.key@,
{
    let a = rotate_right(x, 6, sk);
    let b = rotate_right(x, 11, sk);
    let c = rotate_right(x, 25, sk);
    let result = sk.bitxor(&a, &b);
    sk.bitxor(&result, &c)
}

/// Majority of three encrypted words, `(x & (y ^ z)) ^ (y & z)`.
pub fn maj(x: &HomWord, y: &HomWord, z: &HomWord, sk: &EvalKey) -> (r: HomWord)
    requires
        x.key@ == sk.key@,
        y.key@ == sk.key@,
        z.key@ == sk.key@,
    ensures
        r@ == maj_spec(x@, y@, z@),
        r.key@ == sk.key@,
{
    let mixed = sk.bitxor(y, z);
    let left = sk.bitand(x, &mixed);
    let right = sk.bitand(y, z);
    sk.bitxor(&left, &right)
}

/// Choice of three encrypted words, `(!x & z) ^ (x & y)`; the capability
/// realizes NOT as a per-block negation plus a constant adjustment.
pub fn ch(x: &HomWord, y: &HomWord, z: &HomWord, sk: &EvalKey) -> (r: HomWord)
    requires
        x.key@ == sk.key@,
        y.key@ == sk.key@,
        z.key@ == sk.key@,
    ensures
        r@ == ch_spec(x@, y@, z@),
        r.key@ == sk.key@,
{
    let not_x = sk.not(x);
    let left = sk.bitand(&not_x, z);
    let right = sk.bitand(x, y);
    sk.bitxor(&left, &right)
}

} // verus!
