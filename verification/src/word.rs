//! The homomorphic word: an encrypted 32-bit value, carried together with
//! the plaintext it decrypts to (ghost) and the identity of the key pair it
//! belongs to (ghost).
//!
//! Everything that crosses into the encryption scheme goes through the
//! trusted wrappers in this module; each states, over the ghost plaintexts,
//! what the underlying tfhe operation computes. All other modules are
//! verified against these contracts alone.

use vstd::prelude::*;

use crate::model::add32;

verus! {

#[verifier::external_type_specification]
#[verifier::external_body]
#[verifier::reject_recursive_types(Block)]
pub struct ExBaseRadixCiphertext<Block>(tfhe::integer::ciphertext::BaseRadixCiphertext<Block>);

#[verifier::external_type_specification]
#[verifier::external_body]
pub struct ExShortintCiphertext(tfhe::shortint::Ciphertext);

#[verifier::external_type_specification]
#[verifier::external_body]
pub struct ExServerKey(tfhe::integer::ServerKey);

#[verifier::external_type_specification]
#[verifier::external_body]
pub struct ExRadixClientKey(tfhe::integer::RadixClientKey);

/// Each 32-bit word is held as 16 radix blocks of 2 message bits.
pub const NUM_BLOCKS: usize = 16;

/// An encrypted 32-bit word. `plain` is the value it decrypts to under the
/// secret of the key pair identified by `key`; neither is observable by the
/// evaluating party.
pub struct HomWord {
    pub ct: tfhe::integer::RadixCiphertext,
    pub plain: Ghost<u32>,
    pub key: Ghost<int>,
}

impl View for HomWord {
    type V = u32;

    open spec fn view(&self) -> u32 {
        self.plain@
    }
}

/// The client's secret key: it encrypts and decrypts words of its key pair.
pub struct ClientKey {
    pub ck: tfhe::integer::RadixClientKey,
    pub key: Ghost<int>,
}

/// The evaluation capability (a server key): it transforms encrypted words
/// of its key pair without decrypting them.
pub struct EvalKey {
    pub sk: tfhe::integer::ServerKey,
    pub key: Ghost<int>,
}

/// The plaintexts of a sequence of encrypted words.
pub open spec fn plains(s: Seq<HomWord>) -> Seq<u32> {
    Seq::new(s.len(), |i: int| s[i]@)
}

/// All words of the sequence belong to the key pair `k`.
pub open spec fn all_keyed(s: Seq<HomWord>, k: int) -> bool {
    forall|i: int| 0 <= i < s.len() ==> #[trigger] s[i].key@ == k
}

/// Relies on tfhe's `gen_keys_radix`: the client and server key of one
/// generated pair belong together.
#[verifier::external_body]
fn new_key_pair() -> (r: (ClientKey, EvalKey))
    ensures
        r.0.key@ == r.1.key@,
{
    let (ck, sk) = tfhe::integer::gen_keys_radix(
        tfhe::shortint::parameters::PARAM_MESSAGE_2_CARRY_2_KS_PBS,
        NUM_BLOCKS,
    );
    let key: Ghost<int> = Ghost(0int);
    (ClientKey { ck, key }, EvalKey { sk, key })
}

/// Relies on tfhe's `RadixClientKey::new`: a fresh client key.
#[verifier::external_body]
fn new_client_key() -> (r: ClientKey)
{
    let ck = tfhe::integer::RadixClientKey::new(
        tfhe::shortint::parameters::PARAM_MESSAGE_2_CARRY_2_KS_PBS,
        NUM_BLOCKS,
    );
    ClientKey { ck, key: Ghost(0int) }
}

/// Relies on tfhe's `RadixClientKey::encrypt`: the ciphertext decrypts to
/// the encrypted value under the same key.
#[verifier::external_body]
pub(crate) fn encrypt_word(ck: &ClientKey, value: u32) -> (r: HomWord)
    ensures
        r@ == value,
        r.key@ == ck.key@,
{
    HomWord {
        ct: ck.ck.encrypt(value as u64),
        plain: Ghost(value),
        key: Ghost(ck.key@),
    }
}

/// Relies on tfhe's `RadixClientKey::decrypt`: it recovers the plaintext of
/// a word of the same key pair.
#[verifier::external_body]
pub(crate) fn decrypt_word(ck: &ClientKey, w: &HomWord) -> (r: u32)
    requires
        w.key@ == ck.key@,
    ensures
        r == w@,
{
    let v: u64 = ck.ck.decrypt(&w.ct);
    v as u32
}

/// Relies on `Clone` for tfhe's radix ciphertext: an exact copy of the word.
#[verifier::external_body]
pub(crate) fn duplicate(w: &HomWord) -> (r: HomWord)
    ensures
        r@ == w@,
        r.key@ == w.key@,
{
    HomWord { ct: w.ct.clone(), plain: w.plain, key: w.key }
}

impl EvalKey {
    /// Relies on tfhe's `ServerKey::create_trivial_radix`: the trivial
    /// encoding of a public constant decrypts to that constant.
    #[verifier::external_body]
    pub(crate) fn trivial(&self, value: u32) -> (r: HomWord)
        ensures
            r@ == value,
            r.key@ == self.key@,
    {
        HomWord {
            ct: self.sk.create_trivial_radix(value as u64, NUM_BLOCKS),
            plain: Ghost(value),
            key: Ghost(self.key@),
        }
    }

    /// Relies on tfhe's `ServerKey::create_trivial_zero_radix`: the trivial
    /// encoding of zero.
    #[verifier::external_body]
    pub(crate) fn trivial_zero(&self) -> (r: HomWord)
        ensures
            r@ == 0u32,
            r.key@ == self.key@,
    {
        HomWord {
            ct: self.sk.create_trivial_zero_radix(NUM_BLOCKS),
            plain: Ghost(0u32),
            key: Ghost(self.key@),
        }
    }

    /// Relies on tfhe's `ServerKey::smart_add_parallelized`: homomorphic
    /// addition, modulo 2^32 in the 16-block width.
    #[verifier::external_body]
    pub(crate) fn add(&self, x: &HomWord, y: &HomWord) -> (r: HomWord)
        requires
            x.key@ == self.key@,
            y.key@ == self.key@,
        ensures
            r@ == add32(x@, y@),
            r.key@ == self.key@,
    {
        let mut a = x.ct.clone();
        let mut b = y.ct.clone();
        HomWord {
            ct: self.sk.smart_add_parallelized(&mut a, &mut b),
            plain: Ghost(add32(x@, y@)),
            key: Ghost(self.key@),
        }
    }

    /// Relies on tfhe's `ServerKey::bitnot`: homomorphic bitwise NOT,
    /// realized per block as negation plus a constant adjustment.
    #[verifier::external_body]
    pub(crate) fn not(&self, x: &HomWord) -> (r: HomWord)
        requires
            x.key@ == self.key@,
        ensures
            r@ == !x@,
            r.key@ == self.key@,
    {
        HomWord {
            ct: self.sk.bitnot(&x.ct),
            plain: Ghost(!x@),
            key: Ghost(self.key@),
        }
    }

    /// Relies on tfhe's `ServerKey::smart_bitand_parallelized`: homomorphic
    /// bitwise AND.
    #[verifier::external_body]
    pub(crate) fn bitand(&self, x: &HomWord, y: &HomWord) -> (r: HomWord)
        requires
            x.key@ == self.key@,
            y.key@ == self.key@,
        ensures
            r@ == (x@ & y@),
            r.key@ == self.key@,
    {
        let mut a = x.ct.clone();
        let mut b = y.ct.clone();
        HomWord {
            ct: self.sk.smart_bitand_parallelized(&mut a, &mut b),
            plain: Ghost(x@ & y@),
            key: Ghost(self.key@),
        }
    }

    /// Relies on tfhe's `ServerKey::smart_bitor_parallelized`: homomorphic
    /// bitwise OR.
    #[verifier::external_body]
    pub(crate) fn bitor(&self, x: &HomWord, y: &HomWord) -> (r: HomWord)
        requires
            x.key@ == self.key@,
            y.key@ == self.key@,
        ensures
            r@ == (x@ | y@),
            r.key@ == self.key@,
    {
        let mut a = x.ct.clone();
        let mut b = y.ct.clone();
        HomWord {
            ct: self.sk.smart_bitor_parallelized(&mut a, &mut b),
            plain: Ghost(x@ | y@),
            key: Ghost(self.key@),
        }
    }

    /// Relies on tfhe's `ServerKey::smart_bitxor_parallelized`: homomorphic
    /// bitwise XOR.
    #[verifier::external_body]
    pub(crate) fn bitxor(&self, x: &HomWord, y: &HomWord) -> (r: HomWord)
        requires
            x.key@ == self.key@,
            y.key@ == self.key@,
        ensures
            r@ == (x@ ^ y@),
            r.key@ == self.key@,
    {
        let mut a = x.ct.clone();
        let mut b = y.ct.clone();
        HomWord {
            ct: self.sk.smart_bitxor_parallelized(&mut a, &mut b),
            plain: Ghost(x@ ^ y@),
            key: Ghost(self.key@),
        }
    }

    /// Relies on tfhe's `ServerKey::scalar_right_shift_parallelized`:
    /// homomorphic logical right shift by a public amount.
    #[verifier::external_body]
    pub(crate) fn shift_right(&self, x: &HomWord, n: u32) -> (r: HomWord)
        requires
            x.key@ == self.key@,
            n < 32,
        ensures
            r@ == (x@ >> n),
            r.key@ == self.key@,
    {
        HomWord {
            ct: self.sk.scalar_right_shift_parallelized(&x.ct, n as u64),
            plain: Ghost(x@ >> n),
            key: Ghost(self.key@),
        }
    }

    /// Relies on tfhe's `ServerKey::scalar_left_shift_parallelized`:
    /// homomorphic left shift by a public amount, truncated to the 32-bit
    /// width of the word.
    #[verifier::external_body]
    pub(crate) fn shift_left(&self, x: &HomWord, n: u32) -> (r: HomWord)
        requires
            x.key@ == self.key@,
            n < 32,
        ensures
            r@ == (x@ << n),
            r.key@ == self.key@,
    {
        HomWord {
            ct: self.sk.scalar_left_shift_parallelized(&x.ct, n as u64),
            plain: Ghost(x@ << n),
            key: Ghost(self.key@),
        }
    }
}

/// Generate a fresh key pair: the client key encrypts and decrypts, the
/// evaluation key computes on the ciphertexts.
pub fn gen_keys() -> (r: (ClientKey, EvalKey))
    ensures
        r.0.key@ == r.1.key@,
{
    new_key_pair()
}

/// Generate a client key alone, for encryption and decryption only.
pub fn gen_client_key() -> (r: ClientKey) {
    new_client_key()
}

/// Encrypt a sequence of 32-bit words under the client key.
pub fn encrypt_u32s(u32s: &Vec<u32>, ck: &ClientKey) -> (r: Vec<HomWord>)
    ensures
        plains(r@) == u32s@,
        all_keyed(r@, ck.key@),
{
    let mut out: Vec<HomWord> = Vec::new();
    for i in 0..u32s.len()
        invariant
            out@.len() == i,
            forall|j: int| 0 <= j < i ==> out@[j]@ == u32s@[j],
            all_keyed(out@, ck.key@),
    {
        out.push(encrypt_word(ck, u32s[i]));
    }
    proof {
        assert(plains(out@) =~= u32s@);
    }
    out
}

/// Encode a sequence of public 32-bit constants as trivial ciphertexts of
/// the evaluation key's pair, at no secret-key cost.
pub fn trivial_u32s(u32s: &Vec<u32>, sk: &EvalKey) -> (r: Vec<HomWord>)
    ensures
        plains(r@) == u32s@,
        all_keyed(r@, sk.key@),
{
    let mut out: Vec<HomWord> = Vec::new();
    for i in 0..u32s.len()
        invariant
            out@.len() == i,
            forall|j: int| 0 <= j < i ==> out@[j]@ == u32s@[j],
            all_keyed(out@, sk.key@),
    {
        out.push(sk.trivial(u32s[i]));
    }
    proof {
        assert(plains(out@) =~= u32s@);
    }
    out
}

/// Decrypt a sequence of encrypted words under the client key of their pair.
pub fn decrypt_u32s(ciphertext: &Vec<HomWord>, ck: &ClientKey) -> (r: Vec<u32>)
    requires
        all_keyed(ciphertext@, ck.key@),
    ensures
        r@ == plains(ciphertext@),
{
    let mut out: Vec<u32> = Vec::new();
    for i in 0..ciphertext.len()
        invariant
            out@.len() == i,
            forall|j: int| 0 <= j < i ==> out@[j] == ciphertext@[j]@,
            all_keyed(ciphertext@, ck.key@),
    {
        out.push(decrypt_word(ck, &ciphertext[i]));
    }
    proof {
        assert(out@ =~= plains(ciphertext@));
    }
    out
}

} // verus!
