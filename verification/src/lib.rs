//! SHA-256 evaluated homomorphically over encrypted 32-bit words.
//!
//! A client encrypts the padded message words; the compression engine runs
//! the full SHA-256 pipeline on the ciphertexts through a homomorphic
//! evaluation key, and only the client can decrypt the eight digest words.
//! Every ciphertext-domain operation is specified against the plain 32-bit
//! SHA-256 model in `model`, so the digest words are proved to decrypt to
//! the standard SHA-256 compression of the plaintext input.

pub mod integer_ops;
pub mod model;
pub mod sha256;
pub mod word;
