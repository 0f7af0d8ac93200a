use fhe_sha256::sha256::{initial_state, k_value, sha256_fhe, sha256_fhe_checked};
use fhe_sha256::word::{decrypt_u32s, encrypt_u32s, gen_client_key, gen_keys, trivial_u32s};

#[test]
fn test_digest_single_block() {
    let (ck, sk) = gen_keys();

    // "supernova", padded to one 512-bit block of big-endian words.
    let padded = vec![
        0x73757065u32,
        0x726e6f76u32,
        0x61800000u32,
        0u32,
        0u32,
        0u32,
        0u32,
        0u32,
        0u32,
        0u32,
        0u32,
        0u32,
        0u32,
        0u32,
        0u32,
        0x00000048u32,
    ];
    let words = trivial_u32s(&padded, &sk);
    let digest = sha256_fhe(words, &sk);
    let out = decrypt_u32s(&digest, &ck);

    assert_eq!(
        out,
        vec![
            0xe498423du32,
            0x689178b7u32,
            0xee79bf9eu32,
            0x9f61308bu32,
            0x9bc47ce7u32,
            0x8a16f8fcu32,
            0x517e5793u32,
            0xae74d116u32,
        ]
    );
}

#[test]
fn test_digest_multi_block() {
    let (ck, sk) = gen_keys();

    // 64 bytes of 'a': the padding spans a second 512-bit block, so the
    // hash state must thread from the first block into the second.
    let mut padded = vec![0x61616161u32; 16];
    padded.push(0x80000000u32);
    while padded.len() < 31 {
        padded.push(0u32);
    }
    padded.push(0x00000200u32);
    assert_eq!(padded.len(), 32);

    let words = trivial_u32s(&padded, &sk);
    let digest = sha256_fhe(words, &sk);
    let out = decrypt_u32s(&digest, &ck);

    assert_eq!(
        out,
        vec![
            0xffe054feu32,
            0x7ae0cb6du32,
            0xc65c3af9u32,
            0xb61d5209u32,
            0xf439851du32,
            0xb43d0ba5u32,
            0x997337dfu32,
            0x154668ebu32,
        ]
    );
}

#[test]
fn test_encrypt_roundtrip() {
    let ck = gen_client_key();

    let values = vec![0u32, 1u32, 0xffffffffu32, 0x6a09e667u32, 1864398703u32];
    let words = encrypt_u32s(&values, &ck);
    let recovered = decrypt_u32s(&words, &ck);

    assert_eq!(recovered, values);
}

#[test]
fn test_compress_rejects_bad_word_count() {
    let (ck, sk) = gen_keys();

    // 15 words: not a multiple of 16, rejected before any round is run.
    let fifteen = encrypt_u32s(&vec![7u32; 15], &ck);
    assert!(sha256_fhe_checked(fifteen, &sk).is_none());

    // An empty input is rejected too: a positive number of blocks is owed.
    let empty = encrypt_u32s(&vec![], &ck);
    assert!(sha256_fhe_checked(empty, &sk).is_none());
}

#[test]
fn test_initial_state_constants() {
    let (ck, sk) = gen_keys();

    let state = initial_state(&sk);
    let words = vec![
        state.v0, state.v1, state.v2, state.v3, state.v4, state.v5, state.v6, state.v7,
    ];
    let recovered = decrypt_u32s(&words, &ck);

    assert_eq!(
        recovered,
        vec![
            0x6a09e667u32,
            0xbb67ae85u32,
            0x3c6ef372u32,
            0xa54ff53au32,
            0x510e527fu32,
            0x9b05688cu32,
            0x1f83d9abu32,
            0x5be0cd19u32,
        ]
    );
}

#[test]
fn test_k_value_constants() {
    assert_eq!(k_value(0), 0x428a2f98u32);
    assert_eq!(k_value(1), 0x71374491u32);
    assert_eq!(k_value(32), 0x27b70a85u32);
    assert_eq!(k_value(63), 0xc67178f2u32);
}
