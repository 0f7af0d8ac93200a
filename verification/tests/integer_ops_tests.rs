use fhe_sha256::integer_ops::{
    ch, maj, rotate_right, sigma0, sigma1, sigma_upper_case_0, sigma_upper_case_1,
};
use fhe_sha256::word::{decrypt_u32s, gen_keys, trivial_u32s};

#[test]
fn test_other_sigmas() {
    let (ck, sk) = gen_keys();

    let input = trivial_u32s(&vec![1864398703u32], &sk);
    let outputs = vec![
        sigma1(&input[0], &sk),
        sigma_upper_case_0(&input[0], &sk),
        sigma_upper_case_1(&input[0], &sk),
    ];
    let results = decrypt_u32s(&outputs, &ck);

    assert_eq!(results, vec![893489769u32, 3782138212u32, 3228226148u32]);
}

#[test]
fn test_sigma0() {
    let (ck, sk) = gen_keys();

    let input = trivial_u32s(&vec![1864398703u32], &sk);
    let output = sigma0(&input[0], &sk);
    let result = decrypt_u32s(&vec![output], &ck);
    let expected = 3470890443u32;

    assert_eq!(result[0], expected);
}

#[test]
fn test_ch() {
    let (ck, sk) = gen_keys();

    let words = trivial_u32s(&vec![1359893119u32, 2600822924u32, 528734635u32], &sk);
    let output = ch(&words[0], &words[1], &words[2], &sk);
    let result = decrypt_u32s(&vec![output], &ck);
    let expected = 528861580u32;

    assert_eq!(result[0], expected);
}

#[test]
fn test_maj() {
    let (ck, sk) = gen_keys();

    let words = trivial_u32s(&vec![1779033703u32, 3144134277u32, 1013904242u32], &sk);
    let output = maj(&words[0], &words[1], &words[2], &sk);
    let result = decrypt_u32s(&vec![output], &ck);
    let expected = 980412007u32;

    assert_eq!(result[0], expected);
}

#[test]
fn test_rotate_right() {
    let (ck, sk) = gen_keys();

    let x = 0x12345678u32;
    let words = trivial_u32s(&vec![x], &sk);

    let rotated = rotate_right(&words[0], 7, &sk);
    let unmoved = rotate_right(&words[0], 0, &sk);
    let result = decrypt_u32s(&vec![rotated, unmoved], &ck);

    assert_eq!(result[0], x.rotate_right(7));
    assert_eq!(result[1], x);
}
