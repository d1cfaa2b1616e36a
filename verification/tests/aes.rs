use tinyaes::AESKey;
use tinyaes::AES;

#[test]
fn fips_197_appendix_b_aes128() {
    //! The worked AES-128 example of FIPS-197 appendix B must reproduce the
    //! published ciphertext byte for byte.

    let key: [u8; 16] = [
        0x2b, 0x7e, 0x15, 0x16, 0x28, 0xae, 0xd2, 0xa6, 0xab, 0xf7, 0x15, 0x88, 0x09, 0xcf, 0x4f,
        0x3c,
    ];
    let plaintext: [u8; 16] = [
        0x32, 0x43, 0xf6, 0xa8, 0x88, 0x5a, 0x30, 0x8d, 0x31, 0x31, 0x98, 0xa2, 0xe0, 0x37, 0x07,
        0x34,
    ];
    let expected: [u8; 16] = [
        0x39, 0x25, 0x84, 0x1d, 0x02, 0xdc, 0x09, 0xfb, 0xdc, 0x11, 0x85, 0x97, 0x19, 0x6a, 0x0b,
        0x32,
    ];

    let aes = AES::new(AESKey::AES128(key));
    assert_eq!(aes.encrypt(&plaintext), expected);
    assert_eq!(aes.decrypt(&expected), plaintext);
}

#[test]
fn fips_197_appendix_c_aes128() {
    //! The AES-128 known-answer example of FIPS-197 appendix C.1.

    let key: [u8; 16] = [
        0x00, 0x01, 0x02, 0x03, 0x04, 0x05, 0x06, 0x07, 0x08, 0x09, 0x0a, 0x0b, 0x0c, 0x0d, 0x0e,
        0x0f,
    ];
    let plaintext: [u8; 16] = [
        0x00, 0x11, 0x22, 0x33, 0x44, 0x55, 0x66, 0x77, 0x88, 0x99, 0xaa, 0xbb, 0xcc, 0xdd, 0xee,
        0xff,
    ];
    let expected: [u8; 16] = [
        0x69, 0xc4, 0xe0, 0xd8, 0x6a, 0x7b, 0x04, 0x30, 0xd8, 0xcd, 0xb7, 0x80, 0x70, 0xb4, 0xc5,
        0x5a,
    ];

    let aes = AES::new(AESKey::AES128(key));
    assert_eq!(aes.encrypt(&plaintext), expected);
    assert_eq!(aes.decrypt(&expected), plaintext);
}

#[test]
fn fips_197_appendix_c_aes192() {
    //! The AES-192 known-answer example of FIPS-197 appendix C.2.

    let key: [u8; 24] = [
        0x00, 0x01, 0x02, 0x03, 0x04, 0x05, 0x06, 0x07, 0x08, 0x09, 0x0a, 0x0b, 0x0c, 0x0d, 0x0e,
        0x0f, 0x10, 0x11, 0x12, 0x13, 0x14, 0x15, 0x16, 0x17,
    ];
    let plaintext: [u8; 16] = [
        0x00, 0x11, 0x22, 0x33, 0x44, 0x55, 0x66, 0x77, 0x88, 0x99, 0xaa, 0xbb, 0xcc, 0xdd, 0xee,
        0xff,
    ];
    let expected: [u8; 16] = [
        0xdd, 0xa9, 0x7c, 0xa4, 0x86, 0x4c, 0xdf, 0xe0, 0x6e, 0xaf, 0x70, 0xa0, 0xec, 0x0d, 0x71,
        0x91,
    ];

    let aes = AES::new(AESKey::AES192(key));
    assert_eq!(aes.encrypt(&plaintext), expected);
    assert_eq!(aes.decrypt(&expected), plaintext);
}

#[test]
fn fips_197_appendix_c_aes256() {
    //! The AES-256 known-answer example of FIPS-197 appendix C.3.

    let key: [u8; 32] = [
        0x00, 0x01, 0x02, 0x03, 0x04, 0x05, 0x06, 0x07, 0x08, 0x09, 0x0a, 0x0b, 0x0c, 0x0d, 0x0e,
        0x0f, 0x10, 0x11, 0x12, 0x13, 0x14, 0x15, 0x16, 0x17, 0x18, 0x19, 0x1a, 0x1b, 0x1c, 0x1d,
        0x1e, 0x1f,
    ];
    let plaintext: [u8; 16] = [
        0x00, 0x11, 0x22, 0x33, 0x44, 0x55, 0x66, 0x77, 0x88, 0x99, 0xaa, 0xbb, 0xcc, 0xdd, 0xee,
        0xff,
    ];
    let expected: [u8; 16] = [
        0x8e, 0xa2, 0xb7, 0xca, 0x51, 0x67, 0x45, 0xbf, 0xea, 0xfc, 0x49, 0x90, 0x4b, 0x49, 0x60,
        0x89,
    ];

    let aes = AES::new(AESKey::AES256(key));
    assert_eq!(aes.encrypt(&plaintext), expected);
    assert_eq!(aes.decrypt(&expected), plaintext);
}

#[test]
fn aes256_text_block() {
    //! An AES-256 block with a printable key and plaintext, with its known
    //! ciphertext, encrypted and decrypted again.

    let key: [u8; 32] = "This is a 256-bit key as bytes!!".as_bytes().try_into().unwrap();
    let plaintext: [u8; 16] = "This is a block!".as_bytes().try_into().unwrap();
    let expected: [u8; 16] = [
        0x08, 0x39, 0x58, 0x3b, 0xc4, 0x15, 0xef, 0xf6, 0x7e, 0x46, 0x65, 0x04, 0x03, 0x7e, 0x7a,
        0x88,
    ];

    let aes = AES::new(AESKey::AES256(key));
    let ciphertext = aes.encrypt(&plaintext);
    assert_eq!(ciphertext, expected);
    assert_eq!(aes.decrypt(&ciphertext), plaintext);
}

#[test]
fn encrypt_decrypt_round_trip() {
    //! Decrypting the encryption of a block gives back the block, for every
    //! key size and a spread of block values.

    let blocks: [[u8; 16]; 3] = [
        [0; 16],
        [0xff; 16],
        [
            0x01, 0x02, 0x03, 0x04, 0x05, 0x06, 0x07, 0x08, 0x09, 0x0a, 0x0b, 0x0c, 0x0d, 0x0e,
            0x0f, 0x10,
        ],
    ];

    let aes128 = AES::new(AESKey::AES128([0x5a; 16]));
    let aes192 = AES::new(AESKey::AES192([0xc3; 24]));
    let aes256 = AES::new(AESKey::AES256([0x96; 32]));

    for block in blocks.iter() {
        assert_eq!(aes128.decrypt(&aes128.encrypt(block)), *block);
        assert_eq!(aes192.decrypt(&aes192.encrypt(block)), *block);
        assert_eq!(aes256.decrypt(&aes256.encrypt(block)), *block);
    }
}

#[test]
fn key_schedule_lengths() {
    //! AES-128 expands to exactly 44 words, AES-192 to 52, AES-256 to 60.

    assert_eq!(AES::key_expansion(&AESKey::AES128([0; 16])).len(), 44);
    assert_eq!(AES::key_expansion(&AESKey::AES192([0; 24])).len(), 52);
    assert_eq!(AES::key_expansion(&AESKey::AES256([0; 32])).len(), 60);
}

#[test]
fn key_schedule_deterministic() {
    //! Expanding the same key twice yields identical schedules, and the
    //! first `Nk` words are the raw key bytes themselves.

    let key: [u8; 24] = [
        0x8e, 0x73, 0xb0, 0xf7, 0xda, 0x0e, 0x64, 0x52, 0xc8, 0x10, 0xf3, 0x2b, 0x80, 0x90, 0x79,
        0xe5, 0x62, 0xf8, 0xea, 0xd2, 0x52, 0x2c, 0x6b, 0x7b,
    ];
    let first = AES::key_expansion(&AESKey::AES192(key));
    let second = AES::key_expansion(&AESKey::AES192(key));
    assert_eq!(first, second);

    for w in 0..6 {
        assert_eq!(
            first[w],
            [key[4 * w], key[4 * w + 1], key[4 * w + 2], key[4 * w + 3]]
        );
    }
}

#[test]
fn key_schedule_last_word() {
    //! The AES-128 key expansion example of FIPS-197 appendix A.1: the last
    //! schedule word of this key is b6630ca6.

    let key: [u8; 16] = [
        0x2b, 0x7e, 0x15, 0x16, 0x28, 0xae, 0xd2, 0xa6, 0xab, 0xf7, 0x15, 0x88, 0x09, 0xcf, 0x4f,
        0x3c,
    ];
    let schedule = AES::key_expansion(&AESKey::AES128(key));
    assert_eq!(schedule[43], [0xb6, 0x63, 0x0c, 0xa6]);
}
