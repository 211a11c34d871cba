use secure_share::cipher::{decrypt, encrypt, iv_from_bytes, PaddingError};

fn hex(text: &str) -> Vec<u8> {
    (0..text.len() / 2).map(|i| u8::from_str_radix(&text[2 * i..2 * i + 2], 16).unwrap()).collect()
}

fn key_of(bytes: &[u8]) -> [u8; 32] {
    let mut key = [0u8; 32];
    key.copy_from_slice(bytes);
    key
}

fn iv_of(bytes: &[u8]) -> [u8; 16] {
    let mut iv = [0u8; 16];
    iv.copy_from_slice(bytes);
    iv
}

#[test]
fn encrypt_then_decrypt_returns_the_plaintext() {
    let key = [7u8; 32];
    let iv = [9u8; 16];
    let plaintext = b"attack at dawn".to_vec();
    let ciphertext = encrypt(&plaintext, &key, &iv);
    assert_eq!(ciphertext.len(), 16);
    assert_ne!(&ciphertext[..14], &plaintext[..]);
    assert_eq!(decrypt(&ciphertext, &key, &iv), Ok(plaintext));
}

#[test]
fn first_block_is_the_published_aes_256_cbc_block() {
    let key = key_of(&hex("603deb1015ca71be2b73aef0857d77811f352c073b6108d72d9810a30914dff4"));
    let iv = iv_of(&hex("000102030405060708090a0b0c0d0e0f"));
    let plaintext = hex("6bc1bee22e409f96e93d7e117393172a");
    let ciphertext = encrypt(&plaintext, &key, &iv);
    assert_eq!(ciphertext.len(), 32);
    assert_eq!(&ciphertext[..16], &hex("f58c4c04d6e5f1ba779eabfb5f7bfbd6")[..]);
}

#[test]
fn ciphertext_length_is_the_next_block_boundary() {
    let key = [3u8; 32];
    let iv = [4u8; 16];
    let cases: [(usize, usize); 7] =
        [(0, 16), (1, 16), (15, 16), (16, 32), (17, 32), (31, 32), (32, 48)];
    for (plain, cipher) in cases {
        assert_eq!(encrypt(&vec![0xabu8; plain], &key, &iv).len(), cipher);
    }
}

#[test]
fn round_trip_of_empty_block_sized_and_large_plaintexts() {
    let key = [0x11u8; 32];
    let iv = [0x22u8; 16];
    let large: Vec<u8> = (0..3 * 1024 * 1024usize).map(|i| (i % 251) as u8).collect();
    for plaintext in [Vec::new(), vec![5u8; 16], large] {
        let ciphertext = encrypt(&plaintext, &key, &iv);
        assert_eq!(ciphertext.len(), plaintext.len() / 16 * 16 + 16);
        assert_eq!(decrypt(&ciphertext, &key, &iv), Ok(plaintext));
    }
}

#[test]
fn encryption_is_a_function_of_its_inputs() {
    let key = [1u8; 32];
    let iv = [2u8; 16];
    let plaintext = vec![9u8; 100];
    assert_eq!(encrypt(&plaintext, &key, &iv), encrypt(&plaintext, &key, &iv));
    assert_ne!(encrypt(&plaintext, &key, &iv), encrypt(&plaintext, &key, &[3u8; 16]));
    assert_ne!(encrypt(&plaintext, &key, &iv), encrypt(&plaintext, &[4u8; 32], &iv));
}

#[test]
fn truncated_ciphertext_is_a_padding_error() {
    let key = [1u8; 32];
    let iv = [2u8; 16];
    let ciphertext = encrypt(&[0u8; 40], &key, &iv);
    assert_eq!(ciphertext.len(), 48);
    assert_eq!(decrypt(&ciphertext[..47], &key, &iv), Err(PaddingError));
}

#[test]
fn empty_ciphertext_is_a_padding_error() {
    assert_eq!(decrypt(&[], &[1u8; 32], &[2u8; 16]), Err(PaddingError));
}

#[test]
fn flipped_last_byte_is_a_padding_error() {
    let key = [1u8; 32];
    let iv = [2u8; 16];
    let mut ciphertext = encrypt(&[0x5au8; 40], &key, &iv);
    let last = ciphertext.len() - 1;
    ciphertext[last] ^= 0xff;
    assert_eq!(decrypt(&ciphertext, &key, &iv), Err(PaddingError));
}

#[test]
fn wrong_key_does_not_give_the_plaintext() {
    let iv = [2u8; 16];
    let plaintext = vec![0x42u8; 64];
    let ciphertext = encrypt(&plaintext, &[1u8; 32], &iv);
    assert_ne!(decrypt(&ciphertext, &[8u8; 32], &iv), Ok(plaintext));
}

#[test]
fn wrong_iv_damages_only_the_first_block() {
    let key = [1u8; 32];
    let plaintext = vec![0x42u8; 64];
    let ciphertext = encrypt(&plaintext, &key, &[2u8; 16]);
    let recovered = decrypt(&ciphertext, &key, &[3u8; 16]).unwrap();
    assert_ne!(&recovered[..16], &plaintext[..16]);
    assert_eq!(&recovered[16..], &plaintext[16..]);
}

#[test]
fn iv_from_bytes_takes_exactly_sixteen() {
    let bytes: Vec<u8> = (0u8..16).collect();
    assert_eq!(iv_from_bytes(&bytes), Some(iv_of(&bytes)));
    assert_eq!(iv_from_bytes(&bytes[..15].to_vec()), None);
    assert_eq!(iv_from_bytes(&vec![0u8; 17]), None);
}
