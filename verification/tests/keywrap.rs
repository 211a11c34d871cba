use base64::prelude::{Engine, BASE64_STANDARD};
use rand::thread_rng;
use rsa::pkcs1::{EncodeRsaPrivateKey, EncodeRsaPublicKey, LineEnding};
use rsa::{BigUint, Pkcs1v15Encrypt, RsaPrivateKey};
use secure_share::keywrap::{
    decode_public_key, key_from_bytes, unwrap, wipe, wipe_bytes, wrap, UnwrapError, WrapError,
};

// The primes of two 2048-bit keys, so that no test waits for a prime search.
const FIRST_P: &str = "fc575801b4f9ec10161b7c4c7afaa6260c6d783add3670084b9f92bf0a1ec836\
    cdb2ae9b756b81579f409467afd85bb0806452ebdb875fa57174d0743b253626\
    f4b35886eccd557d8f6699e71563e5befdb499458f26b7567eadc73b95b46f4d\
    73be79f4bcb3ed5fe136edb882919c28c376ed18ad27537b1fce3ac854cf0bb1";
const FIRST_Q: &str = "cbce6edef9ef10e9448d3a8bbf79f39bf047d4b173bd732b23cbf2baf19cb3c1\
    bee1a53f37e740b23e9fc90b03bf81beae96811bec7398de72745d0edbf89c86\
    941b403ac2e4c50e81ac65bedb7060cd96ab78e84fb12ec0ad6273ca12b955b0\
    cfd7e1a65081cfff70efc9127f1ff6d71bd28999f6e7b0c0fb6f2edb77bba7d9";
const SECOND_P: &str = "e1ecea38c2e6558c546c5eac12ea67c7c993655adac674d753650fd3e87b5e8b\
    25c50278e06716531fcd117725177c8d37cc48dc1849a5be7a064583181baaa2\
    b6a947c8c0118603b736ddd163eecdb01d4d36a7fe529372cf7c0bed395124e1\
    17fe40680e1055147c033cdcd1c6df8373e8a872ed34c1ce5bae705313049507";
const SECOND_Q: &str = "ccd75796538a25d6a5df12ebb2bb256bf269d100d910235ba5c0c23a4009d454\
    3c75b28fd98a53001a5c19db7b5290e9dccb1aa9e2880096247d976361322f5d\
    862a11e553094708b5f5f0c0d1eaab24d4834e2e78c29597226c2213e2081492\
    10139493347b149f69f583b0fa6c5e4683a57fbd8fd0a23a5bf0f436f67d7165";

fn private_key(p: &str, q: &str) -> RsaPrivateKey {
    let number = |hex: &str| BigUint::parse_bytes(hex.as_bytes(), 16).unwrap();
    RsaPrivateKey::from_p_q(number(p), number(q), BigUint::from(65537u32)).unwrap()
}

fn pems(private: &RsaPrivateKey) -> (String, String) {
    let public_pem = private.to_public_key().to_pkcs1_pem(LineEnding::LF).unwrap();
    let private_pem = private.to_pkcs1_pem(LineEnding::LF).unwrap().to_string();
    (public_pem, private_pem)
}

fn first_pair() -> (String, String) {
    pems(&private_key(FIRST_P, FIRST_Q))
}

fn second_pair() -> (String, String) {
    pems(&private_key(SECOND_P, SECOND_Q))
}

fn key_pair(bits: usize) -> (String, String) {
    pems(&RsaPrivateKey::new(&mut thread_rng(), bits).unwrap())
}

#[test]
fn wrap_then_unwrap_returns_the_key() {
    let (public_pem, private_pem) = first_pair();
    let key: [u8; 32] = core::array::from_fn(|i| i as u8);
    let wrapped = wrap(&key, &public_pem).unwrap();
    assert_eq!(wrapped.len(), 256);
    assert_ne!(&wrapped[..32], &key[..]);
    assert_eq!(unwrap(&wrapped, &private_pem), Ok(key));
}

#[test]
fn wrapping_twice_gives_different_wrapped_keys() {
    let (public_pem, private_pem) = first_pair();
    let key = [0x33u8; 32];
    let first = wrap(&key, &public_pem).unwrap();
    let second = wrap(&key, &public_pem).unwrap();
    assert_ne!(first, second);
    assert_eq!(unwrap(&first, &private_pem), Ok(key));
    assert_eq!(unwrap(&second, &private_pem), Ok(key));
}

#[test]
fn unwrap_with_another_private_key_is_rejected() {
    let (public_pem, _) = first_pair();
    let (_, other_private_pem) = second_pair();
    let wrapped = wrap(&[0x44u8; 32], &public_pem).unwrap();
    assert_eq!(unwrap(&wrapped, &other_private_pem), Err(UnwrapError::Rejected));
}

#[test]
fn unwrap_of_damaged_wrapped_key_is_rejected() {
    let (public_pem, private_pem) = first_pair();
    let mut wrapped = wrap(&[0x44u8; 32], &public_pem).unwrap();
    wrapped[128] ^= 0x01;
    assert_eq!(unwrap(&wrapped, &private_pem), Err(UnwrapError::Rejected));
    assert_eq!(unwrap(&[], &private_pem), Err(UnwrapError::Rejected));
}

#[test]
fn unwrap_of_a_payload_that_is_not_32_bytes_is_rejected() {
    let private = private_key(FIRST_P, FIRST_Q);
    let private_pem = private.to_pkcs1_pem(LineEnding::LF).unwrap().to_string();
    let public = private.to_public_key();
    for len in [0usize, 16, 31, 33] {
        let wrapped = public.encrypt(&mut thread_rng(), Pkcs1v15Encrypt, &vec![7u8; len]).unwrap();
        assert_eq!(unwrap(&wrapped, &private_pem), Err(UnwrapError::Rejected));
    }
    let wrapped = public.encrypt(&mut thread_rng(), Pkcs1v15Encrypt, &[7u8; 32]).unwrap();
    assert_eq!(unwrap(&wrapped, &private_pem), Ok([7u8; 32]));
}

#[test]
fn malformed_key_texts_are_key_format_errors() {
    let (public_pem, private_pem) = first_pair();
    let key = [1u8; 32];
    assert_eq!(wrap(&key, ""), Err(WrapError::KeyFormat));
    assert_eq!(wrap(&key, "not a key"), Err(WrapError::KeyFormat));
    // A private key is no public key, and the other way round.
    assert_eq!(wrap(&key, &private_pem), Err(WrapError::KeyFormat));
    let wrapped = wrap(&key, &public_pem).unwrap();
    assert_eq!(unwrap(&wrapped, &public_pem), Err(UnwrapError::KeyFormat));
    assert_eq!(unwrap(&wrapped, "not a key"), Err(UnwrapError::KeyFormat));
}

#[test]
fn a_modulus_too_short_for_the_padding_refuses_the_payload() {
    // 32 bytes and the 11 bytes of padding do not fit into 40.
    let (public_pem, _) = key_pair(320);
    assert_eq!(wrap(&[1u8; 32], &public_pem), Err(WrapError::Encryption));
}

#[test]
fn stored_public_key_unwraps_to_its_pem_text() {
    let (public_pem, _) = first_pair();
    let stored = BASE64_STANDARD.encode(public_pem.as_bytes());
    assert_eq!(decode_public_key(&stored), Ok(public_pem));
    assert_eq!(decode_public_key("aGVsbG8="), Ok("hello".to_string()));
}

#[test]
fn stored_public_key_that_does_not_decode_is_a_key_format_error() {
    assert_eq!(decode_public_key("***"), Err(WrapError::KeyFormat));
    assert_eq!(decode_public_key("aGVsbG8"), Err(WrapError::KeyFormat));
    // Valid base64 of bytes that are not UTF-8.
    assert_eq!(decode_public_key(&BASE64_STANDARD.encode([0xffu8, 0xfe])), Err(WrapError::KeyFormat));
}

#[test]
fn wipe_zeroes_every_byte() {
    let mut key = [0xaau8; 32];
    wipe(&mut key);
    assert_eq!(key, [0u8; 32]);
    let mut bytes = vec![1u8, 2, 3];
    wipe_bytes(&mut bytes);
    assert_eq!(bytes, vec![0u8, 0, 0]);
}

#[test]
fn key_from_bytes_takes_exactly_thirty_two() {
    let bytes: Vec<u8> = (0u8..32).collect();
    assert_eq!(key_from_bytes(&bytes), Some(core::array::from_fn(|i| i as u8)));
    assert_eq!(key_from_bytes(&vec![0u8; 31]), None);
    assert_eq!(key_from_bytes(&vec![0u8; 33]), None);
}
