use rcli::text::{Blake3, Ed25519Signer, Ed25519Verifier};
use rcli::{
    process_text_key_generate, process_text_sign, process_text_verify, trim_whitespace,
    TextError, TextSignFormat,
};

const BLAKE3_KEY: &[u8] = b"whats the Elvish word for friend\n";

fn hex(s: &str) -> Vec<u8> {
    (0..s.len()).step_by(2).map(|i| u8::from_str_radix(&s[i..i + 2], 16).unwrap()).collect()
}

fn ed25519_pair() -> (Vec<u8>, Vec<u8>) {
    let files = process_text_key_generate(TextSignFormat::Ed25519);
    assert_eq!(files.len(), 2);
    assert_eq!(files[0].name, "ed25519.sk");
    assert_eq!(files[1].name, "ed25519.pk");
    (files[0].bytes.clone(), files[1].bytes.clone())
}

#[test]
fn test_process_text_sign() {
    let key = trim_whitespace(BLAKE3_KEY);
    let sig = process_text_sign(b"hello", key, TextSignFormat::Blake3).unwrap();
    let ret = process_text_verify(b"hello", key, &sig, TextSignFormat::Blake3).unwrap();
    assert!(ret);
}

#[test]
fn test_process_text_verify() {
    // the keyed hash of the empty input under this key, from BLAKE3's
    // published test vectors
    let key = trim_whitespace(BLAKE3_KEY);
    let sig = hex("92b2b75604ed3c761f9d6f62392c8a9227ad0ea3f09573e783f1498a4ed60d26");
    let ret = process_text_verify(b"", key, &sig, TextSignFormat::Blake3).unwrap();
    assert!(ret);
    let signed = process_text_sign(b"", key, TextSignFormat::Blake3).unwrap();
    assert_eq!(signed, sig);
}

#[test]
fn test_process_text_sign_verify() {
    let (sk, pk) = ed25519_pair();
    let sig = process_text_sign(b"hello", &sk, TextSignFormat::Ed25519).unwrap();
    assert_eq!(sig.len(), 64);
    let ret = process_text_verify(b"hello", &pk, &sig, TextSignFormat::Ed25519).unwrap();
    assert!(ret);
}

#[test]
fn blake3_rejects_a_changed_message_or_signature() {
    let key = trim_whitespace(BLAKE3_KEY);
    let sig = process_text_sign(b"hello", key, TextSignFormat::Blake3).unwrap();
    assert_eq!(sig.len(), 32);
    assert!(!process_text_verify(b"hellO", key, &sig, TextSignFormat::Blake3).unwrap());
    let mut bad = sig.clone();
    bad[0] ^= 1;
    assert!(!process_text_verify(b"hello", key, &bad, TextSignFormat::Blake3).unwrap());
    assert!(!process_text_verify(b"hello", key, &sig[..31], TextSignFormat::Blake3).unwrap());
}

#[test]
fn ed25519_rejects_a_changed_message() {
    let (sk, pk) = ed25519_pair();
    let sig = process_text_sign(b"hello", &sk, TextSignFormat::Ed25519).unwrap();
    assert!(!process_text_verify(b"hello!", &pk, &sig, TextSignFormat::Ed25519).unwrap());
}

#[test]
fn ed25519_signing_is_deterministic() {
    let signer = Ed25519Signer::new(&[7u8; 32]);
    assert_eq!(signer.sign(b"abc"), signer.sign(b"abc"));
    assert_ne!(signer.sign(b"abc"), signer.sign(b"abd"));
}

#[test]
fn keys_of_the_wrong_length_are_refused() {
    assert_eq!(process_text_sign(b"x", b"short", TextSignFormat::Blake3), Err(TextError::KeyLength));
    assert_eq!(process_text_sign(b"x", &[1u8; 33], TextSignFormat::Ed25519), Err(TextError::KeyLength));
    assert_eq!(
        process_text_verify(b"x", b"short", b"", TextSignFormat::Ed25519),
        Err(TextError::KeyLength)
    );
    assert!(Blake3::try_new(&[0u8; 31]).is_err());
    assert!(Blake3::try_new(&[0u8; 32]).is_ok());
}

#[test]
fn ed25519_signature_must_be_64_bytes() {
    let (_, pk) = ed25519_pair();
    assert_eq!(
        process_text_verify(b"x", &pk, &[0u8; 63], TextSignFormat::Ed25519),
        Err(TextError::SignatureLength)
    );
    let verifier = Ed25519Verifier::try_new(&pk).unwrap();
    assert_eq!(verifier.verify(b"x", &[0u8; 65]), Err(TextError::SignatureLength));
}

#[test]
fn public_key_off_the_curve_is_refused() {
    // y = 2 is not the y-coordinate of any point of the curve
    let mut key = [0u8; 32];
    key[0] = 2;
    assert!(Ed25519Verifier::new(&key).is_err());
    assert_eq!(
        process_text_verify(b"x", &key, &[0u8; 64], TextSignFormat::Ed25519),
        Err(TextError::InvalidPublicKey)
    );
}

#[test]
fn blake3_key_generation_gives_a_password_key() {
    let files = process_text_key_generate(TextSignFormat::Blake3);
    assert_eq!(files.len(), 1);
    assert_eq!(files[0].name, "blake3.txt");
    assert_eq!(files[0].bytes.len(), 32);
    let k = &files[0].bytes;
    assert!(k.iter().any(|b| b.is_ascii_uppercase()));
    assert!(k.iter().any(|b| b.is_ascii_lowercase()));
    assert!(k.iter().any(|b| b.is_ascii_digit()));
    assert!(k.iter().any(|b| b"!@#$%^&*_".contains(b)));
}

#[test]
fn generated_public_key_matches_its_secret() {
    let (sk, pk) = ed25519_pair();
    let other = process_text_key_generate(TextSignFormat::Ed25519);
    assert_ne!(other[0].bytes, sk);
    let sig = Ed25519Signer::try_new(&sk).unwrap().sign(b"m");
    assert_eq!(Ed25519Verifier::try_new(&pk).unwrap().verify(b"m", &sig), Ok(true));
}

#[test]
fn ed25519_matches_the_published_vector() {
    // the first test vector of RFC 8032: the empty message
    let sk = hex("9d61b19deffd5a60ba844af492ec2cc44449c5697b326919703bac031cae7f60");
    let pk = hex("d75a980182b10ab7d54bfed3c964073a0ee172f3daa62325af021a68f707511a");
    let sig = hex("e5564300c360ac729086e2cc806e828a84877f1eb8e5d974d873e065224901555fb8821590a33bacc61e39701cf9b46bd25bf5f0595bbe24655141438e7a100b");
    assert_eq!(process_text_sign(b"", &sk, TextSignFormat::Ed25519), Ok(sig.clone()));
    assert_eq!(process_text_verify(b"", &pk, &sig, TextSignFormat::Ed25519), Ok(true));
}

#[test]
fn signature_lengths_and_generated_keys() {
    let key = trim_whitespace(BLAKE3_KEY);
    assert_eq!(process_text_sign(b"hello", key, TextSignFormat::Blake3).unwrap().len(), 32);
    let (sk, pk) = ed25519_pair();
    assert_eq!(sk.len(), 32);
    assert_eq!(pk.len(), 32);
    assert!(Ed25519Verifier::try_new(&pk).is_ok());
    assert_eq!(process_text_sign(b"hello", &sk, TextSignFormat::Ed25519).unwrap().len(), 64);
}
