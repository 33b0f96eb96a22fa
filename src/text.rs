//! Signing a text and checking a signature, with a keyed BLAKE3 hash or with
//! Ed25519.
use vstd::prelude::*;

use ed25519_dalek::{Signature, Signer, SigningKey, Verifier, VerifyingKey};
use rand::rngs::OsRng;

use crate::formats::TextSignFormat;
use crate::password::{
    gen_pass, has_class, has_class_byte, is_allowed_byte, is_lower_byte, is_number_byte,
    is_symbol_byte, is_upper_byte,
};

verus! {

/// The keyed BLAKE3 hash of `data` under `key`.
pub uninterp spec fn blake3_keyed_hash_of(key: Seq<u8>, data: Seq<u8>) -> Seq<u8>;

/// The Ed25519 signature of `message` by the key whose secret is `secret`.
pub uninterp spec fn ed25519_signature_of(secret: Seq<u8>, message: Seq<u8>) -> Seq<u8>;

/// The public key that belongs to the secret `secret`.
pub uninterp spec fn ed25519_public_key_of(secret: Seq<u8>) -> Seq<u8>;

/// Whether `public` is the encoding of a point of the curve.
pub uninterp spec fn ed25519_point_decodes(public: Seq<u8>) -> bool;

/// Whether `signature` is accepted for `message` under the public key
/// `public`.
pub uninterp spec fn ed25519_accepts(public: Seq<u8>, message: Seq<u8>, signature: Seq<u8>) -> bool;

/// Relies on `blake3::keyed_hash`, read out with `Hash::as_bytes`.
#[verifier::external_body]
fn blake3_keyed_hash(key: &[u8; 32], data: &[u8]) -> (r: [u8; 32])
    ensures
        r@ == blake3_keyed_hash_of(key@, data@),
{
    *blake3::keyed_hash(key, data).as_bytes()
}

/// Relies on ed25519-dalek's `Signer::sign` for the `SigningKey` made by
/// `SigningKey::from_bytes(secret)`, read out with `Signature::to_bytes`.
/// Signing yields a signature that the key's own public key accepts: `R` is
/// `[r]B` and `s` the reduced scalar `r + kA`, which is the equation that
/// `VerifyingKey::verify` checks.
#[verifier::external_body]
fn ed25519_sign(secret: &[u8; 32], message: &[u8]) -> (r: [u8; 64])
    ensures
        r@ == ed25519_signature_of(secret@, message@),
        ed25519_accepts(ed25519_public_key_of(secret@), message@, r@),
{
    SigningKey::from_bytes(secret).sign(message).to_bytes()
}

/// Relies on `SigningKey::verifying_key` for the key made by
/// `SigningKey::from_bytes(secret)`, read out with `VerifyingKey::to_bytes`.
/// The bytes are the compression of a point of the curve, so
/// `VerifyingKey::from_bytes` decodes them again.
#[verifier::external_body]
fn ed25519_public_key(secret: &[u8; 32]) -> (r: [u8; 32])
    ensures
        r@ == ed25519_public_key_of(secret@),
        ed25519_point_decodes(r@),
{
    SigningKey::from_bytes(secret).verifying_key().to_bytes()
}

/// Relies on `VerifyingKey::from_bytes`, which fails where the bytes do not
/// decode to a point.
#[verifier::external_body]
fn ed25519_point_valid(public: &[u8; 32]) -> (r: bool)
    ensures
        r == ed25519_point_decodes(public@),
{
    VerifyingKey::from_bytes(public).is_ok()
}

/// Relies on `Verifier::verify` of the `VerifyingKey` that
/// `VerifyingKey::from_bytes(public)` gives, with the signature made by
/// `Signature::from_bytes(signature)`; false where the key does not decode.
#[verifier::external_body]
fn ed25519_verify(public: &[u8; 32], message: &[u8], signature: &[u8; 64]) -> (r: bool)
    ensures
        r == (ed25519_point_decodes(public@) && ed25519_accepts(public@, message@, signature@)),
{
    match VerifyingKey::from_bytes(public) {
        Ok(key) => key.verify(message, &Signature::from_bytes(signature)).is_ok(),
        Err(_) => false,
    }
}

/// Relies on `SigningKey::generate` with the operating system's generator,
/// read out with `SigningKey::to_bytes`. Nothing can be promised of the bytes.
#[verifier::external_body]
fn ed25519_random_secret() -> (r: [u8; 32]) {
    SigningKey::generate(&mut OsRng).to_bytes()
}

/// A shared key as `Blake3::generate` makes it: 32 password characters with
/// at least one of each class.
pub open spec fn is_generated_blake3_key(b: Seq<u8>) -> bool {
    &&& b.len() == 32
    &&& forall|i: int| 0 <= i < 32 ==> is_allowed_byte(#[trigger] b[i], true, true, true, true)
    &&& has_class_byte(b, |c: u8| is_upper_byte(c))
    &&& has_class_byte(b, |c: u8| is_lower_byte(c))
    &&& has_class_byte(b, |c: u8| is_number_byte(c))
    &&& has_class_byte(b, |c: u8| is_symbol_byte(c))
}

/// A secret of 32 bytes with the public key that belongs to it, which is 32
/// bytes long and decodes to a point.
pub open spec fn is_ed25519_pair(secret: Seq<u8>, public: Seq<u8>) -> bool {
    &&& secret.len() == 32
    &&& public.len() == 32
    &&& public == ed25519_public_key_of(secret)
    &&& ed25519_point_decodes(public)
}

/// Why a text could not be signed or checked.
#[derive(Clone, Copy, PartialEq, Eq, Debug, Structural)]
pub enum TextError {
    /// A key must be 32 bytes long.
    KeyLength,
    /// The public key is not the encoding of a point of the curve.
    InvalidPublicKey,
    /// An Ed25519 signature must be 64 bytes long.
    SignatureLength,
}

/// A file that a key generation writes: its name and its bytes.
pub struct KeyFile {
    pub name: String,
    pub bytes: Vec<u8>,
}

/// The first 32 bytes of `key`, which must be exactly that long.
fn key_array(key: &[u8]) -> (r: Result<[u8; 32], TextError>)
    ensures
        r is Ok <==> key@.len() == 32,
        r matches Ok(a) ==> a@ == key@,
        r matches Err(e) ==> e == TextError::KeyLength,
{
    if key.len() != 32 {
        return Err(TextError::KeyLength);
    }
    let mut a = [0u8; 32];
    let mut i: usize = 0;
    while i < 32
        invariant
            key@.len() == 32,
            i <= 32,
            forall|k: int| 0 <= k < i ==> a@[k] == key@[k],
        decreases 32 - i,
    {
        a[i] = key[i];
        i = i + 1;
    }
    assert(a@ =~= key@);
    Ok(a)
}

/// The 64 bytes of `sig`, which must be exactly that long.
fn signature_array(sig: &[u8]) -> (r: Option<[u8; 64]>)
    ensures
        r is Some <==> sig@.len() == 64,
        r matches Some(a) ==> a@ == sig@,
{
    if sig.len() != 64 {
        return None;
    }
    let mut a = [0u8; 64];
    let mut i: usize = 0;
    while i < 64
        invariant
            sig@.len() == 64,
            i <= 64,
            forall|k: int| 0 <= k < i ==> a@[k] == sig@[k],
        decreases 64 - i,
    {
        a[i] = sig[i];
        i = i + 1;
    }
    assert(a@ =~= sig@);
    Some(a)
}

/// Whether two byte strings are equal.
fn same_bytes(a: &[u8], b: &[u8]) -> (r: bool)
    ensures
        r == (a@ == b@),
{
    if a.len() != b.len() {
        return false;
    }
    let mut i: usize = 0;
    while i < a.len()
        invariant
            a@.len() == b@.len(),
            i <= a@.len(),
            forall|k: int| 0 <= k < i ==> a@[k] == b@[k],
        decreases a@.len() - i,
    {
        if a[i] != b[i] {
            return false;
        }
        i = i + 1;
    }
    assert(a@ =~= b@);
    true
}

/// The bytes of a fixed-size array as a vector.
fn array_to_vec<const N: usize>(a: &[u8; N]) -> (r: Vec<u8>)
    ensures
        r@ == a@,
{
    let mut r: Vec<u8> = Vec::new();
    let mut i: usize = 0;
    while i < N
        invariant
            i <= N,
            N == a@.len(),
            r@ == a@.subrange(0, i as int),
        decreases N - i,
    {
        r.push(a[i]);
        assert(r@ =~= a@.subrange(0, i + 1));
        i = i + 1;
    }
    assert(a@.subrange(0, N as int) =~= a@);
    r
}

/// Signs and checks with a keyed BLAKE3 hash under a shared key.
pub struct Blake3 {
    pub key: [u8; 32],
}

impl Blake3 {
    pub fn new(key: &[u8; 32]) -> (r: Self)
        ensures
            r.key@ == key@,
    {
        Blake3 { key: *key }
    }

    /// A signer for `key`, which must be 32 bytes long.
    pub fn try_new(key: &[u8]) -> (r: Result<Self, TextError>)
        ensures
            r is Ok <==> key@.len() == 32,
            r matches Ok(b) ==> b.key@ == key@,
            r matches Err(e) ==> e == TextError::KeyLength,
    {
        let a = key_array(key)?;
        Ok(Blake3::new(&a))
    }

    /// The keyed hash of `input`, 32 bytes long.
    pub fn sign(&self, input: &[u8]) -> (r: Vec<u8>)
        ensures
            r@ == blake3_keyed_hash_of(self.key@, input@),
            r@.len() == 32,
    {
        let h = blake3_keyed_hash(&self.key, input);
        array_to_vec(&h)
    }

    /// Whether `signature` is the keyed hash of `input`.
    pub fn verify(&self, input: &[u8], signature: &[u8]) -> (r: bool)
        ensures
            r == (blake3_keyed_hash_of(self.key@, input@) == signature@),
    {
        let h = blake3_keyed_hash(&self.key, input);
        same_bytes(vstd::array::array_as_slice(&h), signature)
    }

    /// A fresh shared key: a random password of 32 characters of every class,
    /// to be written to `blake3.txt`.
    pub fn generate() -> (r: Vec<KeyFile>)
        ensures
            r@.len() == 1,
            r@[0].name@ == "blake3.txt"@,
            is_generated_blake3_key(r@[0].bytes@),
    {
        let key = match gen_pass(32, true, true, true, true) {
            Ok(p) => p,
            Err(_) => String::new(),
        };
        let bytes = key.as_str().as_bytes_vec();
        proof {
            let chars = key@;
            assert(vstd::utf8::is_ascii_chars(chars)) by {
                assert forall|i: int| 0 <= i < chars.len() implies '\0' <= #[trigger] chars[i]
                    <= '\u{7f}' by {
                    assert(is_allowed_byte(chars[i] as u8, true, true, true, true));
                    assert(chars[i] == (chars[i] as u8) as char);
                }
            }
            vstd::utf8::is_ascii_chars_encode_utf8(chars);
            assert forall|i: int| 0 <= i < 32 implies is_allowed_byte(
                #[trigger] bytes@[i],
                true,
                true,
                true,
                true,
            ) by {
                assert(chars[i] as u8 == vstd::utf8::encode_utf8(chars)[i]);
                assert(is_allowed_byte(chars[i] as u8, true, true, true, true));
            }
        }
        let mut r: Vec<KeyFile> = Vec::new();
        r.push(KeyFile { name: String::from_str("blake3.txt"), bytes });
        r
    }
}

/// Signs with an Ed25519 secret key.
pub struct Ed25519Signer {
    pub key: [u8; 32],
}

impl Ed25519Signer {
    pub fn new(key: &[u8; 32]) -> (r: Self)
        ensures
            r.key@ == key@,
    {
        Ed25519Signer { key: *key }
    }

    /// A signer for the secret `key`, which must be 32 bytes long.
    pub fn try_new(key: &[u8]) -> (r: Result<Self, TextError>)
        ensures
            r is Ok <==> key@.len() == 32,
            r matches Ok(s) ==> s.key@ == key@,
            r matches Err(e) ==> e == TextError::KeyLength,
    {
        let a = key_array(key)?;
        Ok(Ed25519Signer::new(&a))
    }

    /// The signature of `input`, 64 bytes long, which the public key of this
    /// secret accepts.
    pub fn sign(&self, input: &[u8]) -> (r: Vec<u8>)
        ensures
            r@ == ed25519_signature_of(self.key@, input@),
            r@.len() == 64,
            ed25519_accepts(ed25519_public_key_of(self.key@), input@, r@),
    {
        let s = ed25519_sign(&self.key, input);
        array_to_vec(&s)
    }

    /// A fresh key pair: the secret, to be written to `ed25519.sk`, and the
    /// public key that belongs to it, to be written to `ed25519.pk`.
    pub fn generate() -> (r: Vec<KeyFile>)
        ensures
            r@.len() == 2,
            r@[0].name@ == "ed25519.sk"@,
            r@[1].name@ == "ed25519.pk"@,
            is_ed25519_pair(r@[0].bytes@, r@[1].bytes@),
    {
        let secret = ed25519_random_secret();
        let public = ed25519_public_key(&secret);
        let mut r: Vec<KeyFile> = Vec::new();
        r.push(KeyFile { name: String::from_str("ed25519.sk"), bytes: array_to_vec(&secret) });
        r.push(KeyFile { name: String::from_str("ed25519.pk"), bytes: array_to_vec(&public) });
        r
    }
}

/// Checks signatures with an Ed25519 public key.
pub struct Ed25519Verifier {
    pub key: [u8; 32],
}

impl Ed25519Verifier {
    /// A verifier for the public key `key`, which must decode to a point.
    pub fn new(key: &[u8; 32]) -> (r: Result<Self, TextError>)
        ensures
            r is Ok <==> ed25519_point_decodes(key@),
            r matches Ok(v) ==> v.key@ == key@,
            r matches Err(e) ==> e == TextError::InvalidPublicKey,
    {
        if ed25519_point_valid(key) {
            Ok(Ed25519Verifier { key: *key })
        } else {
            Err(TextError::InvalidPublicKey)
        }
    }

    /// A verifier for the public key `key`, which must be 32 bytes long and
    /// decode to a point.
    pub fn try_new(key: &[u8]) -> (r: Result<Self, TextError>)
        ensures
            key@.len() != 32 ==> r == Err::<Self, TextError>(TextError::KeyLength),
            key@.len() == 32 ==> (r is Ok <==> ed25519_point_decodes(key@)),
            key@.len() == 32 && !ed25519_point_decodes(key@) ==> r == Err::<Self, TextError>(
                TextError::InvalidPublicKey,
            ),
            r matches Ok(v) ==> v.key@ == key@,
    {
        let a = key_array(key)?;
        Ed25519Verifier::new(&a)
    }

    /// Whether `signature`, which must be 64 bytes long, is accepted for
    /// `input`.
    pub fn verify(&self, input: &[u8], signature: &[u8]) -> (r: Result<bool, TextError>)
        ensures
            r is Err <==> signature@.len() != 64,
            r matches Err(e) ==> e == TextError::SignatureLength,
            r matches Ok(b) ==> b == (ed25519_point_decodes(self.key@) && ed25519_accepts(
                self.key@,
                input@,
                signature@,
            )),
    {
        match signature_array(signature) {
            Some(sig) => Ok(ed25519_verify(&self.key, input, &sig)),
            None => Err(TextError::SignatureLength),
        }
    }
}

/// Signs `input` with `key` in the given format.
pub fn process_text_sign(input: &[u8], key: &[u8], format: TextSignFormat) -> (r: Result<
    Vec<u8>,
    TextError,
>)
    ensures
        r is Err <==> key@.len() != 32,
        r matches Err(e) ==> e == TextError::KeyLength,
        r matches Ok(sig) ==> sig@ == match format {
            TextSignFormat::Blake3 => blake3_keyed_hash_of(key@, input@),
            TextSignFormat::Ed25519 => ed25519_signature_of(key@, input@),
        },
        r matches Ok(sig) ==> sig@.len() == match format {
            TextSignFormat::Blake3 => 32nat,
            TextSignFormat::Ed25519 => 64nat,
        },
        format is Ed25519 ==> (r matches Ok(sig) ==> ed25519_accepts(
            ed25519_public_key_of(key@),
            input@,
            sig@,
        )),
{
    match format {
        TextSignFormat::Blake3 => {
            let signer = Blake3::try_new(key)?;
            Ok(signer.sign(input))
        },
        TextSignFormat::Ed25519 => {
            let signer = Ed25519Signer::try_new(key)?;
            Ok(signer.sign(input))
        },
    }
}

/// Checks that `signature` signs `input` under `key` in the given format.
pub fn process_text_verify(input: &[u8], key: &[u8], signature: &[u8], format: TextSignFormat) -> (r:
    Result<bool, TextError>)
    ensures
        key@.len() != 32 ==> r == Err::<bool, TextError>(TextError::KeyLength),
        key@.len() == 32 ==> match format {
            TextSignFormat::Blake3 => r == Ok::<bool, TextError>(
                blake3_keyed_hash_of(key@, input@) == signature@,
            ),
            TextSignFormat::Ed25519 => {
                &&& !ed25519_point_decodes(key@) ==> r == Err::<bool, TextError>(
                    TextError::InvalidPublicKey,
                )
                &&& ed25519_point_decodes(key@) && signature@.len() != 64 ==> r == Err::<
                    bool,
                    TextError,
                >(TextError::SignatureLength)
                &&& ed25519_point_decodes(key@) && signature@.len() == 64 ==> r == Ok::<
                    bool,
                    TextError,
                >(ed25519_accepts(key@, input@, signature@))
            },
        },
{
    match format {
        TextSignFormat::Blake3 => {
            let verifier = Blake3::try_new(key)?;
            Ok(verifier.verify(input, signature))
        },
        TextSignFormat::Ed25519 => {
            let verifier = Ed25519Verifier::try_new(key)?;
            verifier.verify(input, signature)
        },
    }
}

/// Makes fresh keys for the given format, with the names of the files they
/// go to.
pub fn process_text_key_generate(format: TextSignFormat) -> (r: Vec<KeyFile>)
    ensures
        format is Blake3 ==> {
            &&& r@.len() == 1
            &&& r@[0].name@ == "blake3.txt"@
            &&& is_generated_blake3_key(r@[0].bytes@)
        },
        format is Ed25519 ==> {
            &&& r@.len() == 2
            &&& r@[0].name@ == "ed25519.sk"@
            &&& r@[1].name@ == "ed25519.pk"@
            &&& is_ed25519_pair(r@[0].bytes@, r@[1].bytes@)
        },
{
    match format {
        TextSignFormat::Blake3 => Blake3::generate(),
        TextSignFormat::Ed25519 => Ed25519Signer::generate(),
    }
}

} // verus!
