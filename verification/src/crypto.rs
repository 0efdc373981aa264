//! Encrypted fields of the domain models and the cryptographic algorithms
//! that the router applies to them and to webhook bodies.
use vstd::prelude::*;
use vstd::std_specs::convert::FromSpecImpl;
use vstd::utf8::*;

verus! {

/// Errors of the cryptographic operations.
#[derive(Clone, Copy, Debug, PartialEq, Eq, Structural)]
pub enum CryptoError {
    EncodingFailed,
    DecodingFailed,
    MessageSigningFailed,
    SignatureVerificationFailed,
}

/// The number of bytes of an AES-GCM nonce, which prefixes every encrypted
/// message of the router.
pub const NONCE_LEN: usize = 12;

/// The plaintext that `ring`'s AES-256-GCM opening yields for `key`, `nonce`
/// and the ciphertext followed by its tag, or `None` where it fails.
pub uninterp spec fn aes_256_gcm_opened(key: Seq<u8>, nonce: Seq<u8>, sealed: Seq<u8>) -> Option<
    Seq<u8>,
>;

/// The view of optional bytes.
pub open spec fn bytes_option_view(v: Option<Vec<u8>>) -> Option<Seq<u8>> {
    match v {
        Some(b) => Some(b@),
        None => None,
    }
}

/// Opens `sealed` (ciphertext followed by the tag) with AES-256-GCM through
/// `ring::aead` (`UnboundKey::new`, `Nonce::try_assume_unique_for_key`,
/// `LessSafeKey::open_in_place`), with empty additional data.
/// Claimed: the result is the named opening of the arguments, and
/// `UnboundKey::new` fails (so the opening does) unless the key is 32 bytes
/// long, as its documentation says.
#[verifier::external_body]
fn aes_256_gcm_open(key: &[u8], nonce: &[u8], sealed: Vec<u8>) -> (res: Option<Vec<u8>>)
    ensures
        bytes_option_view(res) == aes_256_gcm_opened(key@, nonce@, sealed@),
        key@.len() != 32 ==> res is None,
{
    let unbound = ring::aead::UnboundKey::new(&ring::aead::AES_256_GCM, key).ok()?;
    let opening = ring::aead::LessSafeKey::new(unbound);
    let nonce = ring::aead::Nonce::try_assume_unique_for_key(nonce).ok()?;
    let mut in_out = sealed;
    let plain = opening.open_in_place(nonce, ring::aead::Aad::empty(), &mut in_out).ok()?;
    Some(plain.to_vec())
}

/// Decodes `bytes` as UTF-8 with std's `String::from_utf8`. Claimed, as its
/// documentation says: it succeeds exactly when the bytes are valid UTF-8,
/// and the text is then the characters that the bytes encode.
#[verifier::external_body]
fn string_from_utf8(bytes: Vec<u8>) -> (res: Option<String>)
    ensures
        res is Some <==> valid_utf8(bytes@),
        res matches Some(s) ==> s@ == decode_utf8(bytes@),
{
    String::from_utf8(bytes).ok()
}

/// What AES-256-GCM decoding gives for `secret` and a message made of the
/// nonce followed by the ciphertext and tag.
pub open spec fn gcm_decoded(secret: Seq<u8>, msg: Seq<u8>) -> Option<Seq<u8>> {
    if msg.len() < NONCE_LEN {
        None
    } else {
        aes_256_gcm_opened(secret, msg.take(NONCE_LEN as int), msg.skip(NONCE_LEN as int))
    }
}

/// The view of a decoding algorithm's answer.
pub open spec fn decoding_view(answer: Result<Vec<u8>, CryptoError>) -> Result<Seq<u8>, CryptoError> {
    match answer {
        Ok(v) => Ok(v@),
        Err(e) => Err(e),
    }
}

/// An algorithm that decodes a message with a secret.
pub trait DecodeMessage: Send {
    /// Whether `answer` is an answer that this algorithm may give when it
    /// decodes `msg` with `secret`; an algorithm that states nothing of its
    /// answers admits every one.
    open spec fn decodes(&self, secret: Seq<u8>, msg: Seq<u8>, answer: Result<Seq<u8>, CryptoError>) -> bool {
        true
    }

    /// Decodes `msg` with `secret`.
    fn decode_message(&self, secret: &[u8], msg: Vec<u8>) -> (res: Result<Vec<u8>, CryptoError>)
        ensures
            self.decodes(secret@, msg@, decoding_view(res)),
    ;
}

/// An algorithm that verifies a message's signature with a secret.
pub trait VerifySignature: Send {
    /// Whether `answer` is an answer that this algorithm may give when it
    /// verifies `signature` of `msg` under `secret`; an algorithm that
    /// states nothing of its answers admits every one.
    open spec fn verifies(&self, secret: Seq<u8>, signature: Seq<u8>, msg: Seq<u8>, answer: Result<bool, CryptoError>) -> bool {
        true
    }

    /// Whether `signature` is a valid signature of `msg` under `secret`.
    fn verify_signature(&self, secret: &[u8], signature: &[u8], msg: &[u8]) -> (res: Result<bool, CryptoError>)
        ensures
            self.verifies(secret@, signature@, msg@, res),
    ;
}

/// Whether the answers that `decodes` admits are the message itself and
/// nothing else, whatever the secret: how `NoAlgorithm` decodes.
pub open spec fn hands_message_back(decodes: spec_fn(Seq<u8>, Seq<u8>, Result<Seq<u8>, CryptoError>) -> bool) -> bool {
    forall|secret: Seq<u8>, msg: Seq<u8>, answer: Result<Seq<u8>, CryptoError>|
        #[trigger] decodes(secret, msg, answer) <==> answer == Ok::<Seq<u8>, CryptoError>(msg)
}

/// Whether the answer that `verifies` admits is `true` and nothing else,
/// whatever the secret, the signature and the message: how `NoAlgorithm`
/// verifies.
pub open spec fn accepts_every_signature(
    verifies: spec_fn(Seq<u8>, Seq<u8>, Seq<u8>, Result<bool, CryptoError>) -> bool,
) -> bool {
    forall|secret: Seq<u8>, signature: Seq<u8>, msg: Seq<u8>, answer: Result<bool, CryptoError>|
        #[trigger] verifies(secret, signature, msg, answer) <==> answer == Ok::<bool, CryptoError>(true)
}

/// What AES-256-GCM decoding answers for `secret` and a message made of the
/// nonce followed by the ciphertext and tag.
pub open spec fn gcm_answer(secret: Seq<u8>, msg: Seq<u8>) -> Result<Seq<u8>, CryptoError> {
    match gcm_decoded(secret, msg) {
        Some(plain) => Ok(plain),
        None => Err(CryptoError::DecodingFailed),
    }
}

/// AES-256 in Galois/Counter mode.
#[derive(Clone, Copy, Debug, PartialEq, Eq, Structural)]
pub struct GcmAes256;

impl DecodeMessage for GcmAes256 {
    open spec fn decodes(&self, secret: Seq<u8>, msg: Seq<u8>, answer: Result<Seq<u8>, CryptoError>) -> bool {
        answer == gcm_answer(secret, msg)
    }

    /// Decrypts `msg`, whose first bytes are the nonce, with the key `secret`.
    fn decode_message(&self, secret: &[u8], msg: Vec<u8>) -> (res: Result<Vec<u8>, CryptoError>)
        ensures
            match gcm_decoded(secret@, msg@) {
                Some(plain) => res == Ok::<Vec<u8>, CryptoError>(res->Ok_0) && res->Ok_0@ == plain,
                None => res == Err::<Vec<u8>, CryptoError>(CryptoError::DecodingFailed),
            },
            secret@.len() != 32 ==> res == Err::<Vec<u8>, CryptoError>(CryptoError::DecodingFailed),
    {
        if msg.len() < NONCE_LEN {
            return Err(CryptoError::DecodingFailed);
        }
        let mut nonce = msg;
        let sealed = nonce.split_off(NONCE_LEN);
        proof {
            assert(nonce@ =~= msg@.take(NONCE_LEN as int));
            assert(sealed@ =~= msg@.skip(NONCE_LEN as int));
        }
        match aes_256_gcm_open(secret, nonce.as_slice(), sealed) {
            Some(plain) => Ok(plain),
            None => Err(CryptoError::DecodingFailed),
        }
    }
}

/// The encrypted form of a field as it is stored.
#[derive(Clone, Debug)]
pub struct Encryption {
    pub inner: Vec<u8>,
}

impl Encryption {
    /// Wraps stored ciphertext.
    pub fn new(inner: Vec<u8>) -> (res: Encryption)
        ensures
            res.inner@ == inner@,
    {
        Encryption { inner }
    }

    /// The stored ciphertext.
    pub fn into_inner(self) -> (res: Vec<u8>)
        ensures
            res@ == self.inner@,
    {
        self.inner
    }
}

/// A field together with its encrypted form.
#[derive(Clone, Debug)]
pub struct Encryptable<T> {
    pub inner: T,
    pub encrypted: Vec<u8>,
}

impl<T> Encryptable<T> {
    /// Pairs a value with its encrypted form.
    pub fn new(inner: T, encrypted: Vec<u8>) -> (res: Encryptable<T>)
        ensures
            res.inner == inner,
            res.encrypted@ == encrypted@,
    {
        Encryptable { inner, encrypted }
    }

    /// The plain value.
    pub fn into_inner(self) -> (res: T)
        ensures
            res == self.inner,
    {
        self.inner
    }

    /// The encrypted form.
    pub fn into_encrypted(self) -> (res: Vec<u8>)
        ensures
            res@ == self.encrypted@,
    {
        self.encrypted
    }

}

impl<T> From<Encryptable<T>> for Encryption {
    fn from(value: Encryptable<T>) -> (res: Self) {
        Encryption { inner: value.encrypted }
    }
}

impl<T> FromSpecImpl<Encryptable<T>> for Encryption {
    open spec fn obeys_from_spec() -> bool {
        true
    }

    open spec fn from_spec(value: Encryptable<T>) -> Self {
        Encryption { inner: value.encrypted }
    }
}

/// What decrypting stored ciphertext `encrypted` with `key` gives: the
/// UTF-8 text of the plaintext, or `None` where decoding fails.
pub open spec fn decrypted_text(key: Seq<u8>, encrypted: Seq<u8>) -> Option<Seq<char>> {
    match gcm_decoded(key, encrypted) {
        Some(plain) => if valid_utf8(plain) {
            Some(decode_utf8(plain))
        } else {
            None
        },
        None => None,
    }
}

impl Encryptable<String> {
    /// Decrypts a stored text field with AES-256-GCM under `key`; the result
    /// keeps the ciphertext beside the text.
    pub fn decrypt(encrypted_data: Encryption, key: &[u8], crypt_algo: GcmAes256) -> (res: Result<
        Encryptable<String>,
        CryptoError,
    >)
        ensures
            match decrypted_text(key@, encrypted_data.inner@) {
                Some(text) => res is Ok && res->Ok_0.inner@ == text && res->Ok_0.encrypted@
                    == encrypted_data.inner@,
                None => res == Err::<Encryptable<String>, CryptoError>(CryptoError::DecodingFailed),
            },
            key@.len() != 32 ==> res == Err::<Encryptable<String>, CryptoError>(CryptoError::DecodingFailed),
    {
        let encrypted = encrypted_data.into_inner();
        let data = crypt_algo.decode_message(key, encrypted.clone())?;
        match string_from_utf8(data) {
            Some(value) => Ok(Encryptable::new(value, encrypted)),
            None => Err(CryptoError::DecodingFailed),
        }
    }
}

/// No cryptographic algorithm: decoding hands the message back and every
/// signature verifies.
#[derive(Clone, Copy, Debug, PartialEq, Eq, Structural)]
pub struct NoAlgorithm;

impl DecodeMessage for NoAlgorithm {
    open spec fn decodes(&self, secret: Seq<u8>, msg: Seq<u8>, answer: Result<Seq<u8>, CryptoError>) -> bool {
        answer == Ok::<Seq<u8>, CryptoError>(msg)
    }

    /// Hands the message back unchanged.
    fn decode_message(&self, secret: &[u8], msg: Vec<u8>) -> (res: Result<Vec<u8>, CryptoError>)
        ensures
            res is Ok,
            res->Ok_0@ == msg@,
    {
        Ok(msg)
    }
}

impl VerifySignature for NoAlgorithm {
    open spec fn verifies(&self, secret: Seq<u8>, signature: Seq<u8>, msg: Seq<u8>, answer: Result<bool, CryptoError>) -> bool {
        answer == Ok::<bool, CryptoError>(true)
    }

    /// Accepts every signature.
    fn verify_signature(&self, secret: &[u8], signature: &[u8], msg: &[u8]) -> (res: Result<
        bool,
        CryptoError,
    >)
        ensures
            res == Ok::<bool, CryptoError>(true),
    {
        Ok(true)
    }
}

} // verus!
