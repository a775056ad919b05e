//! Encryption of short secrets: AES-256-GCM under a fresh random nonce,
//! the nonce prepended to the sealed bytes and the whole armoured in
//! base64. Decryption inverts encryption exactly; the round trip is part
//! of the contracts.

use vstd::prelude::*;
use vstd::slice::slice_to_vec;
use vstd::utf8::{encode_utf8, valid_utf8};

use aes_gcm::aead::{Aead, KeyInit};
use base64::Engine;
use rand::RngCore;

verus! {

/// Errors of the encryption helpers.
#[derive(Clone, Copy, PartialEq, Eq, Structural, Debug)]
pub enum CryptoError {
    /// The key is not 32 bytes long.
    InvalidKey,
    /// The text cannot be decoded, is too short, or fails authentication.
    InvalidCiphertext,
    /// The cipher refused to seal.
    EncryptFailed,
    /// The decrypted bytes are not UTF-8.
    InvalidUtf8,
}

/// What AES-256-GCM sealing returns for a key, nonce and plaintext.
pub uninterp spec fn spec_aes_seal(key: Seq<u8>, nonce: Seq<u8>, plaintext: Seq<u8>) -> Seq<u8>;

/// What base64 standard encoding returns for a byte sequence.
pub uninterp spec fn spec_b64(bytes: Seq<u8>) -> Seq<char>;

/// Relies on rand's `OsRng` (`RngCore::try_fill_bytes`): `n` bytes from
/// the operating system's randomness source, or nothing where that source
/// fails. Nothing is assumed about the values.
#[verifier::external_body]
fn os_random_bytes(n: usize) -> (r: Option<Vec<u8>>)
    ensures
        r matches Some(b) ==> b@.len() == n,
{
    let mut buf = vec![0u8; n];
    match rand::rngs::OsRng.try_fill_bytes(&mut buf) {
        Ok(()) => Some(buf),
        Err(_) => None,
    }
}

/// Relies on aes_gcm's `Aes256Gcm` (`Aead::encrypt`): sealing is a
/// function of key, nonce and plaintext alone, appends the 16-byte
/// authentication tag to the plaintext's length, and refuses only a
/// plaintext beyond the documented GCM maximum of 2^36 bytes.
#[verifier::external_body]
fn aes_gcm_seal(key: &[u8], nonce: &[u8], plaintext: &[u8]) -> (r: Option<Vec<u8>>)
    requires
        key@.len() == 32,
        nonce@.len() == 12,
    ensures
        r matches Some(ct) ==> ct@ == spec_aes_seal(key@, nonce@, plaintext@) && ct@.len()
            == plaintext@.len() + 16,
        plaintext@.len() <= 0x10_0000_0000 ==> r is Some,
{
    let cipher = aes_gcm::Aes256Gcm::new(aes_gcm::Key::<aes_gcm::Aes256Gcm>::from_slice(key));
    cipher.encrypt(aes_gcm::Nonce::from_slice(nonce), plaintext).ok()
}

/// Relies on aes_gcm's `Aead::decrypt`: under the same key and nonce it
/// inverts sealing.
#[verifier::external_body]
fn aes_gcm_open(key: &[u8], nonce: &[u8], ciphertext: &[u8]) -> (r: Option<Vec<u8>>)
    requires
        key@.len() == 32,
        nonce@.len() == 12,
    ensures
        r is None ==> forall|pt: Seq<u8>|
            ciphertext@ != #[trigger] spec_aes_seal(key@, nonce@, pt),
        r matches Some(p) ==> forall|pt: Seq<u8>|
            ciphertext@ == #[trigger] spec_aes_seal(key@, nonce@, pt) ==> p@ == pt,
{
    let cipher = aes_gcm::Aes256Gcm::new(aes_gcm::Key::<aes_gcm::Aes256Gcm>::from_slice(key));
    cipher.decrypt(aes_gcm::Nonce::from_slice(nonce), ciphertext).ok()
}

/// Relies on base64's `STANDARD` engine: the encoding is a function of the
/// bytes alone.
#[verifier::external_body]
fn base64_encode(bytes: &[u8]) -> (r: String)
    requires
        bytes@.len() <= usize::MAX / 4,
    ensures
        r@ == spec_b64(bytes@),
{
    base64::engine::general_purpose::STANDARD.encode(bytes)
}

/// Relies on base64's `STANDARD` engine decode: what encode produced
/// decodes back to exactly those bytes; other inputs may be rejected.
#[verifier::external_body]
fn base64_decode(s: &str) -> (r: Option<Vec<u8>>)
    ensures
        (exists|b: Seq<u8>| s@ == #[trigger] spec_b64(b)) ==> r is Some,
        r matches Some(d) ==> forall|b: Seq<u8>| s@ == #[trigger] spec_b64(b) ==> d@ == b,
{
    base64::engine::general_purpose::STANDARD.decode(s).ok()
}

/// Relies on `String::from_utf8`: valid UTF-8 bytes become the string of
/// exactly those bytes; anything else is rejected.
#[verifier::external_body]
fn string_from_utf8(bytes: Vec<u8>) -> (r: Option<String>)
    ensures
        valid_utf8(bytes@) ==> r is Some,
        r matches Some(s) ==> encode_utf8(s@) == bytes@,
{
    String::from_utf8(bytes).ok()
}

/// AES-256-GCM encryption of text, base64-armoured, with the 12-byte
/// random nonce prepended to the sealed bytes.
pub struct Encryptor {
    key: Vec<u8>,
}

impl Encryptor {
    /// The key this encryptor seals with.
    pub closed spec fn key(self) -> Seq<u8> {
        self.key@
    }

    /// An AES-256 key is exactly 32 bytes.
    pub open spec fn wf(self) -> bool {
        self.key().len() == 32
    }

    /// An encryptor over a copy of `key`; any other length is refused.
    pub fn new(key: &[u8]) -> (r: Result<Encryptor, CryptoError>)
        ensures
            key@.len() == 32 ==> (r matches Ok(e) && e.wf() && e.key() == key@),
            key@.len() != 32 ==> r == Err::<Encryptor, CryptoError>(CryptoError::InvalidKey),
    {
        if key.len() != 32 {
            return Err(CryptoError::InvalidKey);
        }
        Ok(Encryptor { key: slice_to_vec(key) })
    }

    /// Seals `plaintext` under a caller-supplied nonce: the deterministic
    /// part of `encrypt`, with success pinned. The nonce must never be
    /// reused under the same key; `encrypt` draws a fresh random one. A
    /// failure can only mean the plaintext is beyond the cipher's 2^36
    /// maximum or the armoured text would not fit in memory.
    pub fn encrypt_with_nonce(&self, nonce: &Vec<u8>, plaintext: &str) -> (r: Result<
        String,
        CryptoError,
    >)
        requires
            self.wf(),
            nonce@.len() == 12,
        ensures
            r matches Ok(ct) ==> ct@ == spec_b64(
                nonce@ + spec_aes_seal(self.key(), nonce@, encode_utf8(plaintext@)),
            ),
            encode_utf8(plaintext@).len() <= 0x10_0000_0000 && encode_utf8(plaintext@).len() + 28
                <= usize::MAX / 4 ==> r is Ok,
    {
        let mut combined = nonce.clone();
        let mut sealed = match aes_gcm_seal(
            self.key.as_slice(),
            combined.as_slice(),
            plaintext.as_bytes(),
        ) {
            Some(ct) => ct,
            None => {
                return Err(CryptoError::EncryptFailed);
            },
        };
        combined.append(&mut sealed);
        if combined.len() > usize::MAX / 4 {
            return Err(CryptoError::EncryptFailed);
        }
        let encoded = base64_encode(combined.as_slice());
        proof {
            assert(encoded@ == spec_b64(
                nonce@ + spec_aes_seal(self.key(), nonce@, encode_utf8(plaintext@)),
            ));
        }
        Ok(encoded)
    }

    /// Seals `plaintext` under a fresh random nonce. A success is the
    /// base64 of the nonce followed by the AES-GCM sealing of the
    /// plaintext's UTF-8 bytes under this encryptor's key; failure means
    /// the randomness source failed or the plaintext is oversized.
    pub fn encrypt(&self, plaintext: &str) -> (r: Result<String, CryptoError>)
        requires
            self.wf(),
        ensures
            r matches Ok(ct) ==> exists|nonce: Seq<u8>|
                nonce.len() == 12 && ct@ == #[trigger] spec_b64(
                    nonce + spec_aes_seal(self.key(), nonce, encode_utf8(plaintext@)),
                ),
    {
        let nonce = match os_random_bytes(12) {
            Some(b) => b,
            None => {
                return Err(CryptoError::EncryptFailed);
            },
        };
        self.encrypt_with_nonce(&nonce, plaintext)
    }

    /// Opens a sealed text. Whatever `encrypt` produced under this
    /// encryptor's key comes back as exactly the original text; inputs
    /// that fail decoding, are shorter than a nonce, fail authentication
    /// or do not decode as UTF-8 are errors.
    pub fn decrypt(&self, ciphertext: &str) -> (r: Result<String, CryptoError>)
        requires
            self.wf(),
        ensures
            forall|nonce: Seq<u8>, pt: Seq<char>|
                (nonce.len() == 12 && ciphertext@ == #[trigger] spec_b64(
                    nonce + spec_aes_seal(self.key(), nonce, encode_utf8(pt)),
                )) ==> (r matches Ok(s) && s@ == pt),
    {
        broadcast use vstd::utf8::encode_utf8_valid_utf8;
        broadcast use vstd::utf8::encode_utf8_decode_utf8;

        let mut decoded = match base64_decode(ciphertext) {
            Some(d) => d,
            None => {
                return Err(CryptoError::InvalidCiphertext);
            },
        };
        if decoded.len() < 12 {
            proof {
                assert forall|nonce: Seq<u8>, pt: Seq<char>|
                    nonce.len() == 12 && ciphertext@ == #[trigger] spec_b64(
                        nonce + spec_aes_seal(self.key(), nonce, encode_utf8(pt)),
                    ) implies false by {
                    assert(decoded@ == nonce + spec_aes_seal(self.key(), nonce, encode_utf8(pt)));
                }
            }
            return Err(CryptoError::InvalidCiphertext);
        }
        let sealed = decoded.split_off(12);
        let opened = match aes_gcm_open(
            self.key.as_slice(),
            decoded.as_slice(),
            sealed.as_slice(),
        ) {
            Some(p) => p,
            None => {
                proof {
                    assert forall|nonce: Seq<u8>, pt: Seq<char>|
                        nonce.len() == 12 && ciphertext@ == #[trigger] spec_b64(
                            nonce + spec_aes_seal(self.key(), nonce, encode_utf8(pt)),
                        ) implies false by {
                        let whole = nonce + spec_aes_seal(self.key(), nonce, encode_utf8(pt));
                        assert(decoded@ =~= whole.subrange(0, 12) && decoded@ =~= nonce);
                        assert(sealed@ =~= spec_aes_seal(self.key(), nonce, encode_utf8(pt)));
                    }
                }
                return Err(CryptoError::InvalidCiphertext);
            },
        };
        match string_from_utf8(opened) {
            Some(s) => {
                proof {
                    assert forall|nonce: Seq<u8>, pt: Seq<char>|
                        nonce.len() == 12 && ciphertext@ == #[trigger] spec_b64(
                            nonce + spec_aes_seal(self.key(), nonce, encode_utf8(pt)),
                        ) implies s@ == pt by {
                        let whole = nonce + spec_aes_seal(self.key(), nonce, encode_utf8(pt));
                        assert(decoded@ =~= whole.subrange(0, 12) && decoded@ =~= nonce);
                        assert(sealed@ =~= spec_aes_seal(self.key(), nonce, encode_utf8(pt)));
                        assert(encode_utf8(s@) == encode_utf8(pt));
                        assert(vstd::utf8::decode_utf8(encode_utf8(s@)) == s@);
                        assert(vstd::utf8::decode_utf8(encode_utf8(pt)) == pt);
                    }
                }
                Ok(s)
            },
            None => {
                proof {
                    assert forall|nonce: Seq<u8>, pt: Seq<char>|
                        nonce.len() == 12 && ciphertext@ == #[trigger] spec_b64(
                            nonce + spec_aes_seal(self.key(), nonce, encode_utf8(pt)),
                        ) implies false by {
                        let whole = nonce + spec_aes_seal(self.key(), nonce, encode_utf8(pt));
                        assert(decoded@ =~= whole.subrange(0, 12) && decoded@ =~= nonce);
                        assert(sealed@ =~= spec_aes_seal(self.key(), nonce, encode_utf8(pt)));
                        assert(opened@ == encode_utf8(pt));
                        assert(valid_utf8(encode_utf8(pt)));
                    }
                }
                Err(CryptoError::InvalidUtf8)
            },
        }
    }
}

} // verus!
