//! Sealing a request: a fresh key, the request under that key, and the key
//! wrapped for the marketplace.
//!
//! The ciphers are those of the `aes`, `block-modes`, `rsa`, `openssl`,
//! `base64` and `rand` crates. What they compute is named here, not written
//! out; what is proved is what this library does with their results.

use crate::api::SealedPayload;
use base64::Engine;
use block_modes::BlockMode;
use rand::Rng;
use rsa::pkcs8::DecodePublicKey;
use crate::api::is_prefix;
use crate::text::starts_with;
use vstd::prelude::*;
use vstd::string::*;
use vstd::utf8::is_ascii_chars;

verus! {

/// Why a request could not be sealed, or a sealed text not opened.
#[derive(Debug)]
pub enum CryptoError {
    /// The key of the marketplace is not given as a public key in PEM form.
    InvalidPem,
    /// The key for AES is not sixteen bytes long.
    KeyLength,
    /// What was to be opened is not whole blocks, or is not padded as sealed
    /// text is.
    Padding,
    /// The text is not base64.
    Base64,
    /// The message is longer than can be handed to the cipher.
    MessageTooLong,
    /// The public key could not be read, or could not take the message.
    Rsa { message: String },
}

/// How a public key in PEM form begins.
pub open spec fn pem_header() -> Seq<char> {
    "-----BEGIN PUBLIC KEY-----"@
}

/// The length of a key for AES-128, in bytes.
pub const AES_KEY_LENGTH: usize = 16;

/// Whether `c` is an ASCII letter or digit.
pub open spec fn is_alphanumeric(c: char) -> bool {
    ('0' <= c && c <= '9') || ('a' <= c && c <= 'z') || ('A' <= c && c <= 'Z')
}

/// Draws a key of `length` characters with `rand::thread_rng`, each character
/// from `rand::distributions::Alphanumeric`. Which characters come is chance;
/// they are `length` ASCII letters and digits.
#[verifier::external_body]
pub fn random_key(length: usize) -> (key: String)
    ensures
        key@.len() == length,
        forall|i: int| 0 <= i < key@.len() ==> is_alphanumeric(#[trigger] key@[i]),
{
    rand::thread_rng().sample_iter(&rand::distributions::Alphanumeric).take(length).map(
        char::from,
    ).collect()
}

/// The base64 text of `bytes`, in the standard alphabet, with padding.
pub uninterp spec fn base64_standard(bytes: Seq<u8>) -> Seq<char>;

/// The bytes that the base64 text `text` stands for; `None` where `text` is
/// not base64 in the standard alphabet with padding.
pub uninterp spec fn base64_standard_decoded(text: Seq<char>) -> Option<Seq<u8>>;

/// Writes `input` as base64 with `base64::engine::general_purpose::STANDARD`
/// and `base64::Engine::encode`. The text is what that engine gives for these
/// bytes.
#[verifier::external_body]
pub fn base64_encode(input: &[u8]) -> (text: String)
    ensures
        text@ == base64_standard(input@),
{
    base64::engine::general_purpose::STANDARD.encode(input)
}

/// Reads base64 with `base64::engine::general_purpose::STANDARD` and
/// `base64::Engine::decode`: the bytes that engine gives for this text, and
/// `None` exactly when it gives an error.
#[verifier::external_body]
fn decode_standard(text: &str) -> (bytes: Option<Vec<u8>>)
    ensures
        match bytes {
            Some(b) => base64_standard_decoded(text@) == Some(b@),
            None => base64_standard_decoded(text@) is None,
        },
{
    base64::engine::general_purpose::STANDARD.decode(text).ok()
}

/// Reads base64 text.
pub fn base64_decode(plaintext: &str) -> (bytes: Result<Vec<u8>, CryptoError>)
    ensures
        match bytes {
            Ok(b) => base64_standard_decoded(plaintext@) == Some(b@),
            Err(CryptoError::Base64) => base64_standard_decoded(plaintext@) is None,
            Err(_) => false,
        },
{
    match decode_standard(plaintext) {
        Some(bytes) => Ok(bytes),
        None => Err(CryptoError::Base64),
    }
}

/// What AES-128 in ECB mode gives for `message` under `key`, `message` padded
/// to whole blocks by PKCS#7. It is used for keys of sixteen bytes.
pub uninterp spec fn aes128_ecb_pkcs7(key: Seq<u8>, message: Seq<u8>) -> Seq<u8>;

/// What opening `sealed` with AES-128 in ECB mode under `key` gives, the
/// PKCS#7 padding taken off; `None` where `sealed` is not whole blocks or the
/// padding is not as it should be. It is used for keys of sixteen bytes.
pub uninterp spec fn aes128_ecb_pkcs7_opened(key: Seq<u8>, sealed: Seq<u8>) -> Option<Seq<u8>>;

/// Seals `message` with `block_modes::Ecb<aes::Aes128, Pkcs7>`: the mode is
/// made with `BlockMode::new_from_slices` from `key` and no initial value,
/// which ECB does not have, and the message goes through
/// `BlockMode::encrypt_vec`. The mode is made exactly for keys of sixteen
/// bytes; for those the result is what that mode gives.
#[verifier::external_body]
fn aes128_ecb_seal(message: &[u8], key: &[u8]) -> (sealed: Option<Vec<u8>>)
    ensures
        sealed is Some <==> key@.len() == AES_KEY_LENGTH,
        sealed matches Some(bytes) ==> bytes@ == aes128_ecb_pkcs7(key@, message@),
{
    match block_modes::Ecb::<aes::Aes128, block_modes::block_padding::Pkcs7>::new_from_slices(
        key,
        &[],
    ) {
        Ok(cipher) => Some(cipher.encrypt_vec(message)),
        Err(_) => None,
    }
}

/// Opens `sealed` with `block_modes::Ecb<aes::Aes128, Pkcs7>`, made with
/// `BlockMode::new_from_slices` from `key` and no initial value, through
/// `BlockMode::decrypt_vec`. The key is refused exactly when it is not
/// sixteen bytes; else the result is what that mode gives, and the padding
/// error comes exactly when it gives an error.
#[verifier::external_body]
fn aes128_ecb_open(sealed: &[u8], key: &[u8]) -> (opened: Result<Vec<u8>, CryptoError>)
    ensures
        match opened {
            Ok(bytes) => key@.len() == AES_KEY_LENGTH && aes128_ecb_pkcs7_opened(key@, sealed@)
                == Some(bytes@),
            Err(CryptoError::KeyLength) => key@.len() != AES_KEY_LENGTH,
            Err(CryptoError::Padding) => key@.len() == AES_KEY_LENGTH && aes128_ecb_pkcs7_opened(
                key@,
                sealed@,
            ) is None,
            Err(_) => false,
        },
{
    match block_modes::Ecb::<aes::Aes128, block_modes::block_padding::Pkcs7>::new_from_slices(
        key,
        &[],
    ) {
        Ok(cipher) => cipher.decrypt_vec(sealed).map_err(|_| CryptoError::Padding),
        Err(_) => Err(CryptoError::KeyLength),
    }
}

/// Seals `message` under `key` with AES-128 in ECB mode. It fails exactly
/// when `key` is not sixteen bytes long.
pub fn aes_ecb_encrypt(message: &str, key: &str) -> (sealed: Result<Vec<u8>, CryptoError>)
    ensures
        match sealed {
            Ok(bytes) => key.spec_bytes().len() == AES_KEY_LENGTH && bytes@ == aes128_ecb_pkcs7(
                key.spec_bytes(),
                message.spec_bytes(),
            ),
            Err(CryptoError::KeyLength) => key.spec_bytes().len() != AES_KEY_LENGTH,
            Err(_) => false,
        },
{
    match aes128_ecb_seal(message.as_bytes(), key.as_bytes()) {
        Some(bytes) => Ok(bytes),
        None => Err(CryptoError::KeyLength),
    }
}

/// Opens `encrypted_data` under `key` with AES-128 in ECB mode. It fails when
/// `key` is not sixteen bytes long, and when `encrypted_data` is not sealed
/// text.
pub fn aes_ecb_decrypt(encrypted_data: &[u8], key: &str) -> (opened: Result<Vec<u8>, CryptoError>)
    ensures
        match opened {
            Ok(bytes) => key.spec_bytes().len() == AES_KEY_LENGTH && aes128_ecb_pkcs7_opened(
                key.spec_bytes(),
                encrypted_data@,
            ) == Some(bytes@),
            Err(CryptoError::KeyLength) => key.spec_bytes().len() != AES_KEY_LENGTH,
            Err(CryptoError::Padding) => key.spec_bytes().len() == AES_KEY_LENGTH
                && aes128_ecb_pkcs7_opened(key.spec_bytes(), encrypted_data@) is None,
            Err(_) => false,
        },
{
    aes128_ecb_open(encrypted_data, key.as_bytes())
}

/// Wraps `message` for the holder of the public key `pem`, with the `rsa`
/// crate: the key is read with `DecodePublicKey::from_public_key_pem` and the
/// message sealed with `RsaPublicKey::encrypt` under `Pkcs1v15Encrypt`, with
/// `rand::thread_rng`. The padding is drawn by chance, and whether the key
/// can be read is the crate's to say: nothing is promised of the result.
#[verifier::external_body]
fn rsa_seal(message: &[u8], pem: &str) -> (sealed: Result<Vec<u8>, String>) {
    let key = rsa::RsaPublicKey::from_public_key_pem(pem).map_err(|e| e.to_string())?;
    key.encrypt(&mut rand::thread_rng(), rsa::Pkcs1v15Encrypt, message).map_err(|e| e.to_string())
}

/// Wraps `message` for the holder of the public key `pem`, with the `openssl`
/// crate: the key is read with `Rsa::public_key_from_pem` and the message
/// sealed with `Rsa::public_encrypt` under `Padding::PKCS1`, into a buffer of
/// `Rsa::size` bytes. The padding is drawn by chance, and whether the key can
/// be read is the crate's to say: nothing is promised of the result.
/// `public_encrypt` does not take a message longer than `i32::MAX` bytes.
#[verifier::external_body]
fn openssl_rsa_seal(message: &[u8], pem: &str) -> (sealed: Result<Vec<u8>, String>)
    requires
        message@.len() <= i32::MAX,
{
    let rsa = openssl::rsa::Rsa::public_key_from_pem(pem.as_bytes()).map_err(|e| e.to_string())?;
    let mut sealed = vec![0u8; rsa.size() as usize];
    let written = rsa.public_encrypt(message, &mut sealed, openssl::rsa::Padding::PKCS1).map_err(
        |e| e.to_string(),
    )?;
    sealed.truncate(written);
    Ok(sealed)
}

/// Wraps `message` for the holder of the public key `pem`.
///
/// A `pem` that does not begin as a public key in PEM form is refused before
/// anything is computed. What the cipher gives for the others is the
/// cipher's to say.
pub fn rsa_pkcs1_encrypt(message: &str, pem: &str) -> (sealed: Result<Vec<u8>, CryptoError>)
    ensures
        !is_prefix(pem_header(), pem@) ==> sealed is Err && sealed->Err_0
            == CryptoError::InvalidPem,
        is_prefix(pem_header(), pem@) ==> (sealed matches Err(e) ==> e is Rsa),
{
    if !starts_with(pem, "-----BEGIN PUBLIC KEY-----") {
        return Err(CryptoError::InvalidPem);
    }
    match rsa_seal(message.as_bytes(), pem) {
        Ok(sealed) => Ok(sealed),
        Err(message) => Err(CryptoError::Rsa { message }),
    }
}

/// Wraps `message` for the holder of the public key `pem`, by OpenSSL.
///
/// A `pem` that does not begin as a public key in PEM form is refused before
/// anything is computed, and so is a message of more than `i32::MAX` bytes.
pub fn rsa_encrypt(message: &str, pem: &str) -> (sealed: Result<Vec<u8>, CryptoError>)
    ensures
        !is_prefix(pem_header(), pem@) ==> sealed is Err && sealed->Err_0
            == CryptoError::InvalidPem,
        is_prefix(pem_header(), pem@) && message.spec_bytes().len() > i32::MAX
            ==> sealed is Err && sealed->Err_0 == CryptoError::MessageTooLong,
        is_prefix(pem_header(), pem@) && message.spec_bytes().len() <= i32::MAX ==> (
        sealed matches Err(e) ==> e is Rsa),
{
    if !starts_with(pem, "-----BEGIN PUBLIC KEY-----") {
        return Err(CryptoError::InvalidPem);
    }
    let bytes = message.as_bytes();
    if bytes.len() > 0x7fff_ffff {
        return Err(CryptoError::MessageTooLong);
    }
    match openssl_rsa_seal(bytes, pem) {
        Ok(sealed) => Ok(sealed),
        Err(message) => Err(CryptoError::Rsa { message }),
    }
}

/// Seals the request `data` under `key` and puts it together with the key as
/// it was wrapped for the marketplace: the wrapped key and the sealed request
/// both go out as base64.
///
/// A key that is not sixteen bytes long is refused; with a key of sixteen
/// bytes the sealing never fails.
pub fn seal_under(data: &str, key: &str, wrapped: &[u8]) -> (sealed: Result<
    SealedPayload,
    CryptoError,
>)
    ensures
        key.spec_bytes().len() != AES_KEY_LENGTH ==> sealed is Err && sealed->Err_0
            == CryptoError::KeyLength,
        key.spec_bytes().len() == AES_KEY_LENGTH ==> (sealed matches Ok(payload) && payload.enc_key@
            == base64_standard(wrapped@) && payload.enc_content@ == base64_standard(
            aes128_ecb_pkcs7(key.spec_bytes(), data.spec_bytes()),
        )),
{
    let content = match aes_ecb_encrypt(data, key) {
        Ok(content) => content,
        Err(_) => {
            return Err(CryptoError::KeyLength);
        },
    };
    let enc_key = base64_encode(wrapped);
    let enc_content = base64_encode(content.as_slice());
    Ok(SealedPayload { enc_content, enc_key })
}

/// Whether `payload` is the request `data` sealed under a key of sixteen
/// letters and digits, together with that key as `wrapped` holds it.
pub open spec fn is_sealed(payload: SealedPayload, data: Seq<u8>, key: Seq<char>, wrapped: Seq<u8>)
    -> bool {
    &&& key.len() == AES_KEY_LENGTH
    &&& forall|i: int| 0 <= i < key.len() ==> is_alphanumeric(#[trigger] key[i])
    &&& payload.enc_key@ == base64_standard(wrapped)
    &&& payload.enc_content@ == base64_standard(
        aes128_ecb_pkcs7(Seq::new(key.len(), |i: int| key[i] as u8), data),
    )
}

/// Seals the request `data` for the marketplace, whose public key is `pem`:
/// a fresh key of sixteen letters and digits is drawn, the key is wrapped for
/// the marketplace, and `data` is sealed under the key by [`seal_under`].
///
/// A `pem` that does not begin as a public key in PEM form is refused, and
/// nothing else is refused here: with such a beginning the only failure is
/// that of the wrapping, which is the cipher's to say. Under the fresh key
/// the sealing never fails. What comes out on success is the request
/// under the key that was drawn, with what the wrapping gave for that key.
pub fn encrypt(data: &str, pem: &str) -> (sealed: Result<SealedPayload, CryptoError>)
    ensures
        !is_prefix(pem_header(), pem@) ==> sealed is Err && sealed->Err_0
            == CryptoError::InvalidPem,
        is_prefix(pem_header(), pem@) ==> (sealed matches Err(e) ==> e is Rsa),
        sealed matches Ok(payload) ==> exists|key: Seq<char>, wrapped: Seq<u8>|
            #[trigger] is_sealed(payload, data.spec_bytes(), key, wrapped),
{
    broadcast use vstd::string::is_ascii_spec_bytes;

    let fresh = random_key(AES_KEY_LENGTH);
    let key: &str = fresh.as_str();
    let wrapped = match rsa_pkcs1_encrypt(key, pem) {
        Ok(wrapped) => wrapped,
        Err(e) => {
            return Err(e);
        },
    };
    proof {
        assert(is_ascii_chars(key@)) by {
            assert forall|i: int| 0 <= i < key@.len() implies '\0' <= #[trigger] key@[i]
                <= '\u{7f}' by {
                assert(is_alphanumeric(key@[i]));
            }
        }
        assert(vstd::string::is_ascii(key));
        assert(key.spec_bytes() =~= Seq::new(key@.len(), |i: int| key@[i] as u8));
    }
    let sealed = seal_under(data, key, wrapped.as_slice());
    proof {
        if sealed is Ok {
            assert(is_sealed(sealed->Ok_0, data.spec_bytes(), key@, wrapped@));
        }
    }
    sealed
}

} // verus!
