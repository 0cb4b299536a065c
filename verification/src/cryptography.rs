//! The hybrid encryption of a run: file contents go under one symmetric
//! key, and that key goes to the service under the service's public key.
//!
//! The ciphers themselves are those of the `libaes` and `rsa` crates, and
//! the transport encoding is that of `base64`. What they compute is named
//! here, not proved; what this module does with their results is proved.

use vstd::prelude::*;
use vstd::string::*;
use vstd::slice::*;
use base64::Engine;
use pkcs8::DecodePublicKey;
use rsa::traits::PublicKeyParts;

verus! {

/// Size in bytes of the modulus of the only public keys that are accepted:
/// 4096 bits.
pub const RSA_4096_MODULUS_BYTES: usize = 512;

/// Bytes that OAEP with SHA-256 adds to a message: two hashes and two more.
pub const OAEP_SHA256_OVERHEAD: usize = 66;

/// The AES-256 ciphertext of `data` in CBC mode with PKCS#7 padding, as
/// `libaes` computes it.
pub uninterp spec fn aes256_cbc(key: Seq<u8>, iv: Seq<u8>, data: Seq<u8>) -> Seq<u8>;

/// The standard base64 text of `data`, with padding, as `base64` writes it.
pub uninterp spec fn base64_standard(data: Seq<u8>) -> Seq<char>;

/// The size in bytes of the modulus of the RSA public key that a PEM text
/// holds, or `None` where the text holds no such key.
pub uninterp spec fn pem_modulus_len(pem: Seq<char>) -> Option<nat>;

#[verifier::external_type_specification]
#[verifier::external_body]
pub struct ExRsaPublicKey(rsa::RsaPublicKey);

#[verifier::external_type_specification]
#[verifier::external_body]
pub struct ExSpkiError(pkcs8::spki::Error);

#[verifier::external_type_specification]
#[verifier::external_body]
pub struct ExRsaError(rsa::Error);

/// Why key material could not be wrapped.
#[derive(Debug, Clone, Copy, PartialEq, Eq, Structural)]
pub enum CryptographyError {
    /// The text holds no RSA public key.
    InvalidPublicKey,
    /// The key's modulus does not have 4096 bits; it has `bits`.
    InvalidKeySize { bits: usize },
    /// The cipher refused the message.
    EncryptionFailed,
}

/// A parsed public key of the service, with the size of its modulus.
pub struct WrappingKey {
    key: rsa::RsaPublicKey,
    size: usize,
}

impl WrappingKey {
    /// Size of the modulus in bytes.
    pub closed spec fn modulus_len(&self) -> usize {
        self.size
    }
}

/// The symmetric key and the initialisation vector of one run.
#[derive(Debug, Clone, Copy)]
pub struct EncryptionContext {
    pub symmetric_key: [u8; 32],
    pub iv: [u8; 16],
}

/// The wrapped representations of a run's key and initialisation vector.
#[derive(Debug)]
pub struct WrappedKeyMaterial {
    pub client_encrypted_key: String,
    pub client_encrypted_iv: String,
}

/// Calls `libaes::Cipher::new_256` and `Cipher::cbc_encrypt`. The result is
/// named; of its content nothing more is claimed than its length, which the
/// padding fixes: the input's length rounded up to the next multiple of the
/// block size, a whole block being added where it is a multiple already.
#[verifier::external_body]
fn cbc_encrypt_256(key: &[u8; 32], iv: &[u8; 16], data: &[u8]) -> (out: Vec<u8>)
    requires
        data@.len() + 16 <= usize::MAX,
    ensures
        out@ == aes256_cbc(key@, iv@, data@),
        out@.len() == (data@.len() / 16 + 1) * 16,
{
    libaes::Cipher::new_256(key).cbc_encrypt(iv, data)
}

/// The number of characters of the standard base64 text of `len` bytes:
/// four for every three bytes, the last group filled up.
pub open spec fn base64_len(len: nat) -> nat {
    (len + 2) / 3 * 4
}

/// Calls `encode` of `base64::engine::general_purpose::STANDARD`. The
/// result is named. Of its content two things are stated that the encoding
/// fixes: its length, and that all its characters are ASCII. The call
/// panics where the length of the text does not fit the machine's word, so
/// such inputs are left out.
#[verifier::external_body]
fn base64_encode(data: &[u8]) -> (out: String)
    requires
        (data@.len() / 3) * 4 + 4 <= usize::MAX,
    ensures
        out@ == base64_standard(data@),
        out@.len() == base64_len(data@.len()),
        vstd::utf8::is_ascii_chars(out@),
{
    base64::engine::general_purpose::STANDARD.encode(data)
}

/// Calls `RsaPublicKey::from_public_key_pem` and, on the key that it gives,
/// `size`. Whether the text parses and how large the modulus is depend on
/// the text alone and are named.
#[verifier::external_body]
fn parse_public_key(pem: &str) -> (out: Result<WrappingKey, pkcs8::spki::Error>)
    ensures
        match out {
            Ok(key) => pem_modulus_len(pem@) == Some(key.modulus_len() as nat),
            Err(_) => pem_modulus_len(pem@) is None,
        },
{
    let key = rsa::RsaPublicKey::from_public_key_pem(pem)?;
    let size = key.size();
    Ok(WrappingKey { key, size })
}

/// Calls `RsaPublicKey::encrypt` with OAEP over SHA-256 and the operating
/// system's random source. The ciphertext differs from call to call, so
/// only what holds of each is stated: it is as long as the modulus. The
/// call succeeds exactly on the messages that the padding has room for:
/// the length of the message is all that it tests on a key that was
/// parsed.
#[verifier::external_body]
fn oaep_sha256_encrypt(key: &WrappingKey, message: &[u8]) -> (out: Result<Vec<u8>, rsa::Error>)
    ensures
        out matches Ok(ciphertext) ==> ciphertext@.len() == key.modulus_len(),
        out is Ok <==> message@.len() + OAEP_SHA256_OVERHEAD <= key.modulus_len(),
{
    let mut rng = rand::rngs::OsRng;
    key.key.encrypt(&mut rng, rsa::Oaep::new::<rsa::sha2::Sha256>(), message)
}

/// Calls `rand::random` for a fresh symmetric key.
#[verifier::external_body]
fn random_key() -> (key: [u8; 32]) {
    rand::random::<[u8; 32]>()
}

/// Calls `rand::random` for a fresh initialisation vector.
#[verifier::external_body]
fn random_iv() -> (iv: [u8; 16]) {
    rand::random::<[u8; 16]>()
}

/// The text for one decimal digit.
pub open spec fn digit_text(d: nat) -> Seq<char>
    recommends
        d < 10,
{
    if d == 0 {
        "0"@
    } else if d == 1 {
        "1"@
    } else if d == 2 {
        "2"@
    } else if d == 3 {
        "3"@
    } else if d == 4 {
        "4"@
    } else if d == 5 {
        "5"@
    } else if d == 6 {
        "6"@
    } else if d == 7 {
        "7"@
    } else if d == 8 {
        "8"@
    } else {
        "9"@
    }
}

/// The decimal text of a number, without leading zeros.
pub open spec fn decimal_text(n: nat) -> Seq<char>
    decreases n,
{
    if n < 10 {
        digit_text(n)
    } else {
        decimal_text(n / 10) + digit_text(n % 10)
    }
}

fn digit_str(d: usize) -> (text: &'static str)
    requires
        d < 10,
    ensures
        text@ == digit_text(d as nat),
{
    if d == 0 {
        "0"
    } else if d == 1 {
        "1"
    } else if d == 2 {
        "2"
    } else if d == 3 {
        "3"
    } else if d == 4 {
        "4"
    } else if d == 5 {
        "5"
    } else if d == 6 {
        "6"
    } else if d == 7 {
        "7"
    } else if d == 8 {
        "8"
    } else {
        "9"
    }
}

/// Writes a number in decimal.
pub fn to_decimal(n: usize) -> (text: String)
    ensures
        text@ == decimal_text(n as nat),
    decreases n,
{
    if n < 10 {
        String::from_str(digit_str(n))
    } else {
        to_decimal(n / 10).concat(digit_str(n % 10))
    }
}

/// The sentence that describes an error.
pub open spec fn error_text(error: CryptographyError) -> Seq<char> {
    match error {
        CryptographyError::InvalidPublicKey => "Invalid RSA public key"@,
        CryptographyError::InvalidKeySize { bits } => "Invalid RSA-4096 key. Current key size: "@
            + decimal_text(bits as nat) + " bits"@,
        CryptographyError::EncryptionFailed => "RSA encryption failed"@,
    }
}

impl CryptographyError {
    /// The sentence that describes the error. For a key of the wrong size
    /// it names the size that the key has, in bits.
    pub fn message(&self) -> (text: String)
        ensures
            text@ == error_text(*self),
    {
        match self {
            CryptographyError::InvalidPublicKey => String::from_str("Invalid RSA public key"),
            CryptographyError::InvalidKeySize { bits } => {
                let number = to_decimal(*bits);
                String::from_str("Invalid RSA-4096 key. Current key size: ").concat(
                    number.as_str(),
                ).concat(" bits")
            },
            CryptographyError::EncryptionFailed => String::from_str("RSA encryption failed"),
        }
    }
}

/// The largest content, in bytes, that can be encrypted and encoded on
/// this machine.
pub open spec fn max_content_len() -> nat {
    (usize::MAX / 2) as nat
}

/// Encrypts a text under the run's key in CBC mode.
pub fn encrypt_aes_256(key: &[u8; 32], iv: &[u8; 16], message: &str) -> (out: Vec<u8>)
    requires
        message.spec_bytes().len() <= max_content_len(),
    ensures
        out@ == aes256_cbc(key@, iv@, message.spec_bytes()),
        out@.len() == (message.spec_bytes().len() / 16 + 1) * 16,
{
    cbc_encrypt_256(key, iv, message.as_bytes())
}

/// The size in bits of a modulus of `modulus_len` bytes, or the largest
/// number of the machine where the size is larger still.
pub open spec fn key_bits(modulus_len: nat) -> usize {
    if modulus_len * 8 <= usize::MAX {
        (modulus_len * 8) as usize
    } else {
        usize::MAX
    }
}

/// What becomes of a public key's size: only 4096-bit keys pass.
pub open spec fn key_size_verdict(modulus_len: nat) -> Result<(), CryptographyError> {
    if modulus_len == RSA_4096_MODULUS_BYTES {
        Ok(())
    } else {
        Err(CryptographyError::InvalidKeySize { bits: key_bits(modulus_len) })
    }
}

/// Accepts a public key by the size of its modulus, before anything is
/// encrypted under it.
pub fn check_key_size(modulus_len: usize) -> (out: Result<(), CryptographyError>)
    ensures
        out == key_size_verdict(modulus_len as nat),
{
    if modulus_len != RSA_4096_MODULUS_BYTES {
        let bits: usize = if modulus_len > usize::MAX / 8 {
            usize::MAX
        } else {
            modulus_len * 8
        };
        Err(CryptographyError::InvalidKeySize { bits })
    } else {
        Ok(())
    }
}

/// The transport form of what the cipher gave: the encoded ciphertext, or
/// the error that takes its place where the cipher gave none, or one that
/// is too large to encode on this machine.
pub open spec fn transport_form(ciphertext: Option<Seq<u8>>) -> Result<Seq<char>, CryptographyError> {
    match ciphertext {
        Some(bytes) => if bytes.len() <= max_content_len() {
            Ok(base64_standard(bytes))
        } else {
            Err(CryptographyError::EncryptionFailed)
        },
        None => Err(CryptographyError::EncryptionFailed),
    }
}

/// The text of a result.
pub open spec fn text_of(out: Result<String, CryptographyError>) -> Result<
    Seq<char>,
    CryptographyError,
> {
    match out {
        Ok(text) => Ok(text@),
        Err(error) => Err(error),
    }
}

/// Puts the cipher's result into its transport form: a ciphertext is
/// encoded, a refusal is reported.
pub fn encode_ciphertext(ciphertext: Option<Vec<u8>>) -> (out: Result<String, CryptographyError>)
    ensures
        text_of(out) == transport_form(
            match ciphertext {
                Some(bytes) => Some(bytes@),
                None => None,
            },
        ),
        match (out, ciphertext) {
            (Ok(text), Some(bytes)) => text@.len() == base64_len(bytes@.len()),
            _ => true,
        },
{
    match ciphertext {
        Some(bytes) => if bytes.len() <= usize::MAX / 2 {
            Ok(base64_encode(bytes.as_slice()))
        } else {
            Err(CryptographyError::EncryptionFailed)
        },
        None => Err(CryptographyError::EncryptionFailed),
    }
}

/// What the check of a public key says before anything is encrypted.
pub open spec fn key_verdict(pem: Seq<char>) -> Result<(), CryptographyError> {
    match pem_modulus_len(pem) {
        None => Err(CryptographyError::InvalidPublicKey),
        Some(len) => key_size_verdict(len),
    }
}

/// The text is the transport form of a ciphertext as long as the
/// modulus of a 4096-bit key: 684 characters that decode to 512 bytes.
pub open spec fn is_wrapped_value(text: Seq<char>) -> bool {
    &&& text.len() == base64_len(RSA_4096_MODULUS_BYTES as nat)
    &&& exists|ciphertext: Seq<u8>|
        ciphertext.len() == RSA_4096_MODULUS_BYTES && text == #[trigger] base64_standard(
            ciphertext,
        )
}

/// A message of this length has room in the padding under a 4096-bit key.
pub open spec fn fits_padding(len: nat) -> bool {
    len + OAEP_SHA256_OVERHEAD <= RSA_4096_MODULUS_BYTES
}

/// Wrapping succeeds under this key for a message of this length: the text
/// holds a 4096-bit key, and the message has room in the padding.
pub open spec fn wraps(pem: Seq<char>, len: nat) -> bool {
    key_verdict(pem) is Ok && fits_padding(len)
}

/// What holds of every outcome of wrapping under the key that `pem`
/// holds. Where the text holds no key, or a key that is not a 4096-bit
/// key, the outcome is that error and nothing was encrypted. Under a
/// 4096-bit key the outcome is a wrapped value, or the cipher's refusal.
pub open spec fn is_wrapping(pem: Seq<char>, out: Result<Seq<char>, CryptographyError>) -> bool {
    match key_verdict(pem) {
        Err(error) => out == Err::<Seq<char>, CryptographyError>(error),
        Ok(()) => match out {
            Ok(text) => is_wrapped_value(text),
            Err(error) => error == CryptographyError::EncryptionFailed,
        },
    }
}

/// Wraps `message` under the public key that `public_key_pem` holds and
/// encodes the ciphertext. The key is parsed and its size checked first, so
/// that nothing is encrypted under a key that is not a 4096-bit key. Under
/// such a key every message that the padding has room for is wrapped, and
/// no other. The ciphertext is as long as the modulus.
fn encrypt_rsa4096_base64_internal(public_key_pem: &str, encoded_message: &[u8]) -> (out: Result<
    String,
    CryptographyError,
>)
    ensures
        is_wrapping(public_key_pem@, text_of(out)),
        out is Ok <==> wraps(public_key_pem@, encoded_message@.len()),
{
    let public_key = match parse_public_key(public_key_pem) {
        Ok(key) => key,
        Err(_) => {
            return Err(CryptographyError::InvalidPublicKey);
        },
    };
    let key_size = modulus_size(&public_key);
    match check_key_size(key_size) {
        Err(error) => {
            return Err(error);
        },
        Ok(()) => {},
    }
    match oaep_sha256_encrypt(&public_key, encoded_message) {
        Ok(ciphertext) => {
            let ghost bytes = ciphertext@;
            let out = encode_ciphertext(Some(ciphertext));
            assert(text_of(out) == Ok::<Seq<char>, CryptographyError>(base64_standard(bytes)));
            out
        },
        Err(_) => encode_ciphertext(None),
    }
}

/// Checks the service's public key before any file is touched: it must
/// parse, and its modulus must have exactly 4096 bits.
pub fn check_public_key(public_key_pem: &str) -> (out: Result<(), CryptographyError>)
    ensures
        out == key_verdict(public_key_pem@),
{
    match parse_public_key(public_key_pem) {
        Ok(key) => check_key_size(modulus_size(&key)),
        Err(_) => Err(CryptographyError::InvalidPublicKey),
    }
}

/// Under a public key whose modulus does not have exactly 512 bytes no
/// wrapping succeeds: the only outcome is the error that names the size of
/// the key, and the check before the scan gives the same error.
pub proof fn wrong_key_size_is_rejected(
    pem: Seq<char>,
    len: nat,
    out: Result<Seq<char>, CryptographyError>,
)
    requires
        pem_modulus_len(pem) == Some(len),
        len != RSA_4096_MODULUS_BYTES,
        is_wrapping(pem, out),
    ensures
        out == Err::<Seq<char>, CryptographyError>(
            CryptographyError::InvalidKeySize { bits: key_bits(len) },
        ),
        key_verdict(pem) == Err::<(), CryptographyError>(
            CryptographyError::InvalidKeySize { bits: key_bits(len) },
        ),
{
}

impl EncryptionContext {
    /// A fresh key and initialisation vector from the system's secure
    /// random source. Each run generates its own and keeps them to itself.
    pub fn generate() -> (context: Self) {
        EncryptionContext { symmetric_key: random_key(), iv: random_iv() }
    }

    /// The transport form of a text's ciphertext under this context.
    pub open spec fn sealed(&self, content: Seq<char>) -> Seq<char> {
        sealed_text(self.symmetric_key@, self.iv@, content)
    }

    /// Encrypts a file's content under this context and encodes it for
    /// transport.
    pub fn encrypt_content(&self, content: &str) -> (out: String)
        requires
            content.spec_bytes().len() <= max_content_len(),
        ensures
            out@ == self.sealed(content@),
    {
        seal(&self.symmetric_key, &self.iv, content)
    }

    /// Wraps the key and the initialisation vector under the service's
    /// public key. Under a 4096-bit key both are wrapped, for both have
    /// room in the padding; under any other the key's error is returned and
    /// nothing is wrapped.
    pub fn wrap(&self, public_key_pem: &str) -> (out: Result<WrappedKeyMaterial, CryptographyError>)
        ensures
            match out {
                Ok(wrapped) => is_wrapped_value(wrapped.client_encrypted_key@)
                    && is_wrapped_value(wrapped.client_encrypted_iv@),
                Err(error) => key_verdict(public_key_pem@) == Err::<(), CryptographyError>(error),
            },
            out is Ok <==> key_verdict(public_key_pem@) is Ok,
    {
        let client_encrypted_iv = match encrypt_rsa4096_base64_bytes(public_key_pem, self.iv.as_slice()) {
            Ok(text) => text,
            Err(error) => {
                return Err(error);
            },
        };
        let client_encrypted_key = match encrypt_rsa4096_base64_bytes(
            public_key_pem,
            self.symmetric_key.as_slice(),
        ) {
            Ok(text) => text,
            Err(error) => {
                return Err(error);
            },
        };
        Ok(WrappedKeyMaterial { client_encrypted_key, client_encrypted_iv })
    }
}

/// The transport form of a text's ciphertext: the text's bytes, encrypted
/// and then encoded.
pub open spec fn sealed_text(key: Seq<u8>, iv: Seq<u8>, content: Seq<char>) -> Seq<char> {
    base64_standard(aes256_cbc(key, iv, vstd::utf8::encode_utf8(content)))
}

/// Encrypts a text under the key and encodes the ciphertext for transport.
pub fn seal(key: &[u8; 32], iv: &[u8; 16], content: &str) -> (out: String)
    requires
        content.spec_bytes().len() <= max_content_len(),
    ensures
        out@ == sealed_text(key@, iv@, content@),
{
    let ciphertext = encrypt_aes_256(key, iv, content);
    base64_encode(ciphertext.as_slice())
}

/// The size of a parsed key's modulus, in bytes.
pub fn modulus_size(key: &WrappingKey) -> (size: usize)
    ensures
        size == key.modulus_len(),
{
    key.size
}

/// Wraps a text: the text is encoded in base64 first, and the encoded
/// text is what is encrypted. Under a 4096-bit key the text is wrapped
/// exactly when its encoding has room in the padding.
pub fn encrypt_rsa4096_base64(public_key_pem: &str, message: &str) -> (out: Result<
    String,
    CryptographyError,
>)
    ensures
        is_wrapping(public_key_pem@, text_of(out)),
        out is Ok <==> wraps(public_key_pem@, base64_len(message.spec_bytes().len())),
{
    let bytes = message.as_bytes();
    if bytes.len() > usize::MAX / 2 {
        return match check_public_key(public_key_pem) {
            Ok(()) => Err(CryptographyError::EncryptionFailed),
            Err(error) => Err(error),
        };
    }
    let encoded_message = base64_encode(bytes);
    proof {
        vstd::utf8::is_ascii_chars_encode_utf8(encoded_message@);
    }
    encrypt_rsa4096_base64_internal(public_key_pem, encoded_message.as_str().as_bytes())
}

/// Wraps raw bytes, such as the run's key or its initialisation vector.
/// Under a 4096-bit key the bytes are wrapped exactly when they have room
/// in the padding.
pub fn encrypt_rsa4096_base64_bytes(public_key_pem: &str, message: &[u8]) -> (out: Result<
    String,
    CryptographyError,
>)
    ensures
        is_wrapping(public_key_pem@, text_of(out)),
        out is Ok <==> wraps(public_key_pem@, message@.len()),
{
    encrypt_rsa4096_base64_internal(public_key_pem, message)
}

} // verus!
