//! Encryption of single configuration fields: ChaCha20-Poly1305 under one
//! key per installation, a fresh nonce per value, and the result as
//! unpadded URL-safe Base64 of the nonce followed by the ciphertext.

use crate::config::error::ConfigError;
use base64::Engine;
use chacha20poly1305::aead::Aead;
use chacha20poly1305::KeyInit;
use rand::Rng;
use vstd::prelude::*;
use vstd::string::StringSliceAdditionalSpecFns;

verus! {

/// Length of the key, in bytes.
pub const KEY_LENGTH: usize = 32;

/// Length of a nonce, in bytes.
pub const NONCE_LENGTH: usize = 12;

/// Length of the authentication tag, in bytes.
pub const TAG_LENGTH: usize = 16;

/// The value of one hexadecimal digit, given as its ASCII code.
pub open spec fn hex_value(digit: u8) -> Option<u8> {
    if 0x30 <= digit <= 0x39 {
        Some((digit - 0x30) as u8)
    } else if 0x41 <= digit <= 0x46 {
        Some((digit - 0x41 + 10) as u8)
    } else if 0x61 <= digit <= 0x66 {
        Some((digit - 0x61 + 10) as u8)
    } else {
        None
    }
}

/// The bytes that a hexadecimal text stands for, two digits a byte, upper
/// and lower case alike; `None` for a digit that is none and for an odd
/// number of digits.
pub open spec fn hex_decoded(text: Seq<u8>) -> Option<Seq<u8>>
    decreases text.len(),
{
    if text.len() == 0 {
        Some(Seq::empty())
    } else if text.len() == 1 {
        None
    } else {
        match (hex_value(text[0]), hex_value(text[1]), hex_decoded(text.skip(2))) {
            (Some(high), Some(low), Some(rest)) => Some(seq![(high * 16 + low) as u8] + rest),
            _ => None,
        }
    }
}

/// Hexadecimal text holds two digits for every byte that it stands for: a
/// key of [`KEY_LENGTH`] bytes is written in 64 digits.
pub proof fn lemma_hex_text_length(text: Seq<u8>)
    ensures
        hex_decoded(text) matches Some(bytes) ==> text.len() == 2 * bytes.len(),
    decreases text.len(),
{
    if text.len() >= 2 {
        lemma_hex_text_length(text.skip(2));
    }
}

/// The ciphertext, tag included, of `plaintext` under `key` and `nonce`;
/// `None` where the cipher refuses.
pub uninterp spec fn sealed(key: Seq<u8>, nonce: Seq<u8>, plaintext: Seq<u8>) -> Option<Seq<u8>>;

/// The plaintext of `ciphertext` under `key` and `nonce`; `None` where the
/// ciphertext is not authentic.
pub uninterp spec fn opened(key: Seq<u8>, nonce: Seq<u8>, ciphertext: Seq<u8>) -> Option<Seq<u8>>;

/// The unpadded URL-safe Base64 text of `bytes`.
pub uninterp spec fn base64_text(bytes: Seq<u8>) -> Seq<char>;

/// The bytes that an unpadded URL-safe Base64 text stands for, or the
/// decoder's complaint.
pub uninterp spec fn base64_bytes(text: Seq<char>) -> Result<Seq<u8>, Seq<char>>;

/// Decodes hexadecimal text with `hex::decode`.
///
/// Trusted: the result is what [`hex_decoded`] says of the text's bytes,
/// which is how the crate's source reads: an odd length is refused, and
/// each pair of digits gives one byte, high digit first.
#[verifier::external_body]
fn decode_hex(text: &str) -> (bytes: Option<Vec<u8>>)
    ensures
        match bytes {
            Some(decoded) => hex_decoded(text.spec_bytes()) == Some(decoded@),
            None => hex_decoded(text.spec_bytes()) is None,
        },
{
    hex::decode(text).ok()
}

/// Fills a nonce with `rand::Rng::fill` on `rand::thread_rng()`.
///
/// Trusted: the result has [`NONCE_LENGTH`] bytes. Which bytes is chance.
#[verifier::external_body]
fn fresh_nonce() -> (nonce: Vec<u8>)
    ensures
        nonce@.len() == NONCE_LENGTH,
{
    let mut bytes = [0u8; NONCE_LENGTH];
    rand::thread_rng().fill(&mut bytes);
    bytes.to_vec()
}

/// Encrypts with `chacha20poly1305::ChaCha20Poly1305`, through
/// `aead::Aead::encrypt`.
///
/// Trusted: the result is taken to be a function of key, nonce and
/// plaintext, named [`sealed`]. The lengths asked for are those outside of
/// which the crate's `from_slice` panics.
#[verifier::external_body]
fn seal(key: &Vec<u8>, nonce: &Vec<u8>, plaintext: &[u8]) -> (ciphertext: Option<Vec<u8>>)
    requires
        key@.len() == KEY_LENGTH,
        nonce@.len() == NONCE_LENGTH,
    ensures
        match ciphertext {
            Some(bytes) => sealed(key@, nonce@, plaintext@) == Some(bytes@),
            None => sealed(key@, nonce@, plaintext@) is None,
        },
{
    let cipher = chacha20poly1305::ChaCha20Poly1305::new(chacha20poly1305::Key::from_slice(key));
    cipher.encrypt(chacha20poly1305::Nonce::from_slice(nonce), plaintext).ok()
}

/// Decrypts with `chacha20poly1305::ChaCha20Poly1305`, through
/// `aead::Aead::decrypt`.
///
/// Trusted: the result is taken to be a function of key, nonce and
/// ciphertext, named [`opened`].
#[verifier::external_body]
fn open(key: &Vec<u8>, nonce: &Vec<u8>, ciphertext: &Vec<u8>) -> (plaintext: Option<Vec<u8>>)
    requires
        key@.len() == KEY_LENGTH,
        nonce@.len() == NONCE_LENGTH,
    ensures
        match plaintext {
            Some(bytes) => opened(key@, nonce@, ciphertext@) == Some(bytes@),
            None => opened(key@, nonce@, ciphertext@) is None,
        },
{
    let cipher = chacha20poly1305::ChaCha20Poly1305::new(chacha20poly1305::Key::from_slice(key));
    cipher.decrypt(chacha20poly1305::Nonce::from_slice(nonce), ciphertext.as_slice()).ok()
}

/// Encodes with `base64::Engine::encode` of
/// `base64::engine::general_purpose::URL_SAFE_NO_PAD`.
///
/// Trusted: the result is taken to be a function of the bytes, named
/// [`base64_text`]. The bound keeps the length of the text within `usize`,
/// beyond which the crate panics.
#[verifier::external_body]
fn encode_base64(bytes: &Vec<u8>) -> (text: String)
    requires
        bytes@.len() <= usize::MAX / 2,
    ensures
        text@ == base64_text(bytes@),
{
    base64::engine::general_purpose::URL_SAFE_NO_PAD.encode(bytes)
}

/// Decodes with `base64::Engine::decode` of
/// `base64::engine::general_purpose::URL_SAFE_NO_PAD`; a failure is given
/// as the text of the crate's error.
///
/// Trusted: the result is taken to be a function of the text, named
/// [`base64_bytes`].
#[verifier::external_body]
fn decode_base64(text: &str) -> (bytes: Result<Vec<u8>, String>)
    ensures
        match bytes {
            Ok(decoded) => base64_bytes(text@) == Ok::<Seq<u8>, Seq<char>>(decoded@),
            Err(complaint) => base64_bytes(text@) == Err::<Seq<u8>, Seq<char>>(complaint@),
        },
{
    match base64::engine::general_purpose::URL_SAFE_NO_PAD.decode(text) {
        Ok(decoded) => Ok(decoded),
        Err(error) => Err(error.to_string()),
    }
}

/// Reads bytes as UTF-8 with `String::from_utf8`; a failure is given as the
/// text of the error.
///
/// Trusted: the bytes are accepted exactly where they are valid UTF-8, and
/// the string then holds the characters that they encode. Nothing is
/// claimed of the text of a failure.
#[verifier::external_body]
fn read_utf8(bytes: Vec<u8>) -> (text: Result<String, String>)
    ensures
        match text {
            Ok(read) => vstd::utf8::valid_utf8(bytes@) && read@ == vstd::utf8::decode_utf8(
                bytes@,
            ),
            Err(_) => !vstd::utf8::valid_utf8(bytes@),
        },
{
    match String::from_utf8(bytes) {
        Ok(read) => Ok(read),
        Err(error) => Err(error.to_string()),
    }
}

/// The bytes of `whole` from `from` up to `to`.
fn bytes_between(whole: &Vec<u8>, from: usize, to: usize) -> (part: Vec<u8>)
    requires
        from <= to <= whole@.len(),
    ensures
        part@ == whole@.subrange(from as int, to as int),
{
    let mut part: Vec<u8> = Vec::new();
    let mut i: usize = from;
    while i < to
        invariant
            from <= i <= to <= whole@.len(),
            part@ == whole@.subrange(from as int, i as int),
        decreases to - i,
    {
        part.push(whole[i]);
        assert(whole@.subrange(from as int, i + 1) =~= whole@.subrange(from as int, i as int).push(
            whole@[i as int],
        ));
        i += 1;
    }
    part
}

/// `head` followed by `tail`.
fn joined_bytes(head: &Vec<u8>, tail: &Vec<u8>) -> (whole: Vec<u8>)
    ensures
        whole@ == head@ + tail@,
{
    let mut whole: Vec<u8> = Vec::new();
    let mut i: usize = 0;
    while i < head.len()
        invariant
            i <= head@.len(),
            whole@ == head@.take(i as int),
        decreases head.len() - i,
    {
        whole.push(head[i]);
        assert(head@.take(i + 1) =~= head@.take(i as int).push(head@[i as int]));
        i += 1;
    }
    assert(head@.take(head@.len() as int) =~= head@);
    let mut j: usize = 0;
    while j < tail.len()
        invariant
            j <= tail@.len(),
            whole@ == head@ + tail@.take(j as int),
        decreases tail.len() - j,
    {
        whole.push(tail[j]);
        assert(head@ + tail@.take(j + 1) =~= (head@ + tail@.take(j as int)).push(tail@[j as int]));
        j += 1;
    }
    assert(tail@.take(tail@.len() as int) =~= tail@);
    whole
}

/// The place of the installation's encryption key: empty until the key has
/// been set, and set once.
pub struct KeySlot {
    key: Option<Vec<u8>>,
}

impl View for KeySlot {
    type V = Option<Seq<u8>>;

    closed spec fn view(&self) -> Option<Seq<u8>> {
        match self.key {
            Some(key) => Some(key@),
            None => None,
        }
    }
}

/// Whether `result` is the error `KeyGenerationError` with `message`.
pub open spec fn is_key_error<T>(result: Result<T, ConfigError>, message: Seq<char>) -> bool {
    result matches Err(ConfigError::KeyGenerationError(text)) && text@ == message
}

/// Whether `result` and `after` are what setting the key from `key_hex`
/// comes to. The text must be there, be hexadecimal and give
/// [`KEY_LENGTH`] bytes, and no key may be set yet; each failure leaves the
/// slot as it was.
pub open spec fn sets_key(
    before: Option<Seq<u8>>,
    key_hex: Option<Seq<u8>>,
    result: Result<(), ConfigError>,
    after: Option<Seq<u8>>,
) -> bool {
    match key_hex {
        None => is_key_error(result, "Missing APP_ENCRYPTION_KEY"@) && after == before,
        Some(text) => match hex_decoded(text) {
            None => is_key_error(result, "Invalid hex key"@) && after == before,
            Some(raw) => if raw.len() != KEY_LENGTH {
                is_key_error(result, "Invalid key length (expected 32 bytes)"@) && after == before
            } else if before is Some {
                is_key_error(result, "Key already initialized"@) && after == before
            } else {
                result is Ok && after == Some(raw)
            },
        },
    }
}

/// Whether `result` is the error `EncryptionError` that says that
/// encrypting failed.
pub open spec fn is_encryption_failure(result: Result<String, ConfigError>) -> bool {
    result matches Err(ConfigError::EncryptionError(message)) && message@ == "Encryption failed"@
}

/// Whether `result` is what encrypting `data` under `key` with `nonce`
/// comes to: the Base64 text of the nonce followed by the ciphertext. A
/// nonce of another length than [`NONCE_LENGTH`] fails, as does a
/// ciphertext too long to be encoded.
pub open spec fn encrypts(
    key: Seq<u8>,
    nonce: Seq<u8>,
    data: Seq<u8>,
    result: Result<String, ConfigError>,
) -> bool {
    if nonce.len() != NONCE_LENGTH {
        is_encryption_failure(result)
    } else {
        match sealed(key, nonce, data) {
            Some(ciphertext) => if nonce.len() + ciphertext.len() <= usize::MAX / 2 {
                result matches Ok(text) && text@ == base64_text(nonce + ciphertext)
            } else {
                is_encryption_failure(result)
            },
            None => is_encryption_failure(result),
        }
    }
}

/// Whether `result` is what decrypting `encoded` under `key` comes to. The
/// text must decode, hold a nonce and at least a tag, be authentic under
/// the key, and give valid UTF-8.
pub open spec fn decrypts(key: Seq<u8>, encoded: Seq<char>, result: Result<String, ConfigError>) -> bool {
    match base64_bytes(encoded) {
        Err(complaint) => result matches Err(ConfigError::Base64DecodeError(message)) && message@
            == complaint,
        Ok(combined) => if combined.len() < NONCE_LENGTH + TAG_LENGTH {
            result matches Err(ConfigError::DecryptionError(message)) && message@
                == "Invalid encrypted data"@
        } else {
            match opened(
                key,
                combined.subrange(0, NONCE_LENGTH as int),
                combined.subrange(NONCE_LENGTH as int, combined.len() as int),
            ) {
                None => result matches Err(ConfigError::DecryptionError(message)) && message@
                    == "Decryption failed"@,
                Some(plaintext) => if vstd::utf8::valid_utf8(plaintext) {
                    result matches Ok(text) && text@ == vstd::utf8::decode_utf8(plaintext)
                } else {
                    result matches Err(ConfigError::Utf8Error(_))
                },
            }
        },
    }
}

fn key_error<T>(message: &str) -> (result: Result<T, ConfigError>)
    ensures
        is_key_error(result, message@),
{
    Err(ConfigError::KeyGenerationError(message.to_owned()))
}

impl KeySlot {
    #[verifier::type_invariant]
    spec fn key_has_its_length(&self) -> bool {
        self.key matches Some(key) ==> key@.len() == KEY_LENGTH
    }

    /// An empty slot.
    pub fn new() -> (slot: Self)
        ensures
            slot@ is None,
    {
        KeySlot { key: None }
    }

    /// Whether the key has been set.
    pub fn is_initialized(&self) -> (set: bool)
        ensures
            set == self@.is_some(),
    {
        self.key.is_some()
    }

    /// Sets the key from its hexadecimal text, as found in the environment
    /// under `APP_ENCRYPTION_KEY`; `None` says that nothing was found.
    pub fn init_encryption_key(&mut self, key_hex: Option<&str>) -> (result: Result<
        (),
        ConfigError,
    >)
        ensures
            sets_key(
                old(self)@,
                match key_hex {
                    Some(text) => Some(text.spec_bytes()),
                    None => None,
                },
                result,
                final(self)@,
            ),
    {
        let text = match key_hex {
            Some(text) => text,
            None => {
                return key_error("Missing APP_ENCRYPTION_KEY");
            },
        };
        let raw = match decode_hex(text) {
            Some(raw) => raw,
            None => {
                return key_error("Invalid hex key");
            },
        };
        if raw.len() != KEY_LENGTH {
            return key_error("Invalid key length (expected 32 bytes)");
        }
        if self.key.is_some() {
            return key_error("Key already initialized");
        }
        self.key = Some(raw);
        Ok(())
    }

    /// Encrypts `data` with the nonce given. Public for those who bring
    /// their own nonce; [`KeySlot::encrypt_string`] draws one.
    pub fn encrypt_with_nonce(&self, nonce: &Vec<u8>, data: &str) -> (result: Result<
        String,
        ConfigError,
    >)
        ensures
            match self@ {
                Some(key) => encrypts(key, nonce@, data.spec_bytes(), result),
                None => is_key_error(result, "Encryption key not initialized"@),
            },
    {
        proof {
            use_type_invariant(self);
        }
        let key = match &self.key {
            Some(key) => key,
            None => {
                return key_error("Encryption key not initialized");
            },
        };
        if nonce.len() != NONCE_LENGTH {
            return Err(ConfigError::EncryptionError("Encryption failed".to_owned()));
        }
        let ciphertext = match seal(key, nonce, data.as_bytes()) {
            Some(ciphertext) => ciphertext,
            None => {
                return Err(ConfigError::EncryptionError("Encryption failed".to_owned()));
            },
        };
        if ciphertext.len() > usize::MAX / 2 - NONCE_LENGTH {
            return Err(ConfigError::EncryptionError("Encryption failed".to_owned()));
        }
        let combined = joined_bytes(nonce, &ciphertext);
        Ok(encode_base64(&combined))
    }

    /// Encrypts `data` under a fresh nonce. The result differs from call to
    /// call; it is what [`KeySlot::encrypt_with_nonce`] gives for some
    /// nonce.
    pub fn encrypt_string(&self, data: &str) -> (result: Result<String, ConfigError>)
        ensures
            match self@ {
                Some(key) => exists|nonce: Seq<u8>|
                    nonce.len() == NONCE_LENGTH && #[trigger] encrypts(
                        key,
                        nonce,
                        data.spec_bytes(),
                        result,
                    ),
                None => is_key_error(result, "Encryption key not initialized"@),
            },
    {
        if self.key.is_none() {
            return key_error("Encryption key not initialized");
        }
        let nonce = fresh_nonce();
        let result = self.encrypt_with_nonce(&nonce, data);
        proof {
            assert(encrypts(self@->0, nonce@, data.spec_bytes(), result));
        }
        result
    }

    /// Decrypts what [`KeySlot::encrypt_string`] gave.
    pub fn decrypt_string(&self, encoded: &str) -> (result: Result<String, ConfigError>)
        ensures
            match self@ {
                Some(key) => decrypts(key, encoded@, result),
                None => is_key_error(result, "Encryption key not initialized"@),
            },
    {
        proof {
            use_type_invariant(self);
        }
        let key = match &self.key {
            Some(key) => key,
            None => {
                return key_error("Encryption key not initialized");
            },
        };
        let combined = match decode_base64(encoded) {
            Ok(combined) => combined,
            Err(complaint) => {
                return Err(ConfigError::Base64DecodeError(complaint));
            },
        };
        if combined.len() < NONCE_LENGTH + TAG_LENGTH {
            return Err(ConfigError::DecryptionError("Invalid encrypted data".to_owned()));
        }
        let nonce = bytes_between(&combined, 0, NONCE_LENGTH);
        let ciphertext = bytes_between(&combined, NONCE_LENGTH, combined.len());
        let plaintext = match open(key, &nonce, &ciphertext) {
            Some(plaintext) => plaintext,
            None => {
                return Err(ConfigError::DecryptionError("Decryption failed".to_owned()));
            },
        };
        match read_utf8(plaintext) {
            Ok(text) => Ok(text),
            Err(complaint) => Err(ConfigError::Utf8Error(complaint)),
        }
    }
}

/// Sets the key of `keys`: see [`KeySlot::init_encryption_key`].
pub fn init_encryption_key(keys: &mut KeySlot, key_hex: Option<&str>) -> (result: Result<
    (),
    ConfigError,
>)
    ensures
        sets_key(
            old(keys)@,
            match key_hex {
                Some(text) => Some(text.spec_bytes()),
                None => None,
            },
            result,
            final(keys)@,
        ),
{
    keys.init_encryption_key(key_hex)
}

/// Encrypts `data` under the key of `keys`: see
/// [`KeySlot::encrypt_string`].
pub fn encrypt_string(keys: &KeySlot, data: &str) -> (result: Result<String, ConfigError>)
    ensures
        match keys@ {
            Some(key) => exists|nonce: Seq<u8>|
                nonce.len() == NONCE_LENGTH && #[trigger] encrypts(
                    key,
                    nonce,
                    data.spec_bytes(),
                    result,
                ),
            None => is_key_error(result, "Encryption key not initialized"@),
        },
{
    keys.encrypt_string(data)
}

/// Decrypts `encoded` under the key of `keys`: see
/// [`KeySlot::decrypt_string`].
pub fn decrypt_string(keys: &KeySlot, encoded: &str) -> (result: Result<String, ConfigError>)
    ensures
        match keys@ {
            Some(key) => decrypts(key, encoded@, result),
            None => is_key_error(result, "Encryption key not initialized"@),
        },
{
    keys.decrypt_string(encoded)
}

} // verus!
