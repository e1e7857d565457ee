//! Private messages that are encrypted from end to end. Only the mark of
//! such a message is told as yet; nothing is encrypted.

use crate::text::chars_of;
use crate::text::contains_text;
use crate::text::has_infix;
use vstd::prelude::*;

verus! {

/// The mark at the start of the payload of an encrypted message.
pub const MARKER: &'static str = "BLINDODON_PM_V1:";

/// Why an operation on encrypted messages failed.
#[derive(Debug, Clone, Copy, PartialEq, Eq, Structural)]
pub enum CryptoError {
    /// Encrypted private messages are not implemented.
    NotImplemented,
}

impl CryptoError {
    /// The error in words.
    pub fn message(&self) -> (r: String)
        ensures
            r@ == "Blindodon PM not yet implemented"@,
    {
        String::from_str("Blindodon PM not yet implemented")
    }
}

/// The manager of encrypted private messages.
#[derive(Debug, Clone, Copy, PartialEq, Eq, Structural)]
pub struct BlindodonPM {}

impl BlindodonPM {
    /// A manager of encrypted private messages.
    pub fn new() -> (r: Self) {
        BlindodonPM {  }
    }

    /// A new pair of keys, the public one first. None is made as yet.
    pub fn generate_keypair(&self) -> (r: Result<(String, String), CryptoError>)
        ensures
            r == Err::<(String, String), CryptoError>(CryptoError::NotImplemented),
    {
        Err(CryptoError::NotImplemented)
    }

    /// `plaintext` encrypted for the owner of `recipient_public_key`.
    /// Nothing is encrypted as yet.
    pub fn encrypt(&self, plaintext: &str, recipient_public_key: &str) -> (r: Result<
        String,
        CryptoError,
    >)
        ensures
            r == Err::<String, CryptoError>(CryptoError::NotImplemented),
    {
        Err(CryptoError::NotImplemented)
    }

    /// `ciphertext` decrypted as a message of the owner of
    /// `sender_public_key`. Nothing is decrypted as yet.
    pub fn decrypt(&self, ciphertext: &str, sender_public_key: &str) -> (r: Result<
        String,
        CryptoError,
    >)
        ensures
            r == Err::<String, CryptoError>(CryptoError::NotImplemented),
    {
        Err(CryptoError::NotImplemented)
    }

    /// Whether `content` holds an encrypted private message: whether the
    /// mark occurs in it.
    pub fn is_encrypted_message(content: &str) -> (r: bool)
        ensures
            r == has_infix(content@, MARKER@),
    {
        let text = chars_of(content);
        let marker = chars_of(MARKER);
        contains_text(&text, &marker)
    }
}

impl Default for BlindodonPM {
    fn default() -> (r: Self) {
        BlindodonPM::new()
    }
}

} // verus!
