//! The ways in which an operation on keys, phrases or sealed blobs can fail.

use vstd::prelude::*;

verus! {

/// Why an operation of this crate failed.
///
/// Every failure is reported through one of these variants; none of them carries
/// secret material.
#[derive(Debug, Clone, Copy, PartialEq, Eq, Structural)]
pub enum KeyError {
    /// The recovery phrase has a wrong word count, an unknown word or a bad checksum.
    InvalidPhrase,
    /// The text of a derivation path does not parse.
    InvalidPath,
    /// A seed or an intermediate key cannot be used to derive from.
    KeyDerivationError,
    /// The bytes offered as a private key are no valid scalar of the curve.
    SigningError,
    /// The secure random source gave nothing, or nothing that can be used for
    /// what was asked.
    EntropyError,
    /// A sealed blob did not open: the password is wrong or the blob is damaged.
    /// Both causes are reported alike.
    AuthenticationFailed,
}

impl KeyError {
    /// A short text for the failure, fit to show to a user.
    pub fn message(&self) -> (text: String)
        ensures
            text@ == match *self {
                KeyError::InvalidPhrase => "invalid recovery phrase"@,
                KeyError::InvalidPath => "invalid derivation path"@,
                KeyError::KeyDerivationError => "key derivation failed"@,
                KeyError::SigningError => "signing failed"@,
                KeyError::EntropyError => "secure random source unavailable"@,
                KeyError::AuthenticationFailed => "authentication failed"@,
            },
    {
        match self {
            KeyError::InvalidPhrase => "invalid recovery phrase".to_owned(),
            KeyError::InvalidPath => "invalid derivation path".to_owned(),
            KeyError::KeyDerivationError => "key derivation failed".to_owned(),
            KeyError::SigningError => "signing failed".to_owned(),
            KeyError::EntropyError => "secure random source unavailable".to_owned(),
            KeyError::AuthenticationFailed => "authentication failed".to_owned(),
        }
    }
}

} // verus!
