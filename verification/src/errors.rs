//! Error taxonomy of the core: capture failures, cryptographic
//! failures, and storage failures.

use vstd::prelude::*;

verus! {

/// The capture backend is unavailable or failed to start or stop.
#[derive(Debug, Clone, PartialEq, Eq, Structural)]
pub enum TrackerError {
    /// No foreground-window information could be obtained.
    NoForegroundWindow,
    /// Enabling or disabling input capture failed.
    InputTrackingUnavailable,
}

/// Key derivation failed or a payload is malformed or tampered.
#[derive(Debug, Clone, PartialEq, Eq, Structural)]
pub enum CryptoError {
    /// The password-hashing function failed to derive a key.
    KeyDerivation,
    /// The payload is shorter than the nonce length.
    TruncatedPayload,
    /// Authenticated decryption rejected the payload.
    Tampered,
    /// The plaintext is longer than the sealing input bound.
    PlaintextTooLong,
}

/// Opening, migrating, or writing the store failed.
#[derive(Debug, Clone, PartialEq, Eq, Structural)]
pub enum StorageError {
    /// The store could not be opened or migrated.
    Unavailable,
    /// A row write violated a constraint or an I/O error occurred.
    WriteFailed,
}

impl TrackerError {
    /// A short human-readable description of the failure.
    pub fn message(&self) -> (r: &'static str)
        ensures
            r@ == (match self {
                TrackerError::NoForegroundWindow => "no foreground window information"@,
                TrackerError::InputTrackingUnavailable => "input tracking unavailable"@,
            }),
    {
        match self {
            TrackerError::NoForegroundWindow => "no foreground window information",
            TrackerError::InputTrackingUnavailable => "input tracking unavailable",
        }
    }
}

impl CryptoError {
    /// A short human-readable description of the failure.
    pub fn message(&self) -> (r: &'static str)
        ensures
            r@ == (match self {
                CryptoError::KeyDerivation => "key derivation failed"@,
                CryptoError::TruncatedPayload => "payload shorter than the nonce"@,
                CryptoError::Tampered => "authentication failed"@,
                CryptoError::PlaintextTooLong => "plaintext too long to seal"@,
            }),
    {
        match self {
            CryptoError::KeyDerivation => "key derivation failed",
            CryptoError::TruncatedPayload => "payload shorter than the nonce",
            CryptoError::Tampered => "authentication failed",
            CryptoError::PlaintextTooLong => "plaintext too long to seal",
        }
    }
}

impl StorageError {
    /// A short human-readable description of the failure.
    pub fn message(&self) -> (r: &'static str)
        ensures
            r@ == (match self {
                StorageError::Unavailable => "store unavailable"@,
                StorageError::WriteFailed => "row write failed"@,
            }),
    {
        match self {
            StorageError::Unavailable => "store unavailable",
            StorageError::WriteFailed => "row write failed",
        }
    }
}

} // verus!
