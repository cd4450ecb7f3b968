use vstd::prelude::*;

verus! {

/// The error taxonomy of the session core.
///
/// Cryptographic and persistence failures surface to the caller as one of
/// these typed errors; only conversions whose size is structurally guaranteed
/// (such as splitting the fixed 64-byte KDF output) may abort.
#[derive(Debug, Clone, Copy, PartialEq, Eq, Structural)]
pub enum SessionError {
    /// No session state exists for this chat.
    SessionNotInitialized,
    /// An identity, signed-prekey or one-time-key lookup failed during a handshake.
    HandshakeMaterialMissing,
    /// The counter gap of an incoming header exceeds the skipped-key cap.
    SkippedKeyOverflow,
    /// An AEAD tag mismatch: tampered data or a wrong key; no plaintext is released.
    AuthenticationFailure,
    /// A session-store or key-store read or write failed.
    PersistenceFailure,
    /// A prekey signature did not verify.
    SignatureVerificationFailure,
}

impl SessionError {
    /// A short, stable description of the error, suitable for user display.
    /// A failed decrypt reports only that decryption failed, without
    /// distinguishing tampering from a wrong key.
    pub fn describe(&self) -> (r: &'static str)
    {
        match self {
            SessionError::SessionNotInitialized => "session not initialized",
            SessionError::HandshakeMaterialMissing => "handshake key material missing",
            SessionError::SkippedKeyOverflow => "too many skipped message keys",
            SessionError::AuthenticationFailure => "cannot decrypt",
            SessionError::PersistenceFailure => "session store failure",
            SessionError::SignatureVerificationFailure => "signature verification failed",
        }
    }
}

} // verus!
