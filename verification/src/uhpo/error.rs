//! Errors of building and signing payout transactions.

use vstd::prelude::*;
use vstd::std_specs::convert::FromSpecImpl;

verus! {

/// What can go wrong while building or signing a payout transaction.
#[derive(Debug)]
pub enum UhpoError {
    /// Tweaking the signing key pair failed.
    KeypairCreationError(secp256k1::Error),
    /// The signature just made did not verify against the signing key.
    SignatureVerificationError(secp256k1::Error),
    /// The signature hash could not be computed.
    TaprootError(bitcoin::sighash::TaprootError),
    /// The payout update has no previous update output to sign for.
    NoPrevUpdateTxOut,
    Other(String),
}

impl From<bitcoin::sighash::TaprootError> for UhpoError {
    fn from(err: bitcoin::sighash::TaprootError) -> (r: Self)
        ensures
            r == UhpoError::TaprootError(err),
    {
        UhpoError::TaprootError(err)
    }
}

impl FromSpecImpl<bitcoin::sighash::TaprootError> for UhpoError {
    open spec fn obeys_from_spec() -> bool {
        true
    }

    open spec fn from_spec(err: bitcoin::sighash::TaprootError) -> Self {
        UhpoError::TaprootError(err)
    }
}

impl From<secp256k1::Error> for UhpoError {
    fn from(err: secp256k1::Error) -> (r: Self)
        ensures
            r == UhpoError::KeypairCreationError(err),
    {
        UhpoError::KeypairCreationError(err)
    }
}

impl FromSpecImpl<secp256k1::Error> for UhpoError {
    open spec fn obeys_from_spec() -> bool {
        true
    }

    open spec fn from_spec(err: secp256k1::Error) -> Self {
        UhpoError::KeypairCreationError(err)
    }
}

/// The text that describes `e`: a fixed prefix per kind of error, followed by
/// the description of the error it carries, given as `inner`.
pub open spec fn error_text(e: UhpoError, inner: Seq<char>) -> Seq<char> {
    match e {
        UhpoError::KeypairCreationError(_) => "Keypair creation error: "@ + inner,
        UhpoError::TaprootError(_) => "Taproot error: "@ + inner,
        UhpoError::SignatureVerificationError(_) => "Signature verification error: "@ + inner,
        UhpoError::NoPrevUpdateTxOut => "No previous update transaction output provided"@,
        UhpoError::Other(msg) => "Other error: "@ + msg@,
    }
}

impl UhpoError {
    /// An error of kind `Other` with the given message.
    pub fn new(message: &str) -> (r: Self)
        ensures
            r matches UhpoError::Other(m) && m@ == message@,
    {
        UhpoError::Other(String::from_str(message))
    }

    /// The human-readable description of this error.
    pub fn to_string(&self) -> (s: String)
        ensures
            match self {
                UhpoError::KeypairCreationError(err) => exists|t: String|
                    vstd::string::to_string_from_display_ensures::<secp256k1::Error>(err, t)
                        && s@ == error_text(*self, t@),
                UhpoError::SignatureVerificationError(err) => exists|t: String|
                    vstd::string::to_string_from_display_ensures::<secp256k1::Error>(err, t)
                        && s@ == error_text(*self, t@),
                UhpoError::TaprootError(err) => exists|t: String|
                    vstd::string::to_string_from_display_ensures::<bitcoin::sighash::TaprootError>(
                        err,
                        t,
                    ) && s@ == error_text(*self, t@),
                _ => s@ == error_text(*self, Seq::empty()),
            },
    {
        match self {
            UhpoError::KeypairCreationError(err) => {
                let t = err.to_string();
                String::from_str("Keypair creation error: ").concat(t.as_str())
            },
            UhpoError::TaprootError(err) => {
                let t = err.to_string();
                String::from_str("Taproot error: ").concat(t.as_str())
            },
            UhpoError::SignatureVerificationError(err) => {
                let t = err.to_string();
                String::from_str("Signature verification error: ").concat(t.as_str())
            },
            UhpoError::NoPrevUpdateTxOut => String::from_str(
                "No previous update transaction output provided",
            ),
            UhpoError::Other(msg) => String::from_str("Other error: ").concat(msg.as_str()),
        }
    }
}

} // verus!
