//! Signing one input of a transaction with a taproot key-path signature.
//!
//! The key operations go through three small traits so that a caller can put
//! other implementations (for example failing ones) in their place. Each
//! trait method's outcome is described by a spec method of its trait; the
//! implementations for the `secp256k1` types say exactly what the library
//! calls give, and an implementation that says nothing allows any outcome.

use vstd::prelude::*;
use secp256k1::{Keypair, Scalar, SecretKey, XOnlyPublicKey};
use secp256k1::schnorr::Signature;
use crate::uhpo::bitcoin_tx::{
    TxModel, InputModel, OutputModel, TxOutput, transaction_contents, taproot_key_spend_sighash,
    push_witness_element, serialize_signature, key_spend_sighash, outputs_view,
    x_only_public_key_of, signature_bytes,
};
use crate::uhpo::error::UhpoError;

verus! {

/// A secret key that yields a key pair.
pub trait SecretKeyBehavior<K: KeypairBehavior<E>, E: Secp256k1Behavior + 'static> {
    /// Whether `keypair` is a key pair that `keypair` may give for this key.
    /// An implementation that does not say allows any.
    open spec fn yields_keypair(&self, keypair: K) -> bool {
        true
    }

    fn keypair(&self, secp: &E) -> (r: K)
        ensures
            self.yields_keypair(r),
    ;
}

/// A key pair that can be tweaked.
pub trait KeypairBehavior<E: Secp256k1Behavior + 'static> {
    /// Whether `result` is an outcome that tweaking this key pair by `tweak`
    /// may have. An implementation that does not say allows any.
    open spec fn yields_tweak(&self, tweak: Scalar, result: Result<Keypair, secp256k1::Error>) -> bool {
        true
    }

    /// Whether `keypair` is the `secp256k1::Keypair` that this value stands
    /// for. An implementation that does not say allows any.
    open spec fn stands_for(&self, keypair: Keypair) -> bool {
        true
    }

    fn add_xonly_tweak(self, secp: &E, tweak: &Scalar) -> (r: Result<Keypair, secp256k1::Error>)
        ensures
            self.yields_tweak(*tweak, r),
    ;

    /// The key pair itself, as a `secp256k1::Keypair`.
    fn to_keypair(&self) -> (r: Keypair)
        ensures
            self.stands_for(r),
    ;
}

/// Schnorr signing and verification.
pub trait Secp256k1Behavior {
    /// Whether verifying `signature` on the message with digest `digest` under
    /// `pubkey` may come out as `accepted`. An implementation that does not say
    /// allows either.
    open spec fn verifies_as(
        &self,
        signature: Signature,
        digest: Seq<u8>,
        pubkey: XOnlyPublicKey,
        accepted: bool,
    ) -> bool {
        true
    }

    /// Whether `signature` is a signature that signing the message with
    /// digest `digest` with `keypair` may give. An implementation that does not
    /// say allows any.
    open spec fn signs_as(&self, digest: Seq<u8>, keypair: Keypair, signature: Signature) -> bool {
        true
    }

    /// Signs the message with digest `digest` with `keypair`, with fresh
    /// auxiliary randomness.
    fn sign_schnorr_with_rng(&self, digest: &[u8; 32], keypair: &Keypair) -> (r: Signature)
        ensures
            self.signs_as(digest@, *keypair, r),
    ;

    /// Checks `signature` on the message with digest `digest` against `pubkey`.
    fn verify_schnorr(
        &self,
        signature: &Signature,
        digest: &[u8; 32],
        pubkey: &XOnlyPublicKey,
    ) -> (r: Result<(), secp256k1::Error>)
        ensures
            self.verifies_as(*signature, digest@, *pubkey, r is Ok),
    ;
}

/// The libsecp256k1 signing and verification context.
pub struct SigningContext;

impl SigningContext {
    pub fn new() -> Self {
        SigningContext
    }
}

/// The key pair that `SecretKey::keypair` gives for a secret key.
pub uninterp spec fn keypair_of_secret(key: SecretKey) -> Keypair;

/// `SecretKey::keypair`: the key pair of `key`, a function of the key alone
/// (the context does not enter into it).
#[verifier::external_body]
fn keypair_of(key: &SecretKey) -> (keypair: Keypair)
    ensures
        keypair == keypair_of_secret(*key),
{
    key.keypair(&secp256k1::Secp256k1::new())
}

/// What `Keypair::add_xonly_tweak` gives for a key pair and a tweak.
pub uninterp spec fn xonly_tweak(keypair: Keypair, tweak: Scalar) -> Result<Keypair, secp256k1::Error>;

/// `Keypair::add_xonly_tweak`: the tweaked key pair, or the error when the
/// tweaked key would be invalid. The outcome is a function of the key pair and
/// the tweak; which it is depends on curve arithmetic and is not stated.
#[verifier::external_body]
fn tweak_keypair(keypair: Keypair, tweak: &Scalar) -> (r: Result<Keypair, secp256k1::Error>)
    ensures
        r == xonly_tweak(keypair, *tweak),
{
    keypair.add_xonly_tweak(&secp256k1::Secp256k1::new(), tweak)
}

/// Whether `signature` is one of the BIP-340 signatures that signing the
/// message with digest `digest` with `keypair` gives, for some auxiliary
/// randomness: a relation, not a function, since the randomness is fresh on
/// each call.
pub uninterp spec fn schnorr_signs(digest: Seq<u8>, keypair: Keypair, signature: Signature) -> bool;

/// `Secp256k1::sign_schnorr_with_rng` on `Message::from_digest(*digest)`, with
/// the thread-local random number generator: a signature made on that digest
/// with that key pair. Which one depends on the randomness and is not stated.
#[verifier::external_body]
fn sign_schnorr(digest: &[u8; 32], keypair: &Keypair) -> (signature: Signature)
    ensures
        schnorr_signs(digest@, *keypair, signature),
{
    let message = secp256k1::Message::from_digest(*digest);
    secp256k1::Secp256k1::new().sign_schnorr_with_rng(&message, keypair, &mut rand::thread_rng())
}

/// Whether BIP-340 verification accepts a signature on the message with the
/// given digest under the given x-only public key.
pub uninterp spec fn schnorr_verifies(signature: Signature, digest: Seq<u8>, pubkey: XOnlyPublicKey) -> bool;

/// `Secp256k1::verify_schnorr` on `Message::from_digest(*digest)`: succeeds
/// exactly when the signature verifies, a function of the three values. Which
/// error it gives otherwise is not stated.
#[verifier::external_body]
fn verify_schnorr_signature(
    signature: &Signature,
    digest: &[u8; 32],
    pubkey: &XOnlyPublicKey,
) -> (r: Result<(), secp256k1::Error>)
    ensures
        r is Ok <==> schnorr_verifies(*signature, digest@, *pubkey),
{
    let message = secp256k1::Message::from_digest(*digest);
    secp256k1::Secp256k1::verification_only().verify_schnorr(signature, &message, pubkey)
}

impl SecretKeyBehavior<Keypair, SigningContext> for SecretKey {
    open spec fn yields_keypair(&self, keypair: Keypair) -> bool {
        keypair == keypair_of_secret(*self)
    }

    fn keypair(&self, secp: &SigningContext) -> Keypair {
        keypair_of(self)
    }
}

impl KeypairBehavior<SigningContext> for Keypair {
    open spec fn yields_tweak(&self, tweak: Scalar, result: Result<Keypair, secp256k1::Error>) -> bool {
        result == xonly_tweak(*self, tweak)
    }

    open spec fn stands_for(&self, keypair: Keypair) -> bool {
        keypair == *self
    }

    fn add_xonly_tweak(self, secp: &SigningContext, tweak: &Scalar) -> Result<Keypair, secp256k1::Error> {
        tweak_keypair(self, tweak)
    }

    /// The key pair itself: a copy of `self`.
    fn to_keypair(&self) -> (r: Keypair)
        ensures
            r == *self,
    {
        *self
    }
}

impl Secp256k1Behavior for SigningContext {
    open spec fn verifies_as(
        &self,
        signature: Signature,
        digest: Seq<u8>,
        pubkey: XOnlyPublicKey,
        accepted: bool,
    ) -> bool {
        accepted == schnorr_verifies(signature, digest, pubkey)
    }

    open spec fn signs_as(&self, digest: Seq<u8>, keypair: Keypair, signature: Signature) -> bool {
        schnorr_signs(digest, keypair, signature)
    }

    fn sign_schnorr_with_rng(&self, digest: &[u8; 32], keypair: &Keypair) -> Signature {
        sign_schnorr(digest, keypair)
    }

    fn verify_schnorr(
        &self,
        signature: &Signature,
        digest: &[u8; 32],
        pubkey: &XOnlyPublicKey,
    ) -> Result<(), secp256k1::Error> {
        verify_schnorr_signature(signature, digest, pubkey)
    }
}

/// `before` with `element` pushed on the witness stack of input `index`.
pub open spec fn with_witness_element(before: TxModel, index: int, element: Seq<u8>) -> TxModel {
    TxModel {
        inputs: before.inputs.update(
            index,
            InputModel { witness: before.inputs[index].witness.push(element), ..before.inputs[index] },
        ),
        ..before
    }
}

/// `after` is `before` with a key-path signature (64 signature bytes followed by
/// the `SIGHASH_ALL` byte `0x01`) pushed on the witness of input `index`.
pub open spec fn signed_input(before: TxModel, after: TxModel, index: int) -> bool {
    &&& 0 <= index < before.inputs.len()
    &&& exists|sig: Seq<u8>| sig.len() == 64 && after == with_witness_element(before, index, sig.push(1u8))
}

/// The tweak, if any, as a value.
pub open spec fn tweak_value(tweak: Option<&Scalar>) -> Option<Scalar> {
    match tweak {
        Some(t) => Some(*t),
        None => None,
    }
}

/// `key` is a key pair outcome that `k` may give: tweaked by `tweak` when one
/// is given, otherwise `k` itself as a `secp256k1::Keypair`.
pub open spec fn signing_key<K: KeypairBehavior<E>, E: Secp256k1Behavior + 'static>(
    k: K,
    tweak: Option<Scalar>,
    key: Result<Keypair, secp256k1::Error>,
) -> bool {
    match tweak {
        Some(t) => k.yields_tweak(t, key),
        None => key matches Ok(kp) && k.stands_for(kp),
    }
}

/// What signing input `input_idx` of `before`, spending `prevouts`, with the
/// key pair outcome `key` leaves behind (`after`) and returns (`r`):
/// - a failed key pair is reported as `KeypairCreationError` with its error;
/// - otherwise, a prevout count other than the input count is a `TaprootError`;
/// - otherwise the digest is the BIP-341 key-spend sighash (`SIGHASH_ALL`) of
///   that input over those prevouts, and a signature is made on it with the
///   key pair. Success pushes that signature's 64 bytes followed by `0x01` on
///   the input's witness, and means that verifying the signature under the
///   key pair's x-only public key came out accepted;
///   `SignatureVerificationError` means it came out rejected.
/// Every error leaves the transaction as it was.
pub open spec fn key_outcome<E: Secp256k1Behavior>(
    r: Result<(), UhpoError>,
    before: TxModel,
    after: TxModel,
    input_idx: int,
    prevouts: Seq<OutputModel>,
    key: Result<Keypair, secp256k1::Error>,
    secp: E,
) -> bool {
    match key {
        Err(e) => r == Err::<(), UhpoError>(UhpoError::KeypairCreationError(e)) && after == before,
        Ok(kp) => if prevouts.len() != before.inputs.len() {
            r matches Err(UhpoError::TaprootError(_)) && after == before
        } else {
            let digest = key_spend_sighash(before, input_idx, prevouts);
            let pubkey = x_only_public_key_of(kp).0;
            match r {
                Ok(()) => exists|sig: Signature|
                    #[trigger] secp.signs_as(digest, kp, sig) && secp.verifies_as(sig, digest, pubkey, true)
                        && signature_bytes(sig).len() == 64
                        && after == with_witness_element(
                        before,
                        input_idx,
                        signature_bytes(sig).push(1u8),
                    ),
                Err(UhpoError::SignatureVerificationError(_)) => after == before && exists|sig: Signature|
                    #[trigger] secp.signs_as(digest, kp, sig) && secp.verifies_as(sig, digest, pubkey, false),
                Err(_) => false,
            }
        },
    }
}

/// What `add_signature` with `private_key`, `tweak` and `secp` leaves behind
/// and returns: the key pair comes from `private_key` (tweaked when a tweak is
/// given) and then `key_outcome` holds of it.
pub open spec fn signing_outcome<S, K, E>(
    r: Result<(), UhpoError>,
    before: TxModel,
    after: TxModel,
    input_idx: int,
    prevouts: Seq<OutputModel>,
    private_key: S,
    tweak: Option<Scalar>,
    secp: E,
) -> bool where
    S: SecretKeyBehavior<K, E>,
    K: KeypairBehavior<E>,
    E: Secp256k1Behavior + 'static,
 {
    exists|k: K, key: Result<Keypair, secp256k1::Error>|
        #![trigger private_key.yields_keypair(k), signing_key::<K, E>(k, tweak, key)]
        private_key.yields_keypair(k) && signing_key::<K, E>(k, tweak, key) && key_outcome(
            r,
            before,
            after,
            input_idx,
            prevouts,
            key,
            secp,
        )
}

/// The witness element for a key-path spend: the signature followed by the
/// sighash type byte of `SIGHASH_ALL`.
pub fn key_spend_witness(signature: [u8; 64]) -> (element: Vec<u8>)
    ensures
        element@ == signature@.push(1u8),
{
    let mut element: Vec<u8> = Vec::new();
    let mut i: usize = 0;
    while i < 64
        invariant
            i <= 64,
            element@ == signature@.subrange(0, i as int),
        decreases 64 - i,
    {
        element.push(signature[i]);
        i = i + 1;
        assert(element@ =~= signature@.subrange(0, i as int));
    }
    assert(signature@.subrange(0, 64) =~= signature@);
    element.push(1u8);
    element
}

/// Signs input `input_idx` of `transaction`, which spends `prevouts`, with a
/// taproot key-path signature (`SIGHASH_ALL`) made with `private_key`, tweaked
/// by `tweak` when one is given, and pushes the signature on that input's
/// witness. The transaction is left unchanged when an error is returned.
pub fn add_signature<S, K, E>(
    transaction: &mut bitcoin::Transaction,
    input_idx: usize,
    prevouts: &[TxOutput],
    private_key: S,
    tweak: Option<&Scalar>,
    secp: &E,
) -> (r: Result<(), UhpoError>) where
    S: SecretKeyBehavior<K, E>,
    K: KeypairBehavior<E>,
    E: Secp256k1Behavior + 'static,

    requires
        prevouts@.len() == transaction_contents(*old(transaction)).inputs.len() ==> input_idx
            < prevouts@.len(),
    ensures
        signing_outcome::<S, K, E>(
            r,
            transaction_contents(*old(transaction)),
            transaction_contents(*final(transaction)),
            input_idx as int,
            outputs_view(prevouts@),
            private_key,
            tweak_value(tweak),
            *secp,
        ),
        r is Err ==> *final(transaction) == *old(transaction),
{
    let ghost before = transaction_contents(*transaction);
    let ghost pv = outputs_view(prevouts@);
    let ghost tw = tweak_value(tweak);
    let k = private_key.keypair(secp);
    let ghost kg = k;
    let keypair: Keypair = match tweak {
        Some(tweak) => match k.add_xonly_tweak(secp, tweak) {
            Ok(keypair) => keypair,
            Err(err) => {
                let r = Err(UhpoError::KeypairCreationError(err));
                proof {
                    let key = Err::<Keypair, secp256k1::Error>(err);
                    assert(signing_key::<K, E>(kg, tw, key));
                    assert(key_outcome(r, before, before, input_idx as int, pv, key, *secp));
                    assert(private_key.yields_keypair(kg));
                }
                return r;
            },
        },
        None => k.to_keypair(),
    };
    let ghost key = Ok::<Keypair, secp256k1::Error>(keypair);
    assert(signing_key::<K, E>(kg, tw, key));
    assert(private_key.yields_keypair(kg));
    let sighash = match taproot_key_spend_sighash(transaction, input_idx, prevouts) {
        Ok(sighash) => sighash,
        Err(err) => {
            let r = Err(UhpoError::TaprootError(err));
            assert(key_outcome(r, before, before, input_idx as int, pv, key, *secp));
            return r;
        },
    };
    let signature = secp.sign_schnorr_with_rng(&sighash, &keypair);
    let sig_bytes = serialize_signature(&signature);
    let element = key_spend_witness(sig_bytes);
    let (pubkey, _parity) = keypair.x_only_public_key();
    match secp.verify_schnorr(&signature, &sighash, &pubkey) {
        Ok(()) => {},
        Err(err) => {
            let r = Err(UhpoError::SignatureVerificationError(err));
            assert(secp.verifies_as(signature, key_spend_sighash(before, input_idx as int, pv), pubkey, false));
            assert(key_outcome(r, before, before, input_idx as int, pv, key, *secp));
            return r;
        },
    }
    push_witness_element(transaction, input_idx, element);
    assert(secp.verifies_as(signature, key_spend_sighash(before, input_idx as int, pv), pubkey, true));
    assert(transaction_contents(*transaction) == with_witness_element(
        before,
        input_idx as int,
        signature_bytes(signature).push(1u8),
    ));
    assert(key_outcome(Ok(()), before, transaction_contents(*transaction), input_idx as int, pv, key, *secp));
    Ok(())
}

} // verus!
