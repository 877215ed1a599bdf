//! The bitcoin values that payouts are built from and the calls into the
//! `bitcoin` crate that build, hash and sign them.
//!
//! A `bitcoin::Transaction` is held as the crate's own type; what it contains is
//! described by `transaction_contents`, and every change that this library makes
//! to one goes through a function below whose contract says how the contents move.

use vstd::prelude::*;

verus! {

#[verifier::external_type_specification]
#[verifier::external_body]
pub struct ExTransaction(bitcoin::Transaction);

#[verifier::external_type_specification]
#[verifier::external_body]
pub struct ExSecretKey(secp256k1::SecretKey);

#[verifier::external_type_specification]
#[verifier::external_body]
pub struct ExKeypair(secp256k1::Keypair);

#[verifier::external_type_specification]
#[verifier::external_body]
pub struct ExScalar(secp256k1::Scalar);

#[verifier::external_type_specification]
#[verifier::external_body]
pub struct ExSignature(secp256k1::schnorr::Signature);

#[verifier::external_type_specification]
#[verifier::external_body]
pub struct ExXOnlyPublicKey(secp256k1::XOnlyPublicKey);

#[verifier::external_type_specification]
#[verifier::external_body]
pub struct ExParity(secp256k1::Parity);

#[verifier::external_type_specification]
#[verifier::external_body]
pub struct ExSecpError(secp256k1::Error);

#[verifier::external_type_specification]
#[verifier::external_body]
pub struct ExTaprootError(bitcoin::sighash::TaprootError);

/// An amount of satoshis.
#[derive(Clone, Copy, Debug, PartialEq, Eq, Hash, PartialOrd, Ord)]
pub struct Amount {
    sat: u64,
}

impl View for Amount {
    type V = u64;

    closed spec fn view(&self) -> u64 {
        self.sat
    }
}

impl Amount {
    /// The amount of `sat` satoshis.
    pub fn from_sat(sat: u64) -> (r: Amount)
        ensures
            r@ == sat,
    {
        Amount { sat }
    }

    /// The number of satoshis in this amount.
    pub fn to_sat(self) -> (r: u64)
        ensures
            r == self@,
    {
        self.sat
    }
}

/// The identifier of a transaction: the double SHA-256 of its serialization
/// without witnesses, in internal byte order.
#[derive(Clone, Copy, Debug, PartialEq, Eq, Hash)]
pub struct Txid {
    bytes: [u8; 32],
}

impl View for Txid {
    type V = Seq<u8>;

    closed spec fn view(&self) -> Seq<u8> {
        self.bytes@
    }
}

impl Txid {
    pub fn from_byte_array(bytes: [u8; 32]) -> (r: Txid)
        ensures
            r@ == bytes@,
    {
        Txid { bytes }
    }

    pub fn to_byte_array(self) -> (r: [u8; 32])
        ensures
            r@ == self@,
    {
        self.bytes
    }
}

/// A payout destination, held as plain values: the address in its encoded
/// form, as a `bitcoin::Address` displays itself (which names the network as
/// well as the script), and the locking script (`scriptPubKey`) that its
/// `script_pubkey` method returns. Two destinations are equal exactly when both
/// parts are, as two `bitcoin::Address` values are equal exactly when they
/// encode the same address; what a payment reads of a destination is its
/// script, which is the view.
#[derive(Clone, Debug, PartialEq, Eq, Hash)]
pub struct Address {
    encoded: String,
    script_pubkey: Vec<u8>,
}

impl View for Address {
    type V = Seq<u8>;

    closed spec fn view(&self) -> Seq<u8> {
        self.script_pubkey@
    }
}

impl Address {
    /// The encoded form of the address (empty for a destination given by its
    /// script alone).
    pub closed spec fn encoded(&self) -> Seq<char> {
        self.encoded@
    }

    /// The destination with encoded form `encoded` that locks funds to
    /// `script_pubkey`.
    pub fn new(encoded: String, script_pubkey: Vec<u8>) -> (r: Address)
        ensures
            r.encoded() == encoded@,
            r@ == script_pubkey@,
    {
        Address { encoded, script_pubkey }
    }

    /// A destination given by the script `script_pubkey` alone, with no
    /// encoded form.
    pub fn from_script(script_pubkey: Vec<u8>) -> (r: Address)
        ensures
            r.encoded() == Seq::<char>::empty(),
            r@ == script_pubkey@,
    {
        Address { encoded: String::new(), script_pubkey }
    }

    /// The encoded form of this destination.
    pub fn to_encoded(&self) -> (r: String)
        ensures
            r@ == self.encoded(),
    {
        self.encoded.clone()
    }

    /// The locking script of this destination.
    pub fn script_pubkey(&self) -> (r: Vec<u8>)
        ensures
            r@ == self@,
    {
        let r = self.script_pubkey.clone();
        assert(r@ =~= self@);
        r
    }
}

/// A transaction output as plain values: its amount and its locking script.
#[derive(Clone, Debug, PartialEq, Eq)]
pub struct TxOutput {
    pub value: Amount,
    pub script_pubkey: Vec<u8>,
}

/// What a transaction output holds.
pub struct OutputModel {
    pub value: u64,
    pub script_pubkey: Seq<u8>,
}

impl View for TxOutput {
    type V = OutputModel;

    open spec fn view(&self) -> OutputModel {
        OutputModel { value: self.value@, script_pubkey: self.script_pubkey@ }
    }
}

/// What a transaction input holds.
pub struct InputModel {
    /// Identifier of the transaction whose output is spent.
    pub txid: Seq<u8>,
    /// Index of the spent output in that transaction.
    pub vout: u32,
    pub script_sig: Seq<u8>,
    pub sequence: u32,
    /// The witness stack, bottom first.
    pub witness: Seq<Seq<u8>>,
}

/// What a transaction holds.
pub struct TxModel {
    pub version: i32,
    /// The lock time in its consensus encoding.
    pub lock_time: u32,
    pub inputs: Seq<InputModel>,
    pub outputs: Seq<OutputModel>,
}

/// The contents of a `bitcoin::Transaction`.
pub uninterp spec fn transaction_contents(tx: bitcoin::Transaction) -> TxModel;

/// The transaction identifier that `Transaction::compute_txid` gives for a
/// transaction with these contents.
pub uninterp spec fn txid_of(tx: TxModel) -> Seq<u8>;

/// The BIP-341 key-spend signature hash with `SIGHASH_ALL` of input
/// `input_index` of a transaction with these contents, spending `prevouts`.
pub uninterp spec fn key_spend_sighash(tx: TxModel, input_index: int, prevouts: Seq<OutputModel>) -> Seq<u8>;

pub open spec fn outputs_view(prevouts: Seq<TxOutput>) -> Seq<OutputModel> {
    prevouts.map_values(|o: TxOutput| o@)
}

/// A transaction with the given version and lock time and no inputs or outputs
/// (a `bitcoin::Transaction` literal).
#[verifier::external_body]
pub(crate) fn empty_transaction(version: i32, lock_time: u32) -> (tx: bitcoin::Transaction)
    ensures
        transaction_contents(tx) == (TxModel {
            version,
            lock_time,
            inputs: Seq::empty(),
            outputs: Seq::empty(),
        }),
{
    bitcoin::Transaction {
        version: bitcoin::transaction::Version(version),
        lock_time: bitcoin::absolute::LockTime::from_consensus(lock_time),
        input: Vec::new(),
        output: Vec::new(),
    }
}

/// Appends an input to `tx.input` (`Vec::push` of a `bitcoin::TxIn`).
#[verifier::external_body]
pub(crate) fn push_input(
    tx: &mut bitcoin::Transaction,
    txid: Txid,
    vout: u32,
    script_sig: Vec<u8>,
    sequence: u32,
    witness: Vec<Vec<u8>>,
)
    ensures
        transaction_contents(*final(tx)) == (TxModel {
            inputs: transaction_contents(*old(tx)).inputs.push(
                InputModel {
                    txid: txid@,
                    vout,
                    script_sig: script_sig@,
                    sequence,
                    witness: witness@.map_values(|w: Vec<u8>| w@),
                },
            ),
            ..transaction_contents(*old(tx))
        }),
{
    tx.input.push(bitcoin::TxIn {
        previous_output: bitcoin::OutPoint { txid: bitcoin::hashes::Hash::from_byte_array(txid.bytes), vout },
        script_sig: bitcoin::ScriptBuf::from_bytes(script_sig),
        sequence: bitcoin::Sequence(sequence),
        witness: bitcoin::Witness::from_slice(&witness),
    });
}

/// Appends an output to `tx.output` (`Vec::push` of a `bitcoin::TxOut`).
#[verifier::external_body]
pub(crate) fn push_output(tx: &mut bitcoin::Transaction, value: Amount, script_pubkey: Vec<u8>)
    ensures
        transaction_contents(*final(tx)) == (TxModel {
            outputs: transaction_contents(*old(tx)).outputs.push(
                OutputModel { value: value@, script_pubkey: script_pubkey@ },
            ),
            ..transaction_contents(*old(tx))
        }),
{
    tx.output.push(bitcoin::TxOut {
        value: bitcoin::Amount::from_sat(value.sat),
        script_pubkey: bitcoin::ScriptBuf::from_bytes(script_pubkey),
    });
}

/// Pushes `element` on top of the witness stack of input `input_index`
/// (`bitcoin::Witness::push`).
#[verifier::external_body]
pub(crate) fn push_witness_element(tx: &mut bitcoin::Transaction, input_index: usize, element: Vec<u8>)
    requires
        input_index < transaction_contents(*old(tx)).inputs.len(),
    ensures
        transaction_contents(*final(tx)) == (TxModel {
            inputs: transaction_contents(*old(tx)).inputs.update(
                input_index as int,
                InputModel {
                    witness: transaction_contents(*old(tx)).inputs[input_index as int].witness.push(
                        element@,
                    ),
                    ..transaction_contents(*old(tx)).inputs[input_index as int]
                },
            ),
            ..transaction_contents(*old(tx))
        }),
{
    tx.input[input_index].witness.push(element);
}

/// Output `index` of `tx` as plain values (`tx.output[index]`, with its amount
/// read by `Amount::to_sat` and its script by `ScriptBuf::to_bytes`).
#[verifier::external_body]
pub(crate) fn output_at(tx: &bitcoin::Transaction, index: usize) -> (out: TxOutput)
    requires
        index < transaction_contents(*tx).outputs.len(),
    ensures
        out@ == transaction_contents(*tx).outputs[index as int],
{
    let o = &tx.output[index];
    TxOutput { value: Amount { sat: o.value.to_sat() }, script_pubkey: o.script_pubkey.to_bytes() }
}

/// The number of outputs of `tx` (`Vec::len` of `tx.output`).
#[verifier::external_body]
fn outputs_len(tx: &bitcoin::Transaction) -> (n: usize)
    ensures
        n == transaction_contents(*tx).outputs.len(),
{
    tx.output.len()
}

/// The number of outputs of `tx`, so that a caller can check that the output
/// that a payout spends (output 0) is there before building on `tx`.
pub fn output_count(tx: &bitcoin::Transaction) -> (n: usize)
    ensures
        n == transaction_contents(*tx).outputs.len(),
{
    outputs_len(tx)
}

/// Output `index` of `tx` as plain values: its amount and locking script.
pub fn output(tx: &bitcoin::Transaction, index: usize) -> (out: TxOutput)
    requires
        index < transaction_contents(*tx).outputs.len(),
    ensures
        out@ == transaction_contents(*tx).outputs[index as int],
{
    output_at(tx, index)
}

/// `Transaction::compute_txid`.
#[verifier::external_body]
pub(crate) fn compute_txid(tx: &bitcoin::Transaction) -> (id: Txid)
    ensures
        id@ == txid_of(transaction_contents(*tx)),
{
    Txid { bytes: bitcoin::hashes::Hash::to_byte_array(tx.compute_txid()) }
}

/// `SighashCache::taproot_key_spend_signature_hash` with `Prevouts::All` and
/// `TapSighashType::All`. It fails exactly when the number of prevouts differs
/// from the number of inputs; the input index itself is not checked there.
#[verifier::external_body]
pub(crate) fn taproot_key_spend_sighash(
    tx: &bitcoin::Transaction,
    input_index: usize,
    prevouts: &[TxOutput],
) -> (r: Result<[u8; 32], bitcoin::sighash::TaprootError>)
    ensures
        r is Ok <==> prevouts@.len() == transaction_contents(*tx).inputs.len(),
        r matches Ok(h) ==> h@ == key_spend_sighash(
            transaction_contents(*tx),
            input_index as int,
            outputs_view(prevouts@),
        ),
{
    let outs: Vec<bitcoin::TxOut> = prevouts.iter().map(|o| bitcoin::TxOut {
        value: bitcoin::Amount::from_sat(o.value.sat),
        script_pubkey: bitcoin::ScriptBuf::from_bytes(o.script_pubkey.clone()),
    }).collect();
    let mut cache = bitcoin::sighash::SighashCache::new(tx);
    let prevouts = bitcoin::sighash::Prevouts::All(&outs);
    let hash = cache.taproot_key_spend_signature_hash(input_index, &prevouts, bitcoin::TapSighashType::All)?;
    Ok(bitcoin::hashes::Hash::to_byte_array(hash))
}

/// The x-only public key and its parity that `Keypair::x_only_public_key`
/// gives for a key pair: a function of the key pair alone.
pub uninterp spec fn x_only_public_key_of(keypair: secp256k1::Keypair) -> (
    secp256k1::XOnlyPublicKey,
    secp256k1::Parity,
);

/// `Keypair::x_only_public_key`: the key pair's x-only public key and its
/// parity, which depend on the key pair alone.
pub assume_specification[ secp256k1::Keypair::x_only_public_key ](keypair: &secp256k1::Keypair) -> (r: (
    secp256k1::XOnlyPublicKey,
    secp256k1::Parity,
))
    ensures
        r == x_only_public_key_of(*keypair),
;

/// The 64-byte BIP-340 encoding that `schnorr::Signature::serialize` gives
/// for a signature.
pub uninterp spec fn signature_bytes(signature: secp256k1::schnorr::Signature) -> Seq<u8>;

/// `schnorr::Signature::serialize`: the 64-byte encoding of the signature, a
/// function of the signature alone.
#[verifier::external_body]
pub(crate) fn serialize_signature(signature: &secp256k1::schnorr::Signature) -> (bytes: [u8; 64])
    ensures
        bytes@ == signature_bytes(*signature),
{
    signature.serialize()
}

} // verus!
