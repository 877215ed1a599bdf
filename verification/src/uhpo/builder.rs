//! A builder for the unsigned transactions that payouts start from.

use vstd::prelude::*;
use crate::uhpo::bitcoin_tx::{
    Address, Amount, InputModel, OutputModel, TxModel, Txid, transaction_contents,
    empty_transaction, push_input, push_output,
};

verus! {

/// The transaction version that payout transactions use.
pub const TX_VERSION: i32 = 2;

/// The sequence number of payout inputs: the maximum, which opts out of
/// relative lock times and replacement signalling.
pub const SEQUENCE_MAX: u32 = 0xFFFF_FFFF;

/// An input that spends output `vout` of transaction `txid`, with an empty
/// script signature, the maximum sequence number and an empty witness.
pub open spec fn unsigned_input(txid: Seq<u8>, vout: u32) -> InputModel {
    InputModel {
        txid,
        vout,
        script_sig: Seq::empty(),
        sequence: SEQUENCE_MAX,
        witness: Seq::empty(),
    }
}

/// An output that pays `value` satoshis to `address`.
pub open spec fn payment(address: Address, value: Amount) -> OutputModel {
    OutputModel { value: value@, script_pubkey: address@ }
}

/// A version 2 transaction with lock time 0 and the given inputs and outputs.
pub open spec fn payout_transaction(inputs: Seq<InputModel>, outputs: Seq<OutputModel>) -> TxModel {
    TxModel { version: TX_VERSION, lock_time: 0, inputs, outputs }
}

/// A builder for constructing bitcoin transactions.
pub struct TransactionBuilder {
    /// The transaction being built.
    transaction: bitcoin::Transaction,
}

impl TransactionBuilder {
    /// What the transaction built so far holds.
    pub closed spec fn contents(&self) -> TxModel {
        transaction_contents(self.transaction)
    }

    /// A builder holding a version 2 transaction with lock time 0 and no inputs
    /// or outputs.
    pub fn new() -> (b: Self)
        ensures
            b.contents() == payout_transaction(Seq::empty(), Seq::empty()),
    {
        TransactionBuilder { transaction: empty_transaction(TX_VERSION, 0) }
    }

    /// Adds an input spending output `vout` of transaction `txid`.
    pub fn add_input(self, txid: Txid, vout: u32) -> (b: Self)
        ensures
            b.contents() == (TxModel {
                inputs: self.contents().inputs.push(unsigned_input(txid@, vout)),
                ..self.contents()
            }),
    {
        let mut builder = self;
        let witness: Vec<Vec<u8>> = Vec::new();
        assert(witness@.map_values(|w: Vec<u8>| w@) =~= Seq::<Seq<u8>>::empty());
        push_input(&mut builder.transaction, txid, vout, Vec::new(), SEQUENCE_MAX, witness);
        builder
    }

    /// Adds an output paying `amount` to `address`.
    pub fn add_output(self, address: Address, amount: Amount) -> (b: Self)
        ensures
            b.contents() == (TxModel {
                outputs: self.contents().outputs.push(payment(address, amount)),
                ..self.contents()
            }),
    {
        let mut builder = self;
        let script = address.script_pubkey();
        push_output(&mut builder.transaction, amount, script);
        builder
    }

    /// The transaction built.
    pub fn build(self) -> (tx: bitcoin::Transaction)
        ensures
            transaction_contents(tx) == self.contents(),
    {
        self.transaction
    }
}

} // verus!
