//! The payout update: an eltoo-style transaction that spends a matured
//! coinbase, and the previous payout update when there is one, into a single
//! output to the next pool address.

use vstd::prelude::*;
use secp256k1::{Keypair, Scalar, SecretKey};
use crate::uhpo::bitcoin_tx::{
    Address, Amount, OutputModel, TxModel, TxOutput, transaction_contents, txid_of,
    compute_txid, output_at,
};
use crate::uhpo::builder::{TransactionBuilder, unsigned_input, payout_transaction};
use crate::uhpo::error::UhpoError;
use crate::uhpo::bitcoin_tx::outputs_view;
use crate::uhpo::signature::{SigningContext, add_signature, signed_input, signing_outcome, tweak_value};

verus! {

#[verifier::external_type_specification]
#[verifier::external_body]
pub struct ExFmtError(std::fmt::Error);

/// Output 0 of `tx`: the output that a payout spends.
pub open spec fn spent_output(tx: bitcoin::Transaction) -> OutputModel {
    transaction_contents(tx).outputs[0]
}

/// The satoshis that a payout update gathers: output 0 of the coinbase plus
/// output 0 of the previous update, when there is one.
pub open spec fn gathered_value(prev_update_tx: Option<bitcoin::Transaction>, coinbase_tx: bitcoin::Transaction) -> int {
    match prev_update_tx {
        Some(prev) => spent_output(coinbase_tx).value + spent_output(prev).value,
        None => spent_output(coinbase_tx).value as int,
    }
}

/// The transaction of a new payout update: it spends output 0 of the coinbase
/// and then output 0 of the previous update, and pays what they hold, less the
/// projected fee, to `next_out_address`.
pub open spec fn payout_update_transaction(
    prev_update_tx: Option<bitcoin::Transaction>,
    coinbase_tx: bitcoin::Transaction,
    next_out_address: Address,
    projected_fee: Amount,
) -> TxModel {
    let coinbase_input = unsigned_input(txid_of(transaction_contents(coinbase_tx)), 0);
    let inputs = match prev_update_tx {
        Some(prev) => seq![coinbase_input, unsigned_input(txid_of(transaction_contents(prev)), 0)],
        None => seq![coinbase_input],
    };
    payout_transaction(
        inputs,
        seq![OutputModel {
            value: (gathered_value(prev_update_tx, coinbase_tx) - projected_fee@) as u64,
            script_pubkey: next_out_address@,
        }],
    )
}

/// The outputs that an update's inputs spend, in input order: the coinbase
/// output, then the previous update's output when there is one.
pub open spec fn update_prevouts(coinbase: OutputModel, prev_update: Option<OutputModel>) -> Seq<OutputModel> {
    match prev_update {
        Some(p) => seq![coinbase, p],
        None => seq![coinbase],
    }
}

/// A copy of `o`.
fn copy_output(o: &TxOutput) -> (r: TxOutput)
    ensures
        r@ == o@,
{
    let script_pubkey = o.script_pubkey.clone();
    assert(script_pubkey@ =~= o.script_pubkey@);
    TxOutput { value: o.value, script_pubkey }
}

/// `PayoutUpdate` represents an update to an eltoo-style payout.
pub struct PayoutUpdate {
    transaction: bitcoin::Transaction,
    /// The outputs that the inputs spend, kept for signing them.
    coinbase_txout: TxOutput,
    prev_update_txout: Option<TxOutput>,
}

impl PayoutUpdate {
    /// What the update transaction holds.
    pub closed spec fn contents(&self) -> TxModel {
        transaction_contents(self.transaction)
    }

    /// The coinbase output that input 0 spends.
    pub closed spec fn coinbase_prevout(&self) -> OutputModel {
        self.coinbase_txout@
    }

    /// The previous update's output that input 1 spends, if there is one.
    pub closed spec fn prev_update_prevout(&self) -> Option<OutputModel> {
        match self.prev_update_txout {
            Some(o) => Some(o@),
            None => None,
        }
    }

    /// The update spends the coinbase output with input 0 and, when it has a
    /// previous update output, that output with input 1, and has no other inputs.
    pub closed spec fn wf(&self) -> bool {
        self.contents().inputs.len() == if self.prev_update_txout is Some { 2int } else { 1int }
    }

    /// Builds the update from the coinbase, the previous update if any, the
    /// address that the gathered funds go to and the fee to leave to miners.
    /// It panics (so it is required here) where an output 0 is missing, where
    /// the gathered value overflows or where the fee exceeds it; a caller
    /// checks these with `output_count` and `output`.
    pub fn new(
        prev_update_tx: Option<bitcoin::Transaction>,
        coinbase_tx: bitcoin::Transaction,
        next_out_address: Address,
        projected_fee: Amount,
    ) -> (r: Result<Self, std::fmt::Error>)
        requires
            transaction_contents(coinbase_tx).outputs.len() > 0,
            prev_update_tx matches Some(prev) ==> transaction_contents(prev).outputs.len() > 0,
            gathered_value(prev_update_tx, coinbase_tx) <= u64::MAX,
            projected_fee@ <= gathered_value(prev_update_tx, coinbase_tx),
        ensures
            r matches Ok(update) && {
                &&& update.wf()
                &&& update.contents() == payout_update_transaction(
                    prev_update_tx,
                    coinbase_tx,
                    next_out_address,
                    projected_fee,
                )
                &&& update.coinbase_prevout() == spent_output(coinbase_tx)
                &&& update.prev_update_prevout() == match prev_update_tx {
                    Some(prev) => Some(spent_output(prev)),
                    None => None::<OutputModel>,
                }
            },
    {
        let coinbase_txout = output_at(&coinbase_tx, 0);

        // the coinbase is always spent through its output 0
        let mut builder = TransactionBuilder::new().add_input(compute_txid(&coinbase_tx), 0);

        let prev_update_txout = match prev_update_tx {
            Some(tx) => {
                builder = builder.add_input(compute_txid(&tx), 0);
                Some(output_at(&tx, 0))
            },
            None => None,
        };

        let total_sat: u64 = match &prev_update_txout {
            Some(txout) => coinbase_txout.value.to_sat() + txout.value.to_sat(),
            None => coinbase_txout.value.to_sat(),
        };

        let transaction = builder.add_output(
            next_out_address,
            Amount::from_sat(total_sat - projected_fee.to_sat()),
        ).build();

        let update = PayoutUpdate { transaction, coinbase_txout, prev_update_txout };
        proof {
            let c = update.contents();
            assert(c.inputs =~= payout_update_transaction(
                prev_update_tx,
                coinbase_tx,
                next_out_address,
                projected_fee,
            ).inputs);
            assert(c.outputs =~= payout_update_transaction(
                prev_update_tx,
                coinbase_tx,
                next_out_address,
                projected_fee,
            ).outputs);
        }
        Ok(update)
    }

    /// Signs input 0, which spends the coinbase output.
    pub fn add_coinbase_sig(
        &mut self,
        private_key: SecretKey,
        tweak: Option<&Scalar>,
        secp: &SigningContext,
    ) -> (r: Result<(), UhpoError>)
        requires
            old(self).wf(),
        ensures
            final(self).wf(),
            final(self).coinbase_prevout() == old(self).coinbase_prevout(),
            final(self).prev_update_prevout() == old(self).prev_update_prevout(),
            match r {
                Ok(()) => signed_input(old(self).contents(), final(self).contents(), 0),
                Err(UhpoError::KeypairCreationError(_)) => tweak is Some && *final(self) == *old(self),
                Err(UhpoError::SignatureVerificationError(_)) => *final(self) == *old(self),
                Err(_) => false,
            },
            signing_outcome::<SecretKey, Keypair, SigningContext>(
                r,
                old(self).contents(),
                final(self).contents(),
                0,
                update_prevouts(old(self).coinbase_prevout(), old(self).prev_update_prevout()),
                private_key,
                tweak_value(tweak),
                *secp,
            ),
    {
        let mut prevouts: Vec<TxOutput> = Vec::new();
        prevouts.push(copy_output(&self.coinbase_txout));
        match &self.prev_update_txout {
            Some(prev_update_txout) => prevouts.push(copy_output(prev_update_txout)),
            None => {},
        }
        assert(outputs_view(prevouts@) =~= update_prevouts(
            self.coinbase_prevout(),
            self.prev_update_prevout(),
        ));
        add_signature(&mut self.transaction, 0, prevouts.as_slice(), private_key, tweak, secp)
    }

    /// Signs input 1, which spends the previous update's output; fails with
    /// `NoPrevUpdateTxOut`, changing nothing, when the update has none.
    pub fn add_prev_update_sig(
        &mut self,
        private_key: SecretKey,
        tweak: Option<&Scalar>,
        secp: &SigningContext,
    ) -> (r: Result<(), UhpoError>)
        requires
            old(self).wf(),
        ensures
            final(self).wf(),
            final(self).coinbase_prevout() == old(self).coinbase_prevout(),
            final(self).prev_update_prevout() == old(self).prev_update_prevout(),
            match r {
                Ok(()) => signed_input(old(self).contents(), final(self).contents(), 1),
                Err(UhpoError::NoPrevUpdateTxOut) => old(self).prev_update_prevout() is None
                    && *final(self) == *old(self),
                Err(UhpoError::KeypairCreationError(_)) => tweak is Some && *final(self) == *old(self),
                Err(UhpoError::SignatureVerificationError(_)) => *final(self) == *old(self),
                Err(_) => false,
            },
            old(self).prev_update_prevout() is None <==> r matches Err(UhpoError::NoPrevUpdateTxOut),
            old(self).prev_update_prevout() matches Some(p) ==> signing_outcome::<
                SecretKey,
                Keypair,
                SigningContext,
            >(
                r,
                old(self).contents(),
                final(self).contents(),
                1,
                seq![old(self).coinbase_prevout(), p],
                private_key,
                tweak_value(tweak),
                *secp,
            ),
    {
        let prev_update_txout = match &self.prev_update_txout {
            Some(txout) => copy_output(txout),
            None => {
                return Err(UhpoError::NoPrevUpdateTxOut);
            },
        };
        let mut prevouts: Vec<TxOutput> = Vec::new();
        prevouts.push(copy_output(&self.coinbase_txout));
        prevouts.push(prev_update_txout);
        assert(outputs_view(prevouts@) =~= seq![
            self.coinbase_prevout(),
            self.prev_update_prevout()->Some_0,
        ]);
        add_signature(&mut self.transaction, 1, prevouts.as_slice(), private_key, tweak, secp)
    }

    /// The update transaction as built and signed so far.
    pub fn transaction(&self) -> (tx: &bitcoin::Transaction)
        ensures
            transaction_contents(*tx) == self.contents(),
    {
        &self.transaction
    }

    /// The previous update's output that input 1 spends, if there is one.
    pub fn prev_update_txout(&self) -> (o: &Option<TxOutput>)
        ensures
            match *o {
                Some(txout) => self.prev_update_prevout() == Some(txout@),
                None => self.prev_update_prevout() is None,
            },
    {
        &self.prev_update_txout
    }

    /// The update transaction.
    pub fn build(self) -> (tx: bitcoin::Transaction)
        ensures
            transaction_contents(tx) == self.contents(),
    {
        self.transaction
    }
}

} // verus!

verus! {

/// A payout update keeps value: what its single output pays plus the
/// projected fee is exactly what the coinbase output and the previous update's
/// output hold together.
pub proof fn update_conserves_value(
    prev_update_tx: Option<bitcoin::Transaction>,
    coinbase_tx: bitcoin::Transaction,
    next_out_address: Address,
    projected_fee: Amount,
)
    requires
        gathered_value(prev_update_tx, coinbase_tx) <= u64::MAX,
        projected_fee@ <= gathered_value(prev_update_tx, coinbase_tx),
    ensures
        ({
            let tx = payout_update_transaction(prev_update_tx, coinbase_tx, next_out_address, projected_fee);
            &&& tx.outputs.len() == 1
            &&& tx.outputs[0].value + projected_fee@ == gathered_value(prev_update_tx, coinbase_tx)
        }),
{
}

/// Payout updates form a chain: an update made on top of a previous one
/// spends output 0 of that previous update, and output 0 of every update pays
/// the next pool address.
pub proof fn updates_chain(
    prev_update_tx: bitcoin::Transaction,
    coinbase_tx: bitcoin::Transaction,
    next_out_address: Address,
    projected_fee: Amount,
)
    ensures
        ({
            let tx = payout_update_transaction(Some(prev_update_tx), coinbase_tx, next_out_address, projected_fee);
            &&& tx.inputs.len() == 2
            &&& tx.inputs[1].txid == txid_of(transaction_contents(prev_update_tx))
            &&& tx.inputs[1].vout == 0
            &&& tx.outputs[0].script_pubkey == next_out_address@
        }),
{
}

/// Signing both inputs of a freshly built update leaves exactly one witness
/// element, a 65-byte key-path signature, on each of them, and changes
/// nothing else.
pub proof fn both_inputs_signed(
    prev_update_tx: bitcoin::Transaction,
    coinbase_tx: bitcoin::Transaction,
    next_out_address: Address,
    projected_fee: Amount,
    after_coinbase_sig: TxModel,
    after_both: TxModel,
)
    requires
        signed_input(
            payout_update_transaction(Some(prev_update_tx), coinbase_tx, next_out_address, projected_fee),
            after_coinbase_sig,
            0,
        ),
        signed_input(after_coinbase_sig, after_both, 1),
    ensures
        ({
            let fresh = payout_update_transaction(Some(prev_update_tx), coinbase_tx, next_out_address, projected_fee);
            &&& after_both.inputs.len() == 2
            &&& after_both.inputs[0].witness.len() == 1
            &&& after_both.inputs[1].witness.len() == 1
            &&& after_both.inputs[0].witness[0].len() == 65
            &&& after_both.inputs[1].witness[0].len() == 65
            &&& after_both.outputs == fresh.outputs
            &&& after_both.version == fresh.version
            &&& after_both.lock_time == fresh.lock_time
        }),
{
}

/// A payout update pays, in its single output to the next pool address, the
/// exact sum in satoshis of output 0 of the coinbase and output 0 of the
/// previous update (when there is one), less the projected fee: no satoshi is
/// lost or made, whatever the amounts, as long as their sum fits in 64 bits.
pub proof fn update_pays_exact_sum_less_fee(
    prev_update_tx: Option<bitcoin::Transaction>,
    coinbase_tx: bitcoin::Transaction,
    next_out_address: Address,
    projected_fee: Amount,
)
    requires
        transaction_contents(coinbase_tx).outputs.len() > 0,
        prev_update_tx matches Some(prev) ==> transaction_contents(prev).outputs.len() > 0,
        match prev_update_tx {
            Some(prev) => transaction_contents(coinbase_tx).outputs[0].value
                + transaction_contents(prev).outputs[0].value <= u64::MAX
                && projected_fee@ <= transaction_contents(coinbase_tx).outputs[0].value
                + transaction_contents(prev).outputs[0].value,
            None => projected_fee@ <= transaction_contents(coinbase_tx).outputs[0].value,
        },
    ensures
        ({
            let tx = payout_update_transaction(prev_update_tx, coinbase_tx, next_out_address, projected_fee);
            &&& tx.outputs.len() == 1
            &&& tx.outputs[0].script_pubkey == next_out_address@
            &&& match prev_update_tx {
                Some(prev) => tx.outputs[0].value + projected_fee@ == transaction_contents(
                    coinbase_tx,
                ).outputs[0].value + transaction_contents(prev).outputs[0].value,
                None => tx.outputs[0].value + projected_fee@ == transaction_contents(
                    coinbase_tx,
                ).outputs[0].value,
            }
        }),
{
}

/// The outputs that an update's signatures commit to are exactly the outputs
/// that its inputs spend, in input order: input `i` spends output `vout` of the
/// transaction whose txid it names, and prevout `i` is that very output of that
/// transaction (the coinbase first, then the previous update).
pub proof fn update_signs_over_the_outputs_it_spends(
    prev_update_tx: Option<bitcoin::Transaction>,
    coinbase_tx: bitcoin::Transaction,
    next_out_address: Address,
    projected_fee: Amount,
)
    requires
        transaction_contents(coinbase_tx).outputs.len() > 0,
        prev_update_tx matches Some(prev) ==> transaction_contents(prev).outputs.len() > 0,
    ensures
        ({
            let tx = payout_update_transaction(prev_update_tx, coinbase_tx, next_out_address, projected_fee);
            let prevouts = update_prevouts(
                transaction_contents(coinbase_tx).outputs[0],
                match prev_update_tx {
                    Some(prev) => Some(transaction_contents(prev).outputs[0]),
                    None => None,
                },
            );
            &&& prevouts.len() == tx.inputs.len()
            &&& tx.inputs[0].txid == txid_of(transaction_contents(coinbase_tx))
            &&& prevouts[0] == transaction_contents(coinbase_tx).outputs[tx.inputs[0].vout as int]
            &&& prev_update_tx matches Some(prev) ==> {
                &&& tx.inputs[1].txid == txid_of(transaction_contents(prev))
                &&& prevouts[1] == transaction_contents(prev).outputs[tx.inputs[1].vout as int]
            }
        }),
{
}

/// The prevouts of an update are the coinbase output alone, or the coinbase
/// output followed by the previous update's output: nothing else, in no other
/// order.
pub proof fn update_prevouts_are_the_spent_outputs(coinbase: OutputModel, prev_update: OutputModel)
    ensures
        update_prevouts(coinbase, None) == seq![coinbase],
        update_prevouts(coinbase, Some(prev_update)) == seq![coinbase, prev_update],
{
}

} // verus!
