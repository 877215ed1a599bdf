//! The payout settlement: spends the output of the latest payout update and
//! pays every miner their share.

use vstd::prelude::*;
use std::collections::HashMap;
use secp256k1::Scalar;
use crate::uhpo::bitcoin_tx::{
    Address, Amount, OutputModel, TxModel, TxOutput, transaction_contents, txid_of,
    compute_txid, output_at, outputs_view,
};
use crate::uhpo::builder::{TransactionBuilder, unsigned_input, payment, payout_transaction};
use crate::uhpo::error::UhpoError;
use crate::uhpo::signature::{
    KeypairBehavior, Secp256k1Behavior, SecretKeyBehavior, add_signature, signed_input, signing_outcome,
    tweak_value,
};
use crate::uhpo::payout_update::spent_output;

verus! {

/// `entries` lists every entry of `map` exactly once, in some order.
pub open spec fn lists_entries(entries: Seq<(Address, Amount)>, map: Map<Address, Amount>) -> bool {
    &&& forall|i: int| 0 <= i < entries.len() ==> #[trigger] map.contains_key(entries[i].0) && map[entries[i].0] == entries[i].1
    &&& forall|i: int, j: int| 0 <= i < j < entries.len() ==> entries[i].0 != entries[j].0
    &&& forall|k: Address| #[trigger] map.contains_key(k) ==> exists|i: int| 0 <= i < entries.len() && entries[i].0 == k
}

/// The outputs that pay each entry of `entries`, in order.
pub open spec fn payments(entries: Seq<(Address, Amount)>) -> Seq<OutputModel> {
    entries.map_values(|e: (Address, Amount)| payment(e.0, e.1))
}

/// `HashMap::into_iter`, collected into a vector: every entry of the map
/// exactly once, in the order in which the map is walked. That order depends on
/// the map's randomly seeded hasher, so it is not stated.
#[verifier::external_body]
fn map_entries(map: HashMap<Address, Amount>) -> (entries: Vec<(Address, Amount)>)
    ensures
        lists_entries(entries@, map@),
{
    map.into_iter().collect()
}

/// `PayoutSettlement` represents a cash-out of an eltoo-style payout.
pub struct PayoutSettlement {
    transaction: bitcoin::Transaction,
    /// The output of the latest payout update, which the only input spends.
    prev_update_txout: TxOutput,
}

/// A copy of `o`.
fn copy_output(o: &TxOutput) -> (r: TxOutput)
    ensures
        r@ == o@,
{
    let script_pubkey = o.script_pubkey.clone();
    assert(script_pubkey@ =~= o.script_pubkey@);
    TxOutput { value: o.value, script_pubkey }
}

impl PayoutSettlement {
    /// What the settlement transaction holds.
    pub closed spec fn contents(&self) -> TxModel {
        transaction_contents(self.transaction)
    }

    /// The output of the latest payout update that the settlement spends.
    pub closed spec fn prev_update_prevout(&self) -> OutputModel {
        self.prev_update_txout@
    }

    /// The settlement has exactly one input.
    pub closed spec fn wf(&self) -> bool {
        self.contents().inputs.len() == 1
    }

    /// Creates a settlement spending output 0 of `latest_eltoo_out` with one
    /// output for each entry of `payout_map`, paying the amount to the address,
    /// in the order in which the map is walked. It panics (so it is required
    /// here) where `latest_eltoo_out` has no output 0, which a caller checks
    /// with `output_count`.
    pub fn new(latest_eltoo_out: bitcoin::Transaction, payout_map: HashMap<Address, Amount>) -> (s: Self)
        requires
            transaction_contents(latest_eltoo_out).outputs.len() > 0,
        ensures
            s.wf(),
            s.prev_update_prevout() == spent_output(latest_eltoo_out),
            exists|order: Seq<(Address, Amount)>|
                lists_entries(order, payout_map@) && s.contents() == payout_transaction(
                    seq![unsigned_input(txid_of(transaction_contents(latest_eltoo_out)), 0)],
                    payments(order),
                ),
    {
        // a payout update always pays the pool through its output 0
        let mut builder = TransactionBuilder::new().add_input(compute_txid(&latest_eltoo_out), 0);
        let ghost input = unsigned_input(txid_of(transaction_contents(latest_eltoo_out)), 0);

        let entries = map_entries(payout_map);
        let n = entries.len();
        let mut i: usize = 0;
        assert(payments(entries@.subrange(0, 0)) =~= Seq::<OutputModel>::empty());
        assert(builder.contents().inputs =~= seq![input]);
        while i < n
            invariant
                n == entries@.len(),
                i <= n,
                builder.contents() == payout_transaction(
                    seq![input],
                    payments(entries@.subrange(0, i as int)),
                ),
            decreases n - i,
        {
            let address = Address::from_script(entries[i].0.script_pubkey());
            let amount = entries[i].1;
            builder = builder.add_output(address, amount);
            i = i + 1;
            assert(payments(entries@.subrange(0, i as int)) =~= payments(
                entries@.subrange(0, i - 1 as int),
            ).push(payment(entries@[i - 1 as int].0, entries@[i - 1 as int].1)));
        }
        assert(entries@.subrange(0, n as int) =~= entries@);

        PayoutSettlement {
            transaction: builder.build(),
            prev_update_txout: output_at(&latest_eltoo_out, 0),
        }
    }

    /// Signs the only input, which spends the latest payout update's output.
    pub fn add_prev_update_sig<S, K, E>(
        &mut self,
        private_key: S,
        tweak: Option<&Scalar>,
        secp: &E,
    ) -> (r: Result<(), UhpoError>) where
        S: SecretKeyBehavior<K, E>,
        K: KeypairBehavior<E>,
        E: Secp256k1Behavior + 'static,

        requires
            old(self).wf(),
        ensures
            final(self).wf(),
            final(self).prev_update_prevout() == old(self).prev_update_prevout(),
            match r {
                Ok(()) => signed_input(old(self).contents(), final(self).contents(), 0),
                Err(UhpoError::KeypairCreationError(_)) => tweak is Some && *final(self) == *old(self),
                Err(UhpoError::SignatureVerificationError(_)) => *final(self) == *old(self),
                Err(_) => false,
            },
            signing_outcome::<S, K, E>(
                r,
                old(self).contents(),
                final(self).contents(),
                0,
                seq![old(self).prev_update_prevout()],
                private_key,
                tweak_value(tweak),
                *secp,
            ),
    {
        let mut prevouts: Vec<TxOutput> = Vec::new();
        prevouts.push(copy_output(&self.prev_update_txout));
        assert(outputs_view(prevouts@) =~= seq![self.prev_update_prevout()]);
        add_signature(&mut self.transaction, 0, prevouts.as_slice(), private_key, tweak, secp)
    }

    /// The settlement transaction as built and signed so far.
    pub fn transaction(&self) -> (tx: &bitcoin::Transaction)
        ensures
            transaction_contents(*tx) == self.contents(),
    {
        &self.transaction
    }

    /// The settlement transaction.
    pub fn build(self) -> (tx: bitcoin::Transaction)
        ensures
            transaction_contents(tx) == self.contents(),
    {
        self.transaction
    }
}

} // verus!

verus! {

/// A settlement pays every miner exactly what the payout map holds for them:
/// for whatever order the map is walked in, there is one output per entry, each
/// entry of the map is paid by an output with its address's script and exactly
/// its amount in satoshis, and every output pays some entry of the map its
/// amount.
pub proof fn settlement_pays_each_entry_its_amount(
    order: Seq<(Address, Amount)>,
    map: Map<Address, Amount>,
)
    requires
        lists_entries(order, map),
    ensures
        payments(order).len() == order.len(),
        forall|i: int|
            0 <= i < order.len() ==> (#[trigger] payments(order)[i]).value == order[i].1@
                && payments(order)[i].script_pubkey == order[i].0@,
        forall|a: Address|
            #[trigger] map.contains_key(a) ==> exists|i: int|
                0 <= i < order.len() && (#[trigger] payments(order)[i]).script_pubkey == a@
                    && payments(order)[i].value == map[a]@,
        forall|i: int|
            0 <= i < order.len() ==> map.contains_key(order[i].0) && (#[trigger] payments(
                order,
            )[i]).value == map[order[i].0]@ && payments(order)[i].script_pubkey == order[i].0@,
{
    assert forall|a: Address| #[trigger] map.contains_key(a) implies exists|i: int|
        0 <= i < order.len() && (#[trigger] payments(order)[i]).script_pubkey == a@
            && payments(order)[i].value == map[a]@ by {
        let i = choose|i: int| 0 <= i < order.len() && order[i].0 == a;
        assert(map.contains_key(order[i].0));
        assert(payments(order)[i].value == order[i].1@);
    }
    assert forall|i: int| 0 <= i < order.len() implies map.contains_key(order[i].0) && (#[trigger] payments(
        order,
    )[i]).value == map[order[i].0]@ && payments(order)[i].script_pubkey == order[i].0@ by {
        assert(map.contains_key(order[i].0));
    }
}

} // verus!
