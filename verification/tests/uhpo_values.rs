use braidpool::uhpo::bitcoin_tx::{output, output_count, Address, Amount, Txid};
use braidpool::uhpo::builder::TransactionBuilder;
use braidpool::uhpo::error::UhpoError;

#[test]
fn amounts_and_addresses_keep_what_they_are_made_of() {
    assert_eq!(Amount::from_sat(21).to_sat(), 21);
    let a = Address::from_script(vec![0x51, 0x20, 7]);
    assert_eq!(a.script_pubkey(), vec![0x51, 0x20, 7]);
    assert_eq!(a.to_encoded(), "");
    let b = Address::new("bcrt1p-example".to_string(), vec![0x51, 0x20, 7]);
    assert_eq!(b.to_encoded(), "bcrt1p-example");
    assert_eq!(b.script_pubkey(), vec![0x51, 0x20, 7]);
    assert_ne!(a, b);
    let id = Txid::from_byte_array([9u8; 32]);
    assert_eq!(id.to_byte_array(), [9u8; 32]);
}

#[test]
fn builder_makes_version_two_unlocked_transactions() {
    let tx = TransactionBuilder::new()
        .add_input(Txid::from_byte_array([1u8; 32]), 3)
        .add_output(Address::from_script(vec![0x00, 0x14]), Amount::from_sat(42))
        .add_output(Address::from_script(vec![0x51]), Amount::from_sat(0))
        .build();
    assert_eq!(tx.version, bitcoin::transaction::Version::TWO);
    assert_eq!(tx.lock_time, bitcoin::absolute::LockTime::ZERO);
    assert_eq!(tx.input.len(), 1);
    assert_eq!(tx.input[0].previous_output.vout, 3);
    assert_eq!(bitcoin::hashes::Hash::to_byte_array(tx.input[0].previous_output.txid), [1u8; 32]);
    assert_eq!(tx.input[0].sequence, bitcoin::Sequence::MAX);
    assert!(tx.input[0].script_sig.is_empty());
    assert!(tx.input[0].witness.is_empty());
    assert_eq!(tx.output.len(), 2);
    assert_eq!(tx.output[0].value.to_sat(), 42);
    assert_eq!(tx.output[0].script_pubkey.to_bytes(), vec![0x00, 0x14]);
    assert_eq!(tx.output[1].script_pubkey.to_bytes(), vec![0x51]);
}

#[test]
fn error_descriptions() {
    assert_eq!(UhpoError::new("oops").to_string(), "Other error: oops");
    assert_eq!(
        UhpoError::NoPrevUpdateTxOut.to_string(),
        "No previous update transaction output provided"
    );
    let e = UhpoError::KeypairCreationError(secp256k1::Error::InvalidTweak);
    assert_eq!(e.to_string(), format!("Keypair creation error: {}", secp256k1::Error::InvalidTweak));
    let e = UhpoError::SignatureVerificationError(secp256k1::Error::InvalidSignature);
    assert_eq!(
        e.to_string(),
        format!("Signature verification error: {}", secp256k1::Error::InvalidSignature)
    );
    assert!(matches!(UhpoError::from(secp256k1::Error::InvalidTweak), UhpoError::KeypairCreationError(_)));
    assert!(matches!(UhpoError::new("x"), UhpoError::Other(m) if m == "x"));
}

#[test]
fn output_count_and_output_read_a_transaction() {
    let tx = TransactionBuilder::new()
        .add_output(Address::from_script(vec![0x51]), Amount::from_sat(5))
        .add_output(Address::from_script(vec![0x00, 0x14]), Amount::from_sat(6))
        .build();
    assert_eq!(output_count(&tx), 2);
    let second = output(&tx, 1);
    assert_eq!(second.value.to_sat(), 6);
    assert_eq!(second.script_pubkey, vec![0x00, 0x14]);
    let empty = TransactionBuilder::new().build();
    assert_eq!(output_count(&empty), 0);
}
