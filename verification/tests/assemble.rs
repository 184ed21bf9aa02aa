use utxo_merger::assemble::{assemble, reversed, unsigned_input_from_electrum, AssembleError};
use utxo_merger::types::{
    OutPoint, TaggedOutput, TxOutput, Unspent, FEE_PER_INPUT, MIN_INPUTS, SEQUENCE_FINAL,
};

fn output(id: u8, value: u64) -> Unspent {
    let mut tx_hash = [0u8; 32];
    tx_hash[0] = id;
    tx_hash[31] = 0xee;
    Unspent { tx_hash, tx_pos: id as u32 + 7, value, height: Some(1) }
}

fn sources(values: &[u64]) -> Vec<TaggedOutput> {
    values
        .iter()
        .enumerate()
        .map(|(i, value)| TaggedOutput { output: output(i as u8, *value), key: i % 2 })
        .collect()
}

#[test]
fn constants_have_their_documented_values() {
    assert_eq!(FEE_PER_INPUT, 1000);
    assert_eq!(MIN_INPUTS, 4);
    assert_eq!(SEQUENCE_FINAL, 0xffff_ffff);
}

#[test]
fn reversed_turns_the_byte_order_around() {
    let mut hash = [0u8; 32];
    for (i, byte) in hash.iter_mut().enumerate() {
        *byte = i as u8;
    }
    let back = reversed(&hash);
    for i in 0..32 {
        assert_eq!(back[i], 31 - i as u8);
    }
    assert_eq!(reversed(&back), hash);
}

#[test]
fn input_names_the_output_it_spends() {
    let el = output(3, 123_456);
    let input = unsigned_input_from_electrum(&el);
    assert_eq!(input.previous_output, OutPoint { hash: reversed(&el.tx_hash), index: 10 });
    assert_eq!(input.previous_output.hash[0], 0xee);
    assert_eq!(input.previous_output.hash[31], 3);
    assert_eq!(input.sequence, 0xffff_ffff);
    assert_eq!(input.amount, 123_456);
}

#[test]
fn five_outputs_of_one_hundred_thousand_leave_495000() {
    let sources = sources(&[100_000; 5]);
    let destination = vec![0x76, 0xa9, 0x14];
    let tx = assemble(&sources, &destination).unwrap();
    assert_eq!(tx.inputs.len(), 5);
    assert_eq!(tx.outputs, vec![TxOutput { value: 495_000, script_pubkey: destination }]);
    for (input, source) in tx.inputs.iter().zip(sources.iter()) {
        assert_eq!(*input, unsigned_input_from_electrum(&source.output));
    }
}

#[test]
fn outputs_are_worth_the_inputs_less_one_fee_each() {
    let sources = sources(&[5_000, 1, 999, 20_000, 7, 1_000_000]);
    let tx = assemble(&sources, &Vec::new()).unwrap();
    let paid: u64 = tx.inputs.iter().map(|i| i.amount).sum();
    let received: u64 = tx.outputs.iter().map(|o| o.value).sum();
    assert_eq!(paid, 1_026_007);
    assert_eq!(received, paid - 1000 * 6);
    assert_eq!(received, 1_020_007);
}

#[test]
fn fees_that_eat_everything_are_rejected() {
    assert_eq!(
        assemble(&sources(&[1000, 1000, 1000, 1000]), &Vec::new()),
        Err(AssembleError::NothingToSend)
    );
    assert_eq!(
        assemble(&sources(&[0, 0, 0, 3999]), &Vec::new()),
        Err(AssembleError::NothingToSend)
    );
    assert_eq!(assemble(&sources(&[0, 0, 0, 4001]), &Vec::new()).unwrap().outputs[0].value, 1);
}

#[test]
fn amount_beyond_the_value_field_is_rejected() {
    assert_eq!(
        assemble(&sources(&[u64::MAX, 4001, 0, 0]), &Vec::new()),
        Err(AssembleError::AmountTooLarge)
    );
    assert_eq!(
        assemble(&sources(&[u64::MAX; 4]), &Vec::new()),
        Err(AssembleError::AmountTooLarge)
    );
    let tx = assemble(&sources(&[u64::MAX, 4000, 0, 0]), &Vec::new()).unwrap();
    assert_eq!(tx.outputs[0].value, u64::MAX);
}
