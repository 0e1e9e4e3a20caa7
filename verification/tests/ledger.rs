use bee_block::output::Output;
use bee_block::output::TreasuryOutput;
use packable::PackableExt;

use inx::error::Error;
use inx::error::FieldName;
use inx::ledger::LedgerOutput;
use inx::ledger::LedgerSpent;
use inx::ledger::LedgerUpdate;
use inx::wire;

fn bytes(len: usize, fill: u8) -> Vec<u8> {
    vec![fill; len]
}

const TOKEN_SUPPLY: u64 = 1_000_000_000;

fn treasury_output(amount: u64) -> Output {
    Output::Treasury(TreasuryOutput::new(amount, TOKEN_SUPPLY).unwrap())
}

fn valid_body(amount: u64) -> Vec<u8> {
    treasury_output(amount).pack_to_vec()
}

fn valid_created(fill: u8, amount: u64) -> wire::LedgerOutput {
    wire::LedgerOutput {
        output_id: Some(wire::OutputId { id: bytes(34, fill) }),
        block_id: Some(wire::BlockId { id: bytes(32, fill) }),
        milestone_index_booked: 100,
        milestone_timestamp_booked: 12345,
        output: Some(wire::RawOutput { data: valid_body(amount) }),
    }
}

fn valid_spent(fill: u8, amount: u64) -> wire::LedgerSpent {
    wire::LedgerSpent {
        output: Some(valid_created(fill, amount)),
        transaction_id_spent: Some(wire::TransactionId { id: bytes(32, fill) }),
        milestone_index_spent: 101,
        milestone_timestamp_spent: 23456,
    }
}

#[test]
fn created_output_converts_exactly() {
    let d = LedgerOutput::try_from(valid_created(0xaa, 1000)).unwrap();
    assert_eq!(d.output_id.as_bytes(), &bytes(34, 0xaa));
    assert_eq!(d.block_id.as_bytes(), &bytes(32, 0xaa));
    assert_eq!(d.milestone_index_booked, 100);
    assert_eq!(d.milestone_timestamp_booked, 12345);
    assert_eq!(d.output, treasury_output(1000));
}

#[test]
fn created_output_wrong_output_id_length_fails() {
    let mut w = valid_created(0xaa, 1000);
    w.output_id = Some(wire::OutputId { id: bytes(33, 0xaa) });
    assert_eq!(LedgerOutput::try_from(w), Err(Error::InvalidBufferLength));
}

#[test]
fn created_output_missing_output_id() {
    let mut w = valid_created(0, 1);
    w.output_id = None;
    assert_eq!(
        LedgerOutput::try_from(w),
        Err(Error::MissingField(FieldName::OutputId))
    );
    assert_eq!(FieldName::OutputId.as_str(), "output_id");
}

#[test]
fn created_output_missing_block_id() {
    let mut w = valid_created(0, 1);
    w.block_id = None;
    assert_eq!(
        LedgerOutput::try_from(w),
        Err(Error::MissingField(FieldName::MessageId))
    );
    assert_eq!(FieldName::MessageId.as_str(), "message_id");
}

#[test]
fn created_output_missing_body() {
    let mut w = valid_created(0, 1);
    w.output = None;
    assert_eq!(
        LedgerOutput::try_from(w),
        Err(Error::MissingField(FieldName::Output))
    );
    assert_eq!(FieldName::Output.as_str(), "output");
}

#[test]
fn created_output_two_fields_missing_reports_first() {
    let mut w = valid_created(0, 1);
    w.output_id = None;
    w.output = None;
    assert_eq!(
        LedgerOutput::try_from(w),
        Err(Error::MissingField(FieldName::OutputId))
    );
    let mut w = valid_created(0, 1);
    w.block_id = None;
    w.output = None;
    assert_eq!(
        LedgerOutput::try_from(w),
        Err(Error::MissingField(FieldName::MessageId))
    );
}

#[test]
fn created_output_garbage_body_fails() {
    let mut w = valid_created(0, 1);
    w.output = Some(wire::RawOutput { data: vec![0xfe, 0xdc] });
    assert_eq!(LedgerOutput::try_from(w), Err(Error::InvalidRawBytes));
    let mut w = valid_created(0, 1);
    w.output = Some(wire::RawOutput { data: Vec::new() });
    assert_eq!(LedgerOutput::try_from(w), Err(Error::InvalidRawBytes));
}

#[test]
fn reconverting_the_same_record_yields_an_equal_result() {
    let w = valid_created(0x66, 9000);
    assert_eq!(
        LedgerOutput::try_from(w.clone()).unwrap(),
        LedgerOutput::try_from(w).unwrap()
    );
}

#[test]
fn spent_output_converts_exactly() {
    let d = LedgerSpent::try_from(valid_spent(0x11, 777)).unwrap();
    assert_eq!(d.output.output_id.as_bytes(), &bytes(34, 0x11));
    assert_eq!(d.output.output, treasury_output(777));
    assert_eq!(d.transaction_id_spent.as_bytes(), &bytes(32, 0x11));
    assert_eq!(d.milestone_index_spent, 101);
    assert_eq!(d.milestone_timestamp_spent, 23456);
}

#[test]
fn spent_output_missing_embedded_output() {
    let mut w = valid_spent(0, 1);
    w.output = None;
    assert_eq!(
        LedgerSpent::try_from(w),
        Err(Error::MissingField(FieldName::Output))
    );
}

#[test]
fn spent_output_missing_transaction_id() {
    let mut w = valid_spent(0, 1);
    w.transaction_id_spent = None;
    assert_eq!(
        LedgerSpent::try_from(w),
        Err(Error::MissingField(FieldName::TransactionId))
    );
    assert_eq!(FieldName::TransactionId.as_str(), "transaction_id");
}

#[test]
fn spent_output_embedded_error_propagates_unchanged() {
    let mut inner = valid_created(0, 1);
    inner.block_id = None;
    let mut w = valid_spent(0, 1);
    w.output = Some(inner);
    assert_eq!(
        LedgerSpent::try_from(w),
        Err(Error::MissingField(FieldName::MessageId))
    );
}

#[test]
fn update_preserves_lengths_order_and_elements() {
    let creations = vec![
        valid_created(0x01, 10),
        valid_created(0x02, 20),
        valid_created(0x03, 30),
    ];
    let spends = vec![valid_spent(0x04, 40), valid_spent(0x05, 50)];
    let w = wire::LedgerUpdate {
        milestone_index: 42,
        created: creations.clone(),
        consumed: spends.clone(),
    };
    let d = LedgerUpdate::try_from(w).unwrap();
    assert_eq!(d.milestone_index, 42);
    assert_eq!(d.created.len(), 3);
    assert_eq!(d.consumed.len(), 2);
    for (i, c) in creations.into_iter().enumerate() {
        assert_eq!(d.created[i], LedgerOutput::try_from(c).unwrap());
    }
    for (j, s) in spends.into_iter().enumerate() {
        assert_eq!(d.consumed[j], LedgerSpent::try_from(s).unwrap());
    }
    assert_eq!(d.created[0].output, treasury_output(10));
    assert_eq!(d.created[2].output, treasury_output(30));
}

#[test]
fn update_empty_batch_converts() {
    let w = wire::LedgerUpdate { milestone_index: 7, created: Vec::new(), consumed: Vec::new() };
    let d = LedgerUpdate::try_from(w).unwrap();
    assert_eq!(d.milestone_index, 7);
    assert!(d.created.is_empty());
    assert!(d.consumed.is_empty());
}

#[test]
fn update_fails_fast_on_malformed_creation() {
    let mut bad = valid_created(0x02, 20);
    bad.block_id = None;
    let w = wire::LedgerUpdate {
        milestone_index: 42,
        created: vec![valid_created(0x01, 10), bad, valid_created(0x03, 30)],
        consumed: vec![valid_spent(0x04, 40)],
    };
    assert_eq!(
        LedgerUpdate::try_from(w),
        Err(Error::MissingField(FieldName::MessageId))
    );
}

#[test]
fn update_creation_error_precedes_spend_error() {
    let mut bad_creation = valid_created(0x02, 20);
    bad_creation.output = Some(wire::RawOutput { data: vec![0xff] });
    let mut bad_spend = valid_spent(0x04, 40);
    bad_spend.transaction_id_spent = None;
    let w = wire::LedgerUpdate {
        milestone_index: 42,
        created: vec![bad_creation],
        consumed: vec![bad_spend],
    };
    assert_eq!(LedgerUpdate::try_from(w), Err(Error::InvalidRawBytes));
}

#[test]
fn update_reports_first_malformed_spend() {
    let mut bad_spend = valid_spent(0x04, 40);
    bad_spend.transaction_id_spent = Some(wire::TransactionId { id: bytes(31, 0) });
    let w = wire::LedgerUpdate {
        milestone_index: 42,
        created: vec![valid_created(0x01, 10)],
        consumed: vec![valid_spent(0x03, 30), bad_spend],
    };
    assert_eq!(LedgerUpdate::try_from(w), Err(Error::InvalidBufferLength));
}
