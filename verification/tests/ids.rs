use inx::error::Error;
use inx::ids::BlockId;
use inx::ids::OutputId;
use inx::ids::TransactionId;
use inx::ids::BLOCK_ID_LENGTH;
use inx::ids::OUTPUT_ID_LENGTH;
use inx::ids::TRANSACTION_ID_LENGTH;
use inx::wire;

fn bytes(len: usize, fill: u8) -> Vec<u8> {
    vec![fill; len]
}

#[test]
fn output_id_length_constants() {
    assert_eq!(OUTPUT_ID_LENGTH, 34);
    assert_eq!(BLOCK_ID_LENGTH, 32);
    assert_eq!(TRANSACTION_ID_LENGTH, 32);
}

#[test]
fn output_id_roundtrip() {
    let buf = bytes(34, 0xab);
    let id = OutputId::try_from(wire::OutputId { id: buf.clone() }).unwrap();
    assert_eq!(id.as_bytes(), &buf);
}

#[test]
fn block_id_roundtrip() {
    let buf = bytes(32, 0x01);
    let id = BlockId::try_from(wire::BlockId { id: buf.clone() }).unwrap();
    assert_eq!(id.as_bytes(), &buf);
}

#[test]
fn transaction_id_roundtrip() {
    let buf = bytes(32, 0xff);
    let id = TransactionId::try_from(wire::TransactionId { id: buf.clone() }).unwrap();
    assert_eq!(id.as_bytes(), &buf);
}

#[test]
fn output_id_wrong_lengths_fail() {
    for len in [0usize, 1, 33, 35, 64] {
        let r = OutputId::try_from(wire::OutputId { id: bytes(len, 0) });
        assert_eq!(r, Err(Error::InvalidBufferLength));
    }
}

#[test]
fn block_id_wrong_lengths_fail() {
    for len in [0usize, 31, 33] {
        let r = BlockId::try_from(wire::BlockId { id: bytes(len, 0) });
        assert_eq!(r, Err(Error::InvalidBufferLength));
    }
}

#[test]
fn transaction_id_wrong_lengths_fail() {
    for len in [0usize, 31, 33] {
        let r = TransactionId::try_from(wire::TransactionId { id: bytes(len, 0) });
        assert_eq!(r, Err(Error::InvalidBufferLength));
    }
}

#[test]
fn identifier_bytes_are_verbatim() {
    let mut buf = bytes(34, 0);
    for (i, b) in buf.iter_mut().enumerate() {
        *b = i as u8;
    }
    let id = OutputId::try_from(wire::OutputId { id: buf.clone() }).unwrap();
    assert_eq!(id.as_bytes()[0], 0);
    assert_eq!(id.as_bytes()[33], 33);
    assert_eq!(id.as_bytes(), &buf);
}
