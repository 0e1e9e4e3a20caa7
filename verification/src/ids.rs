//! Fixed-length domain identifiers and their decoder.
//!
//! A wire identifier is an arbitrary-length byte buffer; a domain identifier
//! is a byte sequence of one exact, kind-specific length. Decoding succeeds
//! if and only if the buffer's length equals the kind's required length, and
//! then holds the bytes verbatim; the only failure is
//! [`Error::InvalidBufferLength`]. No byte is ever reinterpreted, truncated
//! or padded.

use vstd::prelude::*;

use crate::error::Error;
use crate::wire;

verus! {

/// The exact byte length of an output identifier: a transaction identifier
/// followed by a little-endian output index.
pub const OUTPUT_ID_LENGTH: usize = 34;

/// The exact byte length of a block identifier.
pub const BLOCK_ID_LENGTH: usize = 32;

/// The exact byte length of a transaction identifier.
pub const TRANSACTION_ID_LENGTH: usize = 32;

/// The identifier of an output: exactly [`OUTPUT_ID_LENGTH`] bytes.
#[derive(Clone, Debug, PartialEq, Eq, Hash)]
pub struct OutputId {
    bytes: Vec<u8>,
}

/// The identifier of a block: exactly [`BLOCK_ID_LENGTH`] bytes.
#[derive(Clone, Debug, PartialEq, Eq, Hash)]
pub struct BlockId {
    bytes: Vec<u8>,
}

/// The identifier of a transaction: exactly [`TRANSACTION_ID_LENGTH`] bytes.
#[derive(Clone, Debug, PartialEq, Eq, Hash)]
pub struct TransactionId {
    bytes: Vec<u8>,
}

impl View for OutputId {
    type V = Seq<u8>;

    closed spec fn view(&self) -> Seq<u8> {
        self.bytes@
    }
}

impl View for BlockId {
    type V = Seq<u8>;

    closed spec fn view(&self) -> Seq<u8> {
        self.bytes@
    }
}

impl View for TransactionId {
    type V = Seq<u8>;

    closed spec fn view(&self) -> Seq<u8> {
        self.bytes@
    }
}

impl OutputId {
    /// The identifier holds exactly [`OUTPUT_ID_LENGTH`] bytes.
    pub open spec fn is_valid(&self) -> bool {
        self@.len() == OUTPUT_ID_LENGTH
    }

    /// Decodes a wire output identifier. Succeeds, with the bytes verbatim,
    /// if and only if the buffer holds exactly [`OUTPUT_ID_LENGTH`] bytes.
    pub fn try_from(value: wire::OutputId) -> (r: Result<Self, Error>)
        ensures
            r is Ok <==> value.id@.len() == OUTPUT_ID_LENGTH,
            r matches Ok(d) ==> d@ == value.id@ && d.is_valid(),
            r matches Err(e) ==> e == Error::InvalidBufferLength,
    {
        if value.id.len() == OUTPUT_ID_LENGTH {
            Ok(OutputId { bytes: value.id })
        } else {
            Err(Error::InvalidBufferLength)
        }
    }

    /// The identifier's bytes: the very buffer it was decoded from.
    pub fn as_bytes(&self) -> (r: &Vec<u8>)
        ensures
            r@ == self@,
    {
        &self.bytes
    }
}

impl BlockId {
    /// The identifier holds exactly [`BLOCK_ID_LENGTH`] bytes.
    pub open spec fn is_valid(&self) -> bool {
        self@.len() == BLOCK_ID_LENGTH
    }

    /// Decodes a wire block identifier. Succeeds, with the bytes verbatim,
    /// if and only if the buffer holds exactly [`BLOCK_ID_LENGTH`] bytes.
    pub fn try_from(value: wire::BlockId) -> (r: Result<Self, Error>)
        ensures
            r is Ok <==> value.id@.len() == BLOCK_ID_LENGTH,
            r matches Ok(d) ==> d@ == value.id@ && d.is_valid(),
            r matches Err(e) ==> e == Error::InvalidBufferLength,
    {
        if value.id.len() == BLOCK_ID_LENGTH {
            Ok(BlockId { bytes: value.id })
        } else {
            Err(Error::InvalidBufferLength)
        }
    }

    /// The identifier's bytes: the very buffer it was decoded from.
    pub fn as_bytes(&self) -> (r: &Vec<u8>)
        ensures
            r@ == self@,
    {
        &self.bytes
    }
}

impl TransactionId {
    /// The identifier holds exactly [`TRANSACTION_ID_LENGTH`] bytes.
    pub open spec fn is_valid(&self) -> bool {
        self@.len() == TRANSACTION_ID_LENGTH
    }

    /// Decodes a wire transaction identifier. Succeeds, with the bytes
    /// verbatim, if and only if the buffer holds exactly
    /// [`TRANSACTION_ID_LENGTH`] bytes.
    pub fn try_from(value: wire::TransactionId) -> (r: Result<Self, Error>)
        ensures
            r is Ok <==> value.id@.len() == TRANSACTION_ID_LENGTH,
            r matches Ok(d) ==> d@ == value.id@ && d.is_valid(),
            r matches Err(e) ==> e == Error::InvalidBufferLength,
    {
        if value.id.len() == TRANSACTION_ID_LENGTH {
            Ok(TransactionId { bytes: value.id })
        } else {
            Err(Error::InvalidBufferLength)
        }
    }

    /// The identifier's bytes: the very buffer it was decoded from.
    pub fn as_bytes(&self) -> (r: &Vec<u8>)
        ensures
            r@ == self@,
    {
        &self.bytes
    }
}

} // verus!
