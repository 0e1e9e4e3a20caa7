//! The error cases of the wire-to-domain conversions.

use vstd::prelude::*;

verus! {

/// Names of the required wire fields that a conversion may report as absent.
#[derive(Clone, Copy, Debug, PartialEq, Eq, Structural)]
pub enum FieldName {
    /// The output identifier of a created-output record.
    OutputId,
    /// The block identifier of a created-output record (its wire name is
    /// `message_id` for historical reasons).
    MessageId,
    /// The embedded output of a record: the opaque body of a created-output
    /// record, or the whole created-output record inside a spent record.
    Output,
    /// The spending transaction identifier of a spent record.
    TransactionId,
    /// The block identifier of a block-metadata record.
    BlockId,
}

impl FieldName {
    /// The wire-level name of the field, as it appears in diagnostics.
    pub fn as_str(&self) -> (r: &'static str)
        ensures
            r == self.spec_str(),
    {
        match self {
            FieldName::OutputId => "output_id",
            FieldName::MessageId => "message_id",
            FieldName::Output => "output",
            FieldName::TransactionId => "transaction_id",
            FieldName::BlockId => "block_id",
        }
    }

    /// The wire-level name of the field.
    pub open spec fn spec_str(self) -> &'static str {
        match self {
            FieldName::OutputId => "output_id",
            FieldName::MessageId => "message_id",
            FieldName::Output => "output",
            FieldName::TransactionId => "transaction_id",
            FieldName::BlockId => "block_id",
        }
    }
}

/// An error of a wire-to-domain conversion.
///
/// Every conversion is fail-fast: the first error encountered aborts the
/// whole operation, and no partial result is ever returned.
#[derive(Clone, Copy, Debug, PartialEq, Eq, Structural)]
pub enum Error {
    /// A byte buffer meant as a fixed-length identifier has the wrong length.
    InvalidBufferLength,
    /// A required wire field was absent; carries the field's name.
    MissingField(FieldName),
    /// The opaque output body failed its own, delegated decode.
    InvalidRawBytes,
}

} // verus!
