//! Domain records of ledger mutations, and their conversions from the wire.
//!
//! A created-output record, a spent-output record and a whole per-milestone
//! batch are each converted by a fail-fast, pure function: the first error
//! aborts the conversion and no partial value is returned. The exact
//! success condition, the exact error and the exact resulting value are
//! stated by the spec functions of this module.

use vstd::prelude::*;

use crate::body::decode_output_body;
use crate::body::output_body_decode;
use crate::error::Error;
use crate::error::FieldName;
use crate::ids::BlockId;
use crate::ids::OutputId;
use crate::ids::TransactionId;
use crate::ids::BLOCK_ID_LENGTH;
use crate::ids::OUTPUT_ID_LENGTH;
use crate::ids::TRANSACTION_ID_LENGTH;
use crate::wire;

verus! {

/// A newly created output in the ledger.
#[derive(Clone, Debug, PartialEq)]
pub struct LedgerOutput {
    /// The identifier of the output.
    pub output_id: OutputId,
    /// The identifier of the block that created the output.
    pub block_id: BlockId,
    /// The milestone index at which the output was booked.
    pub milestone_index_booked: u32,
    /// The milestone timestamp at which the output was booked.
    pub milestone_timestamp_booked: u32,
    /// The opaque output body, owned by the external output-type system.
    pub output: bee_block::output::Output,
}

/// A previously created output that has now been consumed.
#[derive(Clone, Debug, PartialEq)]
pub struct LedgerSpent {
    /// The full creation record of the consumed output.
    pub output: LedgerOutput,
    /// The identifier of the transaction that spent the output.
    pub transaction_id_spent: TransactionId,
    /// The milestone index at which the spend was recorded.
    pub milestone_index_spent: u32,
    /// The milestone timestamp at which the spend was recorded.
    pub milestone_timestamp_spent: u32,
}

/// A milestone-scoped batch of ledger mutations.
#[derive(Clone, Debug, PartialEq)]
pub struct LedgerUpdate {
    /// The index of the milestone that confirmed the batch.
    pub milestone_index: u32,
    /// The created outputs, in wire order.
    pub created: Vec<LedgerOutput>,
    /// The consumed outputs, in wire order.
    pub consumed: Vec<LedgerSpent>,
}

/// A wire created-output record converts successfully: all three required
/// fields are present, both identifiers have their exact length, and the
/// delegated output-body decode succeeds.
pub open spec fn created_output_ok(w: wire::LedgerOutput) -> bool {
    &&& w.output_id is Some
    &&& w.output_id->0.id@.len() == OUTPUT_ID_LENGTH
    &&& w.block_id is Some
    &&& w.block_id->0.id@.len() == BLOCK_ID_LENGTH
    &&& w.output is Some
    &&& output_body_decode(w.output->0.data@) is Ok
}

/// The first error of a wire created-output record, in the fixed check
/// order: output id, block id, output body. Meaningful only when
/// [`created_output_ok`] fails.
pub open spec fn created_output_error(w: wire::LedgerOutput) -> Error {
    if w.output_id is None {
        Error::MissingField(FieldName::OutputId)
    } else if w.output_id->0.id@.len() != OUTPUT_ID_LENGTH {
        Error::InvalidBufferLength
    } else if w.block_id is None {
        Error::MissingField(FieldName::MessageId)
    } else if w.block_id->0.id@.len() != BLOCK_ID_LENGTH {
        Error::InvalidBufferLength
    } else if w.output is None {
        Error::MissingField(FieldName::Output)
    } else {
        Error::InvalidRawBytes
    }
}

/// The domain record `d` is the conversion of the wire record `w`: the
/// identifiers hold the wire buffers verbatim, the scalars are copied
/// unchanged, and the body is exactly what the delegated decoder yielded.
pub open spec fn converts_to_output(w: wire::LedgerOutput, d: LedgerOutput) -> bool {
    &&& w.output_id is Some && d.output_id@ == w.output_id->0.id@
    &&& w.block_id is Some && d.block_id@ == w.block_id->0.id@
    &&& d.milestone_index_booked == w.milestone_index_booked
    &&& d.milestone_timestamp_booked == w.milestone_timestamp_booked
    &&& w.output is Some
    &&& output_body_decode(w.output->0.data@) matches Ok(o) && d.output == o
}

impl LedgerOutput {
    /// Converts a wire created-output record. Succeeds if and only if the
    /// three required fields are present, both identifiers have their exact
    /// length and the delegated body decode succeeds; otherwise returns the
    /// first error in the fixed check order.
    pub fn try_from(value: wire::LedgerOutput) -> (r: Result<Self, Error>)
        ensures
            r is Ok <==> created_output_ok(value),
            r matches Ok(d) ==> converts_to_output(value, d),
            r matches Err(e) ==> e == created_output_error(value),
    {
        let output_id = match value.output_id {
            Some(b) => match OutputId::try_from(b) {
                Ok(d) => d,
                Err(e) => {
                    return Err(e);
                },
            },
            None => {
                return Err(Error::MissingField(FieldName::OutputId));
            },
        };
        let block_id = match value.block_id {
            Some(b) => match BlockId::try_from(b) {
                Ok(d) => d,
                Err(e) => {
                    return Err(e);
                },
            },
            None => {
                return Err(Error::MissingField(FieldName::MessageId));
            },
        };
        let output = match value.output {
            Some(b) => match decode_output_body(b.data) {
                Ok(o) => o,
                Err(e) => {
                    return Err(e);
                },
            },
            None => {
                return Err(Error::MissingField(FieldName::Output));
            },
        };
        Ok(LedgerOutput {
            output_id,
            block_id,
            milestone_index_booked: value.milestone_index_booked,
            milestone_timestamp_booked: value.milestone_timestamp_booked,
            output,
        })
    }
}

/// A wire spent-output record converts successfully: the embedded creation
/// record is present and converts, and the spending transaction identifier
/// is present with its exact length.
pub open spec fn spent_ok(w: wire::LedgerSpent) -> bool {
    &&& w.output is Some
    &&& created_output_ok(w.output->0)
    &&& w.transaction_id_spent is Some
    &&& w.transaction_id_spent->0.id@.len() == TRANSACTION_ID_LENGTH
}

/// The first error of a wire spent-output record, in the fixed check order:
/// embedded creation record, then transaction identifier. An error of the
/// embedded record propagates unchanged. Meaningful only when [`spent_ok`]
/// fails.
pub open spec fn spent_error(w: wire::LedgerSpent) -> Error {
    if w.output is None {
        Error::MissingField(FieldName::Output)
    } else if !created_output_ok(w.output->0) {
        created_output_error(w.output->0)
    } else if w.transaction_id_spent is None {
        Error::MissingField(FieldName::TransactionId)
    } else {
        Error::InvalidBufferLength
    }
}

/// The domain record `d` is the conversion of the wire record `w`.
pub open spec fn converts_to_spent(w: wire::LedgerSpent, d: LedgerSpent) -> bool {
    &&& w.output is Some && converts_to_output(w.output->0, d.output)
    &&& w.transaction_id_spent is Some && d.transaction_id_spent@ == w.transaction_id_spent->0.id@
    &&& d.milestone_index_spent == w.milestone_index_spent
    &&& d.milestone_timestamp_spent == w.milestone_timestamp_spent
}

impl LedgerSpent {
    /// Converts a wire spent-output record. The embedded creation record is
    /// converted first and its error, if any, propagates unchanged; then the
    /// spending transaction identifier is decoded.
    pub fn try_from(value: wire::LedgerSpent) -> (r: Result<Self, Error>)
        ensures
            r is Ok <==> spent_ok(value),
            r matches Ok(d) ==> converts_to_spent(value, d),
            r matches Err(e) ==> e == spent_error(value),
    {
        let output = match value.output {
            Some(w) => match LedgerOutput::try_from(w) {
                Ok(d) => d,
                Err(e) => {
                    return Err(e);
                },
            },
            None => {
                return Err(Error::MissingField(FieldName::Output));
            },
        };
        let transaction_id_spent = match value.transaction_id_spent {
            Some(b) => match TransactionId::try_from(b) {
                Ok(d) => d,
                Err(e) => {
                    return Err(e);
                },
            },
            None => {
                return Err(Error::MissingField(FieldName::TransactionId));
            },
        };
        Ok(LedgerSpent {
            output,
            transaction_id_spent,
            milestone_index_spent: value.milestone_index_spent,
            milestone_timestamp_spent: value.milestone_timestamp_spent,
        })
    }
}

/// A wire batch message converts successfully: every creation element and
/// every spend element converts.
pub open spec fn update_ok(w: wire::LedgerUpdate) -> bool {
    &&& forall|i: int| 0 <= i < w.created@.len() ==> created_output_ok(#[trigger] w.created@[i])
    &&& forall|j: int| 0 <= j < w.consumed@.len() ==> spent_ok(#[trigger] w.consumed@[j])
}

/// The error `e` is the one of the first malformed creation element, at
/// position `k`: every earlier creation element converts.
pub open spec fn update_error_in_created(w: wire::LedgerUpdate, k: int, e: Error) -> bool {
    &&& 0 <= k < w.created@.len()
    &&& !created_output_ok(w.created@[k])
    &&& forall|i: int| 0 <= i < k ==> created_output_ok(#[trigger] w.created@[i])
    &&& e == created_output_error(w.created@[k])
}

/// The error `e` is the one of the first malformed spend element, at
/// position `k`: every creation element and every earlier spend element
/// converts.
pub open spec fn update_error_in_consumed(w: wire::LedgerUpdate, k: int, e: Error) -> bool {
    &&& forall|i: int| 0 <= i < w.created@.len() ==> created_output_ok(#[trigger] w.created@[i])
    &&& 0 <= k < w.consumed@.len()
    &&& !spent_ok(w.consumed@[k])
    &&& forall|j: int| 0 <= j < k ==> spent_ok(#[trigger] w.consumed@[j])
    &&& e == spent_error(w.consumed@[k])
}

/// The domain update `d` is the conversion of the wire batch `w`: same
/// milestone index, and element for element, in wire order, the conversions
/// of the wire elements.
pub open spec fn converts_to_update(w: wire::LedgerUpdate, d: LedgerUpdate) -> bool {
    &&& d.milestone_index == w.milestone_index
    &&& d.created@.len() == w.created@.len()
    &&& forall|i: int| 0 <= i < w.created@.len()
        ==> converts_to_output(w.created@[i], #[trigger] d.created@[i])
    &&& d.consumed@.len() == w.consumed@.len()
    &&& forall|j: int| 0 <= j < w.consumed@.len()
        ==> converts_to_spent(w.consumed@[j], #[trigger] d.consumed@[j])
}

impl LedgerUpdate {
    /// Converts a wire batch message into a milestone-scoped update,
    /// fail-fast: the first element that does not convert aborts the whole
    /// assembly with its error, and no partial update is returned. On
    /// success both sequences keep the wire order.
    pub fn try_from(value: wire::LedgerUpdate) -> (r: Result<Self, Error>)
        ensures
            r is Ok <==> update_ok(value),
            r matches Ok(d) ==> converts_to_update(value, d),
            r matches Err(e) ==> (exists|k: int| update_error_in_created(value, k, e))
                || (exists|k: int| update_error_in_consumed(value, k, e)),
    {
        let ghost all_created = value.created@;
        let ghost all_consumed = value.consumed@;

        let mut created: Vec<LedgerOutput> = Vec::new();
        let mut rest = value.created;
        while rest.len() > 0
            invariant
                all_created == value.created@,
                created@.len() + rest@.len() == all_created.len(),
                rest@ == all_created.subrange(created@.len() as int, all_created.len() as int),
                forall|i: int| 0 <= i < created@.len()
                    ==> created_output_ok(#[trigger] all_created[i]),
                forall|i: int| 0 <= i < created@.len()
                    ==> converts_to_output(all_created[i], #[trigger] created@[i]),
            decreases rest@.len(),
        {
            let c = rest.remove(0);
            assert(c == all_created[created@.len() as int]);
            match LedgerOutput::try_from(c) {
                Ok(d) => created.push(d),
                Err(e) => {
                    proof {
                        let k = created@.len() as int;
                        assert(update_error_in_created(value, k, e));
                    }
                    return Err(e);
                },
            }
        }

        let mut consumed: Vec<LedgerSpent> = Vec::new();
        let mut rest = value.consumed;
        while rest.len() > 0
            invariant
                forall|i: int| 0 <= i < all_created.len()
                    ==> created_output_ok(#[trigger] all_created[i]),
                all_created == value.created@,
                all_consumed == value.consumed@,
                consumed@.len() + rest@.len() == all_consumed.len(),
                rest@ == all_consumed.subrange(consumed@.len() as int, all_consumed.len() as int),
                forall|j: int| 0 <= j < consumed@.len()
                    ==> spent_ok(#[trigger] all_consumed[j]),
                forall|j: int| 0 <= j < consumed@.len()
                    ==> converts_to_spent(all_consumed[j], #[trigger] consumed@[j]),
            decreases rest@.len(),
        {
            let c = rest.remove(0);
            assert(c == all_consumed[consumed@.len() as int]);
            match LedgerSpent::try_from(c) {
                Ok(d) => consumed.push(d),
                Err(e) => {
                    proof {
                        let k = consumed@.len() as int;
                        assert(update_error_in_consumed(value, k, e));
                    }
                    return Err(e);
                },
            }
        }

        Ok(LedgerUpdate { milestone_index: value.milestone_index, created, consumed })
    }
}

/// A batch with a malformed creation element never assembles into an
/// update: assembly fails outright, so not even a partial update covering
/// the elements before it can be produced.
pub proof fn lemma_update_fail_fast(w: wire::LedgerUpdate, k: int)
    requires
        0 <= k < w.created@.len(),
        !created_output_ok(w.created@[k]),
    ensures
        !update_ok(w),
{
}

/// Of a created-output record, the first missing required field, in the
/// fixed check order output id, block id, output body, is the one the
/// conversion reports; at most one missing field is ever reported.
pub proof fn lemma_first_missing_field_reported(w: wire::LedgerOutput)
    ensures
        w.output_id is None ==> !created_output_ok(w) && created_output_error(w)
            == Error::MissingField(FieldName::OutputId),
        (w.output_id matches Some(b) && b.id@.len() == OUTPUT_ID_LENGTH && w.block_id is None)
            ==> !created_output_ok(w) && created_output_error(w)
            == Error::MissingField(FieldName::MessageId),
        ((w.output_id matches Some(b) && b.id@.len() == OUTPUT_ID_LENGTH)
            && (w.block_id matches Some(c) && c.id@.len() == BLOCK_ID_LENGTH)
            && w.output is None)
            ==> !created_output_ok(w) && created_output_error(w)
            == Error::MissingField(FieldName::Output),
{
}

} // verus!
