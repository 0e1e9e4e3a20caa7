//! The wire message schema: the loosely typed records that the node emits.
//!
//! Every field that the domain model requires is wire-optional here, every
//! identifier is a raw byte buffer of arbitrary length, and the two status
//! enumerations are the wire-defined ones. The conversions of the sibling
//! modules turn these records into domain entities or reject them.

use vstd::prelude::*;

verus! {

/// A wire output identifier: a raw byte buffer of arbitrary length.
#[derive(Clone, Debug, PartialEq, Eq)]
pub struct OutputId {
    /// The raw bytes of the identifier.
    pub id: Vec<u8>,
}

/// A wire block identifier: a raw byte buffer of arbitrary length.
#[derive(Clone, Debug, PartialEq, Eq)]
pub struct BlockId {
    /// The raw bytes of the identifier.
    pub id: Vec<u8>,
}

/// A wire transaction identifier: a raw byte buffer of arbitrary length.
#[derive(Clone, Debug, PartialEq, Eq)]
pub struct TransactionId {
    /// The raw bytes of the identifier.
    pub id: Vec<u8>,
}

/// A wire output body: the opaque serialized form of an output.
#[derive(Clone, Debug, PartialEq, Eq)]
pub struct RawOutput {
    /// The serialized output, decoded by the external output-type system.
    pub data: Vec<u8>,
}

/// A wire record describing a newly created output.
#[derive(Clone, Debug, PartialEq, Eq)]
pub struct LedgerOutput {
    /// The identifier of the created output.
    pub output_id: Option<OutputId>,
    /// The identifier of the block that created the output.
    pub block_id: Option<BlockId>,
    /// The milestone index at which the output was booked.
    pub milestone_index_booked: u32,
    /// The milestone timestamp at which the output was booked.
    pub milestone_timestamp_booked: u32,
    /// The opaque serialized output body.
    pub output: Option<RawOutput>,
}

/// A wire record describing a previously created output that was consumed.
#[derive(Clone, Debug, PartialEq, Eq)]
pub struct LedgerSpent {
    /// The record of the output's creation.
    pub output: Option<LedgerOutput>,
    /// The identifier of the transaction that spent the output.
    pub transaction_id_spent: Option<TransactionId>,
    /// The milestone index at which the spend was recorded.
    pub milestone_index_spent: u32,
    /// The milestone timestamp at which the spend was recorded.
    pub milestone_timestamp_spent: u32,
}

/// A wire batch message: all ledger mutations of one milestone.
#[derive(Clone, Debug, PartialEq, Eq)]
pub struct LedgerUpdate {
    /// The index of the milestone that confirmed the batch.
    pub milestone_index: u32,
    /// The created outputs, in the order the mutations were applied.
    pub created: Vec<LedgerOutput>,
    /// The consumed outputs, in the order the mutations were applied.
    pub consumed: Vec<LedgerSpent>,
}

/// The wire-defined inclusion-state enumeration.
#[derive(Clone, Copy, Debug, PartialEq, Eq, Structural)]
pub enum LedgerInclusionState {
    /// The block carries no transaction.
    NoTransaction,
    /// The block's transaction is part of the ledger state.
    Included,
    /// The block's transaction conflicts with the ledger state.
    Conflicting,
}

/// The wire-defined conflict-reason enumeration.
#[derive(Clone, Copy, Debug, PartialEq, Eq, Structural)]
pub enum ConflictReason {
    /// No conflict occurred.
    NoConflict,
    /// An input was already spent.
    InputAlreadySpent,
    /// An input was already spent while confirming this milestone.
    InputAlreadySpentInThisMilestone,
    /// An input could not be found.
    InputNotFound,
    /// The sums of the inputs and the outputs do not match.
    InputOutputSumMismatch,
    /// A signature is invalid.
    InvalidSignature,
    /// A timelock has not expired.
    TimelockNotExpired,
    /// The native tokens are invalid.
    InvalidNativeTokens,
    /// A storage-deposit return amount is not fulfilled.
    ReturnAmountNotFulfilled,
    /// An input unlock is invalid.
    InvalidInputUnlock,
    /// The commitment to the inputs is invalid.
    InvalidInputsCommitment,
    /// The sender is invalid.
    InvalidSender,
    /// A chain state transition is invalid.
    InvalidChainStateTransition,
    /// Semantic validation failed in some other way.
    SemanticValidationFailed,
}

/// A wire record describing the confirmation status of one block.
#[derive(Clone, Debug, PartialEq, Eq)]
pub struct BlockMetadata {
    /// The identifier of the block.
    pub block_id: Option<BlockId>,
    /// The identifiers of the block's parents.
    pub parents: Vec<BlockId>,
    /// Whether the block is solid.
    pub solid: bool,
    /// Whether the block should be promoted.
    pub should_promote: bool,
    /// Whether the block should be reattached.
    pub should_reattach: bool,
    /// The milestone that referenced the block.
    pub referenced_by_milestone_index: u32,
    /// The current milestone index.
    pub milestone_index: u32,
    /// The wire inclusion state, already resolved by the wire decoder.
    pub ledger_inclusion_state: LedgerInclusionState,
    /// The wire conflict reason, already resolved by the wire decoder.
    pub conflict_reason: ConflictReason,
}

} // verus!
