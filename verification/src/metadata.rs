//! Per-block confirmation metadata and the two closed enum mappings.
//!
//! The wire decoder has already resolved the integer-coded status values into
//! the wire enumerations; this module maps them, totally and infallibly, to
//! their domain counterparts, and assembles the block metadata record.

use vstd::prelude::*;

use crate::error::Error;
use crate::error::FieldName;
use crate::ids::BlockId;
use crate::ids::BLOCK_ID_LENGTH;
use crate::wire;

verus! {

/// Whether a block's transaction is part of the ledger state.
#[derive(Clone, Copy, Debug, PartialEq, Eq, Structural)]
pub enum LedgerInclusionState {
    /// The block carries no transaction.
    NoTransaction,
    /// The block's transaction is part of the ledger state.
    Included,
    /// The block's transaction conflicts with the ledger state.
    Conflicting,
}

/// The validation rule that caused a transaction to be rejected, if any.
#[derive(Clone, Copy, Debug, PartialEq, Eq, Structural)]
pub enum ConflictReason {
    /// No conflict occurred.
    NoConflict,
    /// An input was already spent.
    InputAlreadySpent,
    /// An input was already spent while confirming this milestone.
    InputAlreadySpentInThisMilestone,
    /// An input could not be found.
    InputNotFound,
    /// The sums of the inputs and the outputs do not match.
    InputOutputSumMismatch,
    /// A signature is invalid.
    InvalidSignature,
    /// A timelock has not expired.
    TimelockNotExpired,
    /// The native tokens are invalid.
    InvalidNativeTokens,
    /// A storage-deposit return amount is not fulfilled.
    ReturnAmountNotFulfilled,
    /// An input unlock is invalid.
    InvalidInputUnlock,
    /// The commitment to the inputs is invalid.
    InvalidInputsCommitment,
    /// The sender is invalid.
    InvalidSender,
    /// A chain state transition is invalid.
    InvalidChainStateTransition,
    /// Semantic validation failed in some other way.
    SemanticValidationFailed,
}

/// The total mapping from the wire inclusion-state enumeration to the
/// domain one: each wire variant to its namesake, with no fallback.
pub open spec fn spec_inclusion_state_from(value: wire::LedgerInclusionState) -> LedgerInclusionState {
    match value {
        wire::LedgerInclusionState::NoTransaction => LedgerInclusionState::NoTransaction,
        wire::LedgerInclusionState::Included => LedgerInclusionState::Included,
        wire::LedgerInclusionState::Conflicting => LedgerInclusionState::Conflicting,
    }
}

/// The total mapping from the wire conflict-reason enumeration to the
/// domain one: each wire variant to its namesake, with no fallback.
pub open spec fn spec_conflict_reason_from(value: wire::ConflictReason) -> ConflictReason {
    match value {
        wire::ConflictReason::NoConflict => ConflictReason::NoConflict,
        wire::ConflictReason::InputAlreadySpent => ConflictReason::InputAlreadySpent,
        wire::ConflictReason::InputAlreadySpentInThisMilestone => ConflictReason::InputAlreadySpentInThisMilestone,
        wire::ConflictReason::InputNotFound => ConflictReason::InputNotFound,
        wire::ConflictReason::InputOutputSumMismatch => ConflictReason::InputOutputSumMismatch,
        wire::ConflictReason::InvalidSignature => ConflictReason::InvalidSignature,
        wire::ConflictReason::TimelockNotExpired => ConflictReason::TimelockNotExpired,
        wire::ConflictReason::InvalidNativeTokens => ConflictReason::InvalidNativeTokens,
        wire::ConflictReason::ReturnAmountNotFulfilled => ConflictReason::ReturnAmountNotFulfilled,
        wire::ConflictReason::InvalidInputUnlock => ConflictReason::InvalidInputUnlock,
        wire::ConflictReason::InvalidInputsCommitment => ConflictReason::InvalidInputsCommitment,
        wire::ConflictReason::InvalidSender => ConflictReason::InvalidSender,
        wire::ConflictReason::InvalidChainStateTransition => ConflictReason::InvalidChainStateTransition,
        wire::ConflictReason::SemanticValidationFailed => ConflictReason::SemanticValidationFailed,
    }
}

impl LedgerInclusionState {
    /// Maps a wire inclusion state to its domain counterpart. Total and
    /// infallible: every wire variant has exactly one image.
    pub fn from(value: wire::LedgerInclusionState) -> (r: Self)
        ensures
            r == spec_inclusion_state_from(value),
    {
        match value {
            wire::LedgerInclusionState::NoTransaction => LedgerInclusionState::NoTransaction,
            wire::LedgerInclusionState::Included => LedgerInclusionState::Included,
            wire::LedgerInclusionState::Conflicting => LedgerInclusionState::Conflicting,
        }
    }
}

impl ConflictReason {
    /// Maps a wire conflict reason to its domain counterpart. Total and
    /// infallible: every wire variant has exactly one image.
    pub fn from(value: wire::ConflictReason) -> (r: Self)
        ensures
            r == spec_conflict_reason_from(value),
    {
        match value {
            wire::ConflictReason::NoConflict => ConflictReason::NoConflict,
            wire::ConflictReason::InputAlreadySpent => ConflictReason::InputAlreadySpent,
            wire::ConflictReason::InputAlreadySpentInThisMilestone => ConflictReason::InputAlreadySpentInThisMilestone,
            wire::ConflictReason::InputNotFound => ConflictReason::InputNotFound,
            wire::ConflictReason::InputOutputSumMismatch => ConflictReason::InputOutputSumMismatch,
            wire::ConflictReason::InvalidSignature => ConflictReason::InvalidSignature,
            wire::ConflictReason::TimelockNotExpired => ConflictReason::TimelockNotExpired,
            wire::ConflictReason::InvalidNativeTokens => ConflictReason::InvalidNativeTokens,
            wire::ConflictReason::ReturnAmountNotFulfilled => ConflictReason::ReturnAmountNotFulfilled,
            wire::ConflictReason::InvalidInputUnlock => ConflictReason::InvalidInputUnlock,
            wire::ConflictReason::InvalidInputsCommitment => ConflictReason::InvalidInputsCommitment,
            wire::ConflictReason::InvalidSender => ConflictReason::InvalidSender,
            wire::ConflictReason::InvalidChainStateTransition => ConflictReason::InvalidChainStateTransition,
            wire::ConflictReason::SemanticValidationFailed => ConflictReason::SemanticValidationFailed,
        }
    }
}

/// No two wire inclusion states collapse to the same domain state.
pub proof fn lemma_inclusion_state_map_injective(a: wire::LedgerInclusionState, b: wire::LedgerInclusionState)
    ensures
        spec_inclusion_state_from(a) == spec_inclusion_state_from(b) ==> a == b,
{
}

/// Every domain inclusion state is the image of some wire state.
pub proof fn lemma_inclusion_state_map_onto(d: LedgerInclusionState)
    ensures
        exists|w: wire::LedgerInclusionState| spec_inclusion_state_from(w) == d,
{
    match d {
        LedgerInclusionState::NoTransaction => {
            assert(spec_inclusion_state_from(wire::LedgerInclusionState::NoTransaction) == d);
        },
        LedgerInclusionState::Included => {
            assert(spec_inclusion_state_from(wire::LedgerInclusionState::Included) == d);
        },
        LedgerInclusionState::Conflicting => {
            assert(spec_inclusion_state_from(wire::LedgerInclusionState::Conflicting) == d);
        },
    }
}

/// No two wire conflict reasons collapse to the same domain reason.
pub proof fn lemma_conflict_reason_map_injective(a: wire::ConflictReason, b: wire::ConflictReason)
    ensures
        spec_conflict_reason_from(a) == spec_conflict_reason_from(b) ==> a == b,
{
}

/// Every domain conflict reason is the image of some wire reason.
pub proof fn lemma_conflict_reason_map_onto(d: ConflictReason)
    ensures
        exists|w: wire::ConflictReason| spec_conflict_reason_from(w) == d,
{
    match d {
        ConflictReason::NoConflict => {
            assert(spec_conflict_reason_from(wire::ConflictReason::NoConflict) == d);
        },
        ConflictReason::InputAlreadySpent => {
            assert(spec_conflict_reason_from(wire::ConflictReason::InputAlreadySpent) == d);
        },
        ConflictReason::InputAlreadySpentInThisMilestone => {
            assert(spec_conflict_reason_from(
                wire::ConflictReason::InputAlreadySpentInThisMilestone,
            ) == d);
        },
        ConflictReason::InputNotFound => {
            assert(spec_conflict_reason_from(wire::ConflictReason::InputNotFound) == d);
        },
        ConflictReason::InputOutputSumMismatch => {
            assert(spec_conflict_reason_from(wire::ConflictReason::InputOutputSumMismatch) == d);
        },
        ConflictReason::InvalidSignature => {
            assert(spec_conflict_reason_from(wire::ConflictReason::InvalidSignature) == d);
        },
        ConflictReason::TimelockNotExpired => {
            assert(spec_conflict_reason_from(wire::ConflictReason::TimelockNotExpired) == d);
        },
        ConflictReason::InvalidNativeTokens => {
            assert(spec_conflict_reason_from(wire::ConflictReason::InvalidNativeTokens) == d);
        },
        ConflictReason::ReturnAmountNotFulfilled => {
            assert(spec_conflict_reason_from(wire::ConflictReason::ReturnAmountNotFulfilled) == d);
        },
        ConflictReason::InvalidInputUnlock => {
            assert(spec_conflict_reason_from(wire::ConflictReason::InvalidInputUnlock) == d);
        },
        ConflictReason::InvalidInputsCommitment => {
            assert(spec_conflict_reason_from(wire::ConflictReason::InvalidInputsCommitment) == d);
        },
        ConflictReason::InvalidSender => {
            assert(spec_conflict_reason_from(wire::ConflictReason::InvalidSender) == d);
        },
        ConflictReason::InvalidChainStateTransition => {
            assert(spec_conflict_reason_from(
                wire::ConflictReason::InvalidChainStateTransition,
            ) == d);
        },
        ConflictReason::SemanticValidationFailed => {
            assert(spec_conflict_reason_from(wire::ConflictReason::SemanticValidationFailed) == d);
        },
    }
}

/// The confirmation metadata of one block.
#[derive(Clone, Debug, PartialEq, Eq)]
pub struct BlockMetadata {
    /// The identifier of the block.
    pub block_id: BlockId,
    /// The identifiers of the block's parents, in wire order.
    pub parents: Vec<BlockId>,
    /// Whether the block is solid.
    pub is_solid: bool,
    /// Whether the block should be promoted.
    pub should_promote: bool,
    /// Whether the block should be reattached.
    pub should_reattach: bool,
    /// The milestone that referenced the block.
    pub referenced_by_milestone_index: u32,
    /// The current milestone index.
    pub milestone_index: u32,
    /// Whether the block's transaction is part of the ledger state.
    pub ledger_inclusion_state: LedgerInclusionState,
    /// The reason the block's transaction was rejected, if it was.
    pub conflict_reason: ConflictReason,
}

/// A wire block-metadata record converts successfully: every parent
/// identifier and the (present) block identifier have the exact block-id
/// length.
pub open spec fn metadata_ok(w: wire::BlockMetadata) -> bool {
    &&& forall|i: int| 0 <= i < w.parents@.len()
        ==> (#[trigger] w.parents@[i]).id@.len() == BLOCK_ID_LENGTH
    &&& w.block_id is Some
    &&& w.block_id->0.id@.len() == BLOCK_ID_LENGTH
}

/// The first error of a wire block-metadata record, in the fixed check
/// order: the parent identifiers, then the block identifier's presence,
/// then its length. Meaningful only when [`metadata_ok`] fails.
pub open spec fn metadata_error(w: wire::BlockMetadata) -> Error {
    if exists|i: int| 0 <= i < w.parents@.len()
        && (#[trigger] w.parents@[i]).id@.len() != BLOCK_ID_LENGTH {
        Error::InvalidBufferLength
    } else if w.block_id is None {
        Error::MissingField(FieldName::BlockId)
    } else {
        Error::InvalidBufferLength
    }
}

/// The domain record `d` is the conversion of the wire record `w`: the
/// identifiers hold the wire buffers verbatim, the parents keep their
/// order, the flags and indices are copied unchanged, and the two status
/// values are the total enum mappings of the wire ones.
pub open spec fn converts_to_metadata(w: wire::BlockMetadata, d: BlockMetadata) -> bool {
    &&& w.block_id is Some && d.block_id@ == w.block_id->0.id@
    &&& d.parents@.len() == w.parents@.len()
    &&& forall|i: int| 0 <= i < w.parents@.len()
        ==> (#[trigger] d.parents@[i])@ == w.parents@[i].id@
    &&& d.is_solid == w.solid
    &&& d.should_promote == w.should_promote
    &&& d.should_reattach == w.should_reattach
    &&& d.referenced_by_milestone_index == w.referenced_by_milestone_index
    &&& d.milestone_index == w.milestone_index
    &&& d.ledger_inclusion_state == spec_inclusion_state_from(w.ledger_inclusion_state)
    &&& d.conflict_reason == spec_conflict_reason_from(w.conflict_reason)
}

impl BlockMetadata {
    /// Converts a wire block-metadata record, fail-fast: the first parent
    /// identifier of the wrong length aborts the conversion; then the block
    /// identifier must be present and of the exact length. The two status
    /// enumerations are mapped totally and cannot fail.
    pub fn try_from(value: wire::BlockMetadata) -> (r: Result<Self, Error>)
        ensures
            r is Ok <==> metadata_ok(value),
            r matches Ok(d) ==> converts_to_metadata(value, d),
            r matches Err(e) ==> e == metadata_error(value),
    {
        let ledger_inclusion_state = LedgerInclusionState::from(value.ledger_inclusion_state);
        let conflict_reason = ConflictReason::from(value.conflict_reason);

        let ghost all_parents = value.parents@;
        let mut parents: Vec<BlockId> = Vec::new();
        let mut rest = value.parents;
        while rest.len() > 0
            invariant
                all_parents == value.parents@,
                parents@.len() + rest@.len() == all_parents.len(),
                rest@ == all_parents.subrange(parents@.len() as int, all_parents.len() as int),
                forall|i: int| 0 <= i < parents@.len()
                    ==> (#[trigger] all_parents[i]).id@.len() == BLOCK_ID_LENGTH,
                forall|i: int| 0 <= i < parents@.len()
                    ==> (#[trigger] parents@[i])@ == all_parents[i].id@,
            decreases rest@.len(),
        {
            let ghost k = parents@.len() as int;
            let p = rest.remove(0);
            assert(p == all_parents[k]);
            match BlockId::try_from(p) {
                Ok(d) => parents.push(d),
                Err(e) => {
                    assert(all_parents[k].id@.len() != BLOCK_ID_LENGTH);
                    return Err(e);
                },
            }
        }

        let block_id = match value.block_id {
            Some(b) => match BlockId::try_from(b) {
                Ok(d) => d,
                Err(e) => {
                    return Err(e);
                },
            },
            None => {
                return Err(Error::MissingField(FieldName::BlockId));
            },
        };

        Ok(BlockMetadata {
            block_id,
            parents,
            is_solid: value.solid,
            should_promote: value.should_promote,
            should_reattach: value.should_reattach,
            referenced_by_milestone_index: value.referenced_by_milestone_index,
            milestone_index: value.milestone_index,
            ledger_inclusion_state,
            conflict_reason,
        })
    }
}

} // verus!
