//! The delegated decoder of the opaque output body.
//!
//! The body of a created output (its amount, unlock conditions, and so on)
//! belongs to the external output-type system and is only passed through this
//! crate verbatim. Its decode is therefore delegated to that system; what it
//! returns for a given buffer is named by [`output_body_decode`] and never
//! restated here.

use vstd::prelude::*;

use crate::error::Error;

verus! {

/// The external output type: opaque to this crate, carried through verbatim.
#[verifier::external_type_specification]
#[verifier::external_body]
pub struct ExOutput(bee_block::output::Output);

/// Relies on `bee_block::output::Output`'s derived `Clone`: a field-wise
/// copy of plain data, equal to the original.
pub assume_specification[ <bee_block::output::Output as Clone>::clone ](
    v: &bee_block::output::Output,
) -> (r: bee_block::output::Output)
    ensures
        r == *v,
;

/// What the external output-type decoder yields for a given byte buffer.
/// The result is a function of the bytes alone.
pub uninterp spec fn output_body_decode(data: Seq<u8>) -> Result<bee_block::output::Output, Error>;

/// Relies on `bee_block::output::Output`'s `Packable` implementation
/// (through `packable::PackableExt::unpack_unverified`) to decode the opaque
/// output body from its serialized form; the result depends on the bytes
/// alone. Any decode failure is reported as [`Error::InvalidRawBytes`].
#[verifier::external_body]
pub(crate) fn decode_output_body(data: Vec<u8>) -> (r: Result<bee_block::output::Output, Error>)
    ensures
        r == output_body_decode(data@),
        r is Err ==> r->Err_0 == Error::InvalidRawBytes,
{
    packable::PackableExt::unpack_unverified(data).map_err(|_| Error::InvalidRawBytes)
}

} // verus!
