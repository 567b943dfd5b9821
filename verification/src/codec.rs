use vstd::prelude::*;
use vstd::slice::slice_subrange;
use vstd::slice::slice_to_vec;

use crate::errors::DecodeError;

verus! {

/// Concatenate proof bytes and public-witness bytes into one instruction
/// payload, proof bytes first. No length prefix is inserted: the boundary
/// between the two portions is implicit, known to the peer by convention.
pub fn build_instruction_data(proof_bytes: &[u8], public_witness_bytes: &[u8]) -> (r: Vec<u8>)
    ensures
        r@ == proof_bytes@ + public_witness_bytes@,
        r@.len() == proof_bytes@.len() + public_witness_bytes@.len(),
{
    let mut out = slice_to_vec(proof_bytes);
    let mut witness = slice_to_vec(public_witness_bytes);
    out.append(&mut witness);
    out
}

/// Split an instruction payload back into its proof portion and its
/// witness portion, the witness being the trailing `public_witness_len`
/// bytes. Fails with `TooShort` exactly when the buffer holds fewer than
/// `public_witness_len` bytes; on success the two portions concatenate
/// back to the input byte-for-byte.
pub fn split_instruction_data(instruction_data: &[u8], public_witness_len: usize) -> (r: Result<
    (Vec<u8>, Vec<u8>),
    DecodeError,
>)
    ensures
        instruction_data@.len() < public_witness_len ==> r == Err::<(Vec<u8>, Vec<u8>), DecodeError>(
            DecodeError::TooShort,
        ),
        instruction_data@.len() >= public_witness_len ==> {
            &&& r is Ok
            &&& r->Ok_0.0@ == instruction_data@.subrange(
                0,
                instruction_data@.len() - public_witness_len,
            )
            &&& r->Ok_0.1@ == instruction_data@.subrange(
                instruction_data@.len() - public_witness_len,
                instruction_data@.len() as int,
            )
        },
{
    if instruction_data.len() < public_witness_len {
        return Err(DecodeError::TooShort);
    }
    let proof_len = instruction_data.len() - public_witness_len;
    let proof = slice_to_vec(slice_subrange(instruction_data, 0, proof_len));
    let witness = slice_to_vec(slice_subrange(instruction_data, proof_len, instruction_data.len()));
    Ok((proof, witness))
}

/// Round-trip law: splitting a payload built from `proof` and `witness`
/// at the witness length recovers `proof` and `witness` exactly. Stated
/// over the sequence model that `build_instruction_data` and
/// `split_instruction_data` promise in their contracts.
pub proof fn lemma_split_build_round_trip(proof: Seq<u8>, witness: Seq<u8>)
    ensures
        (proof + witness).subrange(0, (proof + witness).len() - witness.len()) == proof,
        (proof + witness).subrange(
            (proof + witness).len() - witness.len(),
            (proof + witness).len() as int,
        ) == witness,
{
    assert((proof + witness).subrange(0, (proof + witness).len() - witness.len()) =~= proof);
    assert((proof + witness).subrange(
        (proof + witness).len() - witness.len(),
        (proof + witness).len() as int,
    ) =~= witness);
}

} // verus!
