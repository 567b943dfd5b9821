use vstd::prelude::*;

use solana_program::instruction::Instruction;
use solana_program::pubkey::Pubkey;

use crate::codec::build_instruction_data;

verus! {

#[verifier::external_type_specification]
#[verifier::external_body]
pub struct ExPubkey(Pubkey);

#[verifier::external_type_specification]
#[verifier::external_body]
pub struct ExInstruction(Instruction);

/// The payload bytes that an instruction carries.
pub uninterp spec fn instruction_payload(ix: Instruction) -> Seq<u8>;

/// How many account references an instruction lists.
pub uninterp spec fn instruction_account_count(ix: Instruction) -> int;

/// The program that an instruction targets.
pub uninterp spec fn instruction_target(ix: Instruction) -> Pubkey;

/// Relies on solana_instruction::Instruction being a plain record of a
/// program id, an account list and payload bytes: constructing one with
/// an empty account list and the given payload stores exactly those
/// fields.
#[verifier::external_body]
fn instruction_with_payload(program_id: Pubkey, data: Vec<u8>) -> (r: Instruction)
    ensures
        instruction_payload(r) == data@,
        instruction_account_count(r) == 0,
        instruction_target(r) == program_id,
{
    Instruction { program_id, accounts: vec![], data }
}

/// Build a dispatchable verification request for `program_id`: its
/// payload is the flat concatenation `proof_bytes || witness_bytes` and
/// its account-reference list is empty — this codec never requires
/// on-chain accounts beyond the implicit program target, whatever the
/// inputs hold. Callers that need accounts extend the list themselves.
pub fn build_verify_instruction(
    program_id: Pubkey,
    proof_bytes: &[u8],
    public_witness_bytes: &[u8],
) -> (r: Instruction)
    ensures
        instruction_payload(r) == proof_bytes@ + public_witness_bytes@,
        instruction_account_count(r) == 0,
        instruction_target(r) == program_id,
{
    let data = build_instruction_data(proof_bytes, public_witness_bytes);
    instruction_with_payload(program_id, data)
}

} // verus!
