use noirforge_sdk::build_instruction_data;
use noirforge_sdk::build_verify_instruction;
use noirforge_sdk::split_instruction_data;
use noirforge_sdk::DecodeError;

use solana_program::pubkey::Pubkey;

#[test]
fn instruction_data_is_concatenation() {
    let a = vec![1u8, 2, 3];
    let b = vec![4u8, 5];
    assert_eq!(build_instruction_data(&a, &b), vec![1u8, 2, 3, 4, 5]);
}

#[test]
fn verify_instruction_has_no_accounts() {
    let pid = Pubkey::new_unique();
    let ix = build_verify_instruction(pid, &[9u8], &[10u8, 11u8]);
    assert_eq!(ix.program_id, pid);
    assert!(ix.accounts.is_empty());
    assert_eq!(ix.data, vec![9u8, 10u8, 11u8]);
}

#[test]
fn split_instruction_data_roundtrips() {
    let proof = vec![1u8, 2, 3, 4];
    let witness = vec![9u8, 9, 9];
    let data = build_instruction_data(&proof, &witness);
    let (p2, w2) = split_instruction_data(&data, witness.len()).unwrap();
    assert_eq!(p2, proof);
    assert_eq!(w2, witness);
}

#[test]
fn split_instruction_data_rejects_too_short() {
    let data = vec![1u8, 2, 3];
    assert_eq!(split_instruction_data(&data, 4).unwrap_err(), DecodeError::TooShort);
}

#[test]
fn build_concrete_example() {
    assert_eq!(build_instruction_data(&[1u8, 2, 3], &[9u8, 9]), vec![1u8, 2, 3, 9, 9]);
}

#[test]
fn build_length_is_sum_of_input_lengths() {
    let a = vec![5u8; 17];
    let b = vec![6u8; 40];
    assert_eq!(build_instruction_data(&a, &b).len(), 57);
}

#[test]
fn build_with_empty_inputs() {
    assert_eq!(build_instruction_data(&[], &[]), Vec::<u8>::new());
    assert_eq!(build_instruction_data(&[], &[8u8]), vec![8u8]);
    assert_eq!(build_instruction_data(&[8u8], &[]), vec![8u8]);
}

#[test]
fn split_concrete_example() {
    let (p, w) = split_instruction_data(&[1u8, 2, 3, 9, 9], 2).unwrap();
    assert_eq!(p, vec![1u8, 2, 3]);
    assert_eq!(w, vec![9u8, 9]);
}

#[test]
fn split_with_zero_witness_len_returns_whole_buffer_as_proof() {
    let (p, w) = split_instruction_data(&[1u8, 2, 3], 0).unwrap();
    assert_eq!(p, vec![1u8, 2, 3]);
    assert_eq!(w, Vec::<u8>::new());
}

#[test]
fn split_with_full_witness_len_returns_empty_proof() {
    let (p, w) = split_instruction_data(&[1u8, 2, 3], 3).unwrap();
    assert_eq!(p, Vec::<u8>::new());
    assert_eq!(w, vec![1u8, 2, 3]);
}

#[test]
fn roundtrip_with_empty_portions() {
    let data = build_instruction_data(&[], &[]);
    let (p, w) = split_instruction_data(&data, 0).unwrap();
    assert_eq!(p, Vec::<u8>::new());
    assert_eq!(w, Vec::<u8>::new());
}

#[test]
fn verify_instruction_payload_matches_build_result() {
    let pid = Pubkey::new_unique();
    let proof = vec![1u8, 2, 3];
    let witness = vec![9u8, 9];
    let ix = build_verify_instruction(pid, &proof, &witness);
    assert_eq!(ix.data, build_instruction_data(&proof, &witness));
    assert!(ix.accounts.is_empty());
}

#[test]
fn verify_instruction_with_empty_inputs_has_no_accounts() {
    let pid = Pubkey::new_unique();
    let ix = build_verify_instruction(pid, &[], &[]);
    assert!(ix.accounts.is_empty());
    assert_eq!(ix.data, Vec::<u8>::new());
    assert_eq!(ix.program_id, pid);
}

#[test]
fn error_messages() {
    assert_eq!(DecodeError::TooShort.message(), "too short");
    assert_eq!(DecodeError::InvalidLength.message(), "invalid length");
}
