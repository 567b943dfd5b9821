//! Codec for submitting a zero-knowledge proof together with its public
//! witness to an on-chain verification program.
//!
//! The wire format is a single flat buffer `proof_bytes || witness_bytes`
//! with no length prefix: the witness length is known out of band. The
//! witness portion itself is a fixed 12-byte header followed by zero or
//! more 32-byte field elements.

pub mod codec;
pub mod errors;
pub mod request;
pub mod witness;

pub use codec::build_instruction_data;
pub use codec::split_instruction_data;
pub use errors::DecodeError;
pub use request::build_verify_instruction;
pub use witness::parse_public_witness;
pub use witness::PublicWitness;
