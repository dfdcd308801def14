//! Arithmetization of stack-machine instructions for a zero-knowledge
//! virtual-machine prover.
//!
//! Every instruction kind owns a set of cells in a circuit row, registers the
//! polynomial identities that tie those cells together, writes the witness
//! of one execution step into the row, and states its memory accesses as
//! field elements that a memory table can look up. All values live in the
//! Pallas base field; the arithmetic of that field is done by `halo2_proofs`.

pub mod field;
pub mod row;
pub mod expr;
pub mod step;
pub mod mtable_encode;
pub mod allocator;
pub mod constraint;
pub mod op_global_get;
