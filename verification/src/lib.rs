//! Planning of token-inscription transfers on a UTXO ledger.
//!
//! An inscription transfer takes two linked transactions. The *commit*
//! transaction parks an amount in an inscription-bearing output; the *reveal*
//! transaction spends that output and pays the recipient. The amount to park
//! is the reveal transaction's fee plus the value of its single output, so the
//! reveal fee has to be known before the commit transaction can be built, while
//! the reveal transaction needs the commit transaction's id. The planner breaks
//! that circle by first asking for a fee estimate of a reveal transaction that
//! spends a placeholder.
//!
//! Building, estimating and signing transactions is the work of a collaborator
//! outside this library. The planner is therefore a small state machine: it
//! hands out the next request for the collaborator and is resumed with the
//! collaborator's answer, until it has a plan or an error.
pub mod bytes;
pub mod cloner;
pub mod descriptor;
pub mod error;
pub mod laws;
pub mod plan_builder;
pub mod transaction;
