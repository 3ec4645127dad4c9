//! Operator tooling for TPM-backed keys, policies and measurement logs.
use vstd::prelude::*;

pub mod cli;
pub mod clock;
pub mod commands;
pub mod daemon;
pub mod diag;
pub mod failure;
pub mod grid;
pub mod hex;
pub mod ids;
pub mod json;
pub mod model;
pub mod output;
pub mod plan;
pub mod promises;
pub mod rows;
pub mod store;
pub mod sys;
pub mod table;
pub mod text;
pub mod tls;
pub mod tpm2;
pub mod tui;
pub mod vtpm_bridge;
pub mod vtpm_credential;
pub mod wasi;
pub mod witness;

verus! {

} // verus!
