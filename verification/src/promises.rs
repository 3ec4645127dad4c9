//! What the commands promise together: each law here speaks of one or more
//! calls and says what a caller may rely on afterwards.
use vstd::prelude::*;

pub mod answers;
pub mod attestations;
pub mod audits;
pub mod choices;
pub mod credentials;
pub mod embedded;
pub mod health;
pub mod inventory;
pub mod keys;
pub mod listings;
pub mod measurements;
pub mod policies;
pub mod printouts;
pub mod receipts;
pub mod records;
pub mod registers;
pub mod repairs;
pub mod requests;
pub mod screens;
pub mod secrets;
pub mod surroundings;
pub mod texts;
pub mod workspaces;

verus! {

} // verus!
