//! A two-party token escrow: one party locks tokens in a custody account at a
//! fixed price, and a second party settles by paying that price and taking the
//! tokens, as one all-or-nothing step.
pub mod state;
pub mod program;
pub mod laws;

pub use state::{Accept, ErrorCode, Escrow, Init, Ledger, Party};
pub use program::{accept, init};
