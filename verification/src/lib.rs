//! A custodial treasury ledger.
//!
//! The ledger accepts deposits of a single designated currency from any
//! caller, keeps a per-depositor cumulative history, and lets a single
//! designated owner sweep the entire held balance out at will. The owner may
//! also transfer ownership and toggle a global enabled switch that gates
//! deposits.
//!
//! Everything here is the core logic: configuration state, history
//! accounting, the deposit and withdrawal transitions, and the admin
//! authorization checks. Persistence, wire encoding and the actual transfer
//! settlement are the surrounding host's business; the core only constructs
//! a transfer command and hands it back in its response.

pub mod error;

pub mod msg;

pub mod state;

pub mod util;

pub mod contract;
