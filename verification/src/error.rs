use vstd::prelude::*;

verus! {

/// Every way an operation of this ledger can fail. A failure always aborts
/// the whole operation with no state change; the caller receives the error
/// kind, corrects, and resubmits.
#[derive(Debug)]
pub enum ContractError {
    /// The caller is not the configured owner (admin and withdraw paths).
    Unauthorized,
    /// A deposit arrived while the deposit gate is switched off.
    ContractDisabled,
    /// A malformed identity was supplied (owner update or history query).
    InvalidIdentity,
    /// A history query named an identity that has never deposited.
    HistoryNotFound,
    /// The stored system-name tag did not match this contract's name.
    CannotMigrate { previous_contract: String },
}

} // verus!
