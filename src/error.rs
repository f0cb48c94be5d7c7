use vstd::prelude::*;

verus! {

/// Every way an operation of the game can fail.
#[derive(Debug, Clone, Copy, PartialEq, Eq, Structural)]
pub enum Error {
    InsufficiantBalance,
    AccountExists,
    AccountNotExists,
    SubmitLevelContractFailed,
    SubmittedGreaterLevel,
    LevelContractNotExists,
    LevelContractCallFailed,
}

} // verus!
