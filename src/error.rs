use vstd::prelude::*;

verus! {

/// Why building the faucet's instructions failed.
#[derive(Clone, Copy, Debug, PartialEq, Eq)]
pub enum FaucetError {
    /// The requested amount, scaled by the mint's decimals, does not fit in a `u64`.
    AmountOverflow,
    /// The token program address handed to the mint instruction was not the token program.
    IncorrectProgramId,
    /// No bump byte gave an off-curve program address for the seed.
    NoProgramAddress,
    /// The command is declared but has no handler yet.
    NotYetSupported,
}

impl FaucetError {
    /// A message for the operator.
    pub fn message(&self) -> (r: String) {
        match self {
            FaucetError::AmountOverflow => "amount times ten to the decimals overflows u64".to_string(),
            FaucetError::IncorrectProgramId => "incorrect token program id".to_string(),
            FaucetError::NoProgramAddress => "unable to find a viable program address bump seed".to_string(),
            FaucetError::NotYetSupported => "this command is not yet supported".to_string(),
        }
    }
}

} // verus!
