//! Validated hand-off of a pending transfer to the Decred connector, and the
//! continuation that either pays the protocol fee or reinstates the transfer.
use vstd::prelude::*;

pub mod types;
pub mod dcr;
pub mod store;
pub mod withdraw;
pub mod laws;

verus! {

/// Why a withdrawal was refused. Each refusal leaves the registry as it was.
#[derive(Clone, Copy, Debug, PartialEq, Eq, Structural)]
pub enum DcrError {
    /// The bridge is paused and the caller holds no role that is exempt.
    Paused,
    /// The attached gas cannot cover the settlement call and its continuation.
    InsufficientGas,
    /// No transfer is pending under the identifier.
    TransferNotFound,
    /// A transfer is already pending under the record's identifier.
    TransferAlreadyPending,
    /// The instruction did not decode.
    InvalidDcrMessage,
    /// The fee of the record exceeds its amount.
    FeeExceedsAmount,
    /// The recipient of the record is not an address of a UTXO chain.
    InvalidDestinationChain,
    /// The instruction is not a withdrawal.
    InvalidDcrMessageType,
    /// The instruction's target differs from the record's recipient.
    IncorrectTargetAddress,
    /// The record's metadata did not decode.
    InvalidTransferMsg,
    /// The record binds a fee rate and the instruction gives none.
    MissingMaxFeeRate,
    /// The instruction's fee rate differs from the one the record binds.
    InvalidMaxFeeRate,
    /// The fee asserted by the caller differs from the record's.
    InvalidFee,
    /// The record is not bound for Decred.
    NotDcrChain,
    /// Decred has no wrapped token or connector configured.
    UtxoChainNotConfigured,
    /// The record's token has no host account.
    TokenNotRegistered,
    /// The record's token is not the wrapped Decred token.
    WrongToken,
}

} // verus!
