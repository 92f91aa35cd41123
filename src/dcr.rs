//! Messages exchanged with the Decred connector.
use vstd::prelude::*;

verus! {

/// A transaction output spent from, written `txid:vout`.
pub type OutPoint = String;

/// One output of a Decred transaction.
#[derive(Clone, Debug)]
pub struct DcrTxOut {
    /// Amount in atoms.
    pub value: u64,
    /// Script version.
    pub version: u16,
    /// Script, hex-encoded.
    pub pk_script: String,
}

/// Instruction handed to the Decred connector along with the tokens.
#[derive(Debug)]
pub enum DcrTokenReceiverMessage {
    DepositProtocolFee,
    Withdraw {
        target_dcr_address: String,
        /// UTXOs being spent.
        input: Vec<OutPoint>,
        /// Outputs of the Decred transaction.
        output: Vec<DcrTxOut>,
        /// Fee-rate ceiling in atoms per kB.
        max_fee_rate: Option<u128>,
    },
}

/// Metadata that a transfer record may carry in its `msg` field.
#[derive(Clone, Copy, Debug, PartialEq, Eq, Structural)]
pub enum DcrUtxoChainMsg {
    /// Maximum fee rate in atoms per kB.
    MaxFeeRate(u64),
}

} // verus!
