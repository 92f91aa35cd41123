//! Checking a withdrawal instruction against its record, handing the transfer to
//! the connector, and reconciling once the settlement call has resolved.
use vstd::prelude::*;
use crate::DcrError;
use vstd::string::StrSliceExecFns;
use crate::dcr::{DcrTokenReceiverMessage, DcrUtxoChainMsg};
use crate::store::{reinstate, Bridge, PendingTransfer};
use crate::types::{is_utxo_chain, ChainKind, Fee, TransferId, TransferMessage};

verus! {

/// Gas reserved for the continuation that follows the settlement call (5 Tgas).
pub const SUBMIT_TRANSFER_TO_DCR_CONNECTOR_CALLBACK_GAS: u64 = 5_000_000_000_000;

/// Deposit attached to the settlement call, as the token standard asks.
pub const ONE_YOCTO: u128 = 1;

/// What the host tells about the call being served.
pub struct CallContext {
    /// The account that made the call; it takes the fee when no recipient is named.
    pub predecessor: String,
    /// Gas attached to the call.
    pub prepaid_gas: u64,
    /// Whether withdrawals are paused.
    pub paused: bool,
    /// Whether the caller holds a role that may act while withdrawals are paused.
    pub exempt_from_pause: bool,
}

/// What a successful check yields: the net amount and where it goes.
#[derive(Debug)]
pub struct DcrWithdrawal {
    /// The amount less the protocol fee.
    pub amount: u128,
    /// The wrapped Decred token, which receives the settlement call.
    pub token_id: String,
    /// The connector the tokens are sent to.
    pub connector: String,
}

/// The data the continuation needs once the settlement call has resolved.
#[derive(Debug)]
pub struct PendingSettlement {
    pub transfer_msg: TransferMessage,
    pub transfer_owner: String,
    pub fee_recipient: String,
}

/// The settlement call to make: a transfer of `amount` of `token_id` to
/// `receiver_id` that hands over `msg`, followed by `continuation`.
#[derive(Debug)]
pub struct SettlementRequest {
    pub token_id: String,
    pub receiver_id: String,
    pub amount: u128,
    pub msg: String,
    pub attached_deposit: u128,
    pub gas: u64,
    pub continuation: PendingSettlement,
}

/// The failure of a call into another contract.
#[derive(Clone, Copy, Debug, PartialEq, Eq, Structural)]
pub enum PromiseError {
    Failed,
}

/// What the continuation decided.
#[derive(Debug)]
pub enum CallbackOutcome {
    /// The transfer is settled: pay `token_fee` of the transfer's token to `fee_recipient`.
    SendFee { transfer_msg: TransferMessage, fee_recipient: String, token_fee: u128 },
    /// The transfer is pending again, as it was before submission.
    Restored,
}

pub open spec fn outcome(e: Option<DcrError>) -> Result<(), DcrError> {
    match e {
        Some(e) => Err(e),
        None => Ok(()),
    }
}

/// The check of a bound fee rate: only a record with metadata binds one, and
/// then the instruction must name that very rate.
pub open spec fn fee_rate_error(
    msg: Seq<char>,
    max_fee_rate: Option<u128>,
    embedded: Option<DcrUtxoChainMsg>,
) -> Option<DcrError> {
    if msg.len() == 0 {
        None
    } else {
        match embedded {
            None => Some(DcrError::InvalidTransferMsg),
            Some(DcrUtxoChainMsg::MaxFeeRate(bound)) => match max_fee_rate {
                None => Some(DcrError::MissingMaxFeeRate),
                Some(rate) => if rate == bound as u128 {
                    None
                } else {
                    Some(DcrError::InvalidMaxFeeRate)
                },
            },
        }
    }
}

/// The checks of the instruction against the record, in order: it decoded, the fee
/// fits in the amount, the recipient is a UTXO address, the instruction is a
/// withdrawal to that address, and it honours any bound fee rate.
pub open spec fn message_error(
    transfer: TransferMessage,
    message: Option<DcrTokenReceiverMessage>,
    embedded: Option<DcrUtxoChainMsg>,
) -> Option<DcrError> {
    match message {
        None => Some(DcrError::InvalidDcrMessage),
        Some(m) => if transfer.amount < transfer.fee.fee {
            Some(DcrError::FeeExceedsAmount)
        } else if !is_utxo_chain(transfer.recipient@.0) {
            Some(DcrError::InvalidDestinationChain)
        } else {
            match m {
                DcrTokenReceiverMessage::DepositProtocolFee => Some(DcrError::InvalidDcrMessageType),
                DcrTokenReceiverMessage::Withdraw { target_dcr_address, max_fee_rate, .. } => {
                    if transfer.recipient@.1 != target_dcr_address@ {
                        Some(DcrError::IncorrectTargetAddress)
                    } else {
                        fee_rate_error(transfer.msg@, max_fee_rate, embedded)
                    }
                },
            }
        },
    }
}

impl Bridge {
    /// All checks of a withdrawal, in order: the instruction, the asserted fee, the
    /// destination chain, and the token against the wrapped Decred token.
    pub open spec fn withdrawal_error(
        &self,
        transfer: TransferMessage,
        message: Option<DcrTokenReceiverMessage>,
        embedded: Option<DcrUtxoChainMsg>,
        fee: Option<Fee>,
    ) -> Option<DcrError> {
        if message_error(transfer, message, embedded) is Some {
            message_error(transfer, message, embedded)
        } else if fee matches Some(f) && f != transfer.fee {
            Some(DcrError::InvalidFee)
        } else if transfer.recipient@.0 != ChainKind::Dcr {
            Some(DcrError::NotDcrChain)
        } else if self.utxo_chain_spec(ChainKind::Dcr) is None {
            Some(DcrError::UtxoChainNotConfigured)
        } else if self.token_id_spec(transfer.token) is None {
            Some(DcrError::TokenNotRegistered)
        } else if self.token_id_spec(transfer.token)->Some_0@ != self.utxo_chain_spec(
            ChainKind::Dcr,
        )->Some_0.token_id@ {
            Some(DcrError::WrongToken)
        } else {
            None
        }
    }

    /// What a withdrawal of `transfer` that passed the checks sends, and where.
    pub open spec fn withdrawal_spec(&self, transfer: TransferMessage) -> DcrWithdrawal {
        DcrWithdrawal {
            amount: (transfer.amount - transfer.fee.fee) as u128,
            token_id: self.utxo_chain_spec(ChainKind::Dcr)->Some_0.token_id,
            connector: self.utxo_chain_spec(ChainKind::Dcr)->Some_0.connector,
        }
    }

    /// The gas a submission needs: the settlement call and its continuation.
    pub open spec fn required_gas(&self) -> int {
        self.transfer_call_gas_spec() + SUBMIT_TRANSFER_TO_DCR_CONNECTOR_CALLBACK_GAS
    }

    /// Why a submission is refused, if it is: the pause, the gas, the record's
    /// presence, then the checks of the withdrawal.
    pub open spec fn submit_error(
        &self,
        ctx: CallContext,
        transfer_id: TransferId,
        message: Option<DcrTokenReceiverMessage>,
        embedded: Option<DcrUtxoChainMsg>,
        fee: Option<Fee>,
    ) -> Option<DcrError> {
        if ctx.paused && !ctx.exempt_from_pause {
            Some(DcrError::Paused)
        } else if ctx.prepaid_gas < self.required_gas() {
            Some(DcrError::InsufficientGas)
        } else if !self.pending_map().contains_key(transfer_id) {
            Some(DcrError::TransferNotFound)
        } else {
            self.withdrawal_error(self.pending_map()[transfer_id].message, message, embedded, fee)
        }
    }

    /// The settlement call that a submission which passed the checks makes.
    pub open spec fn settlement_spec(
        &self,
        ctx: CallContext,
        transfer_id: TransferId,
        msg: String,
        fee_recipient: Option<String>,
    ) -> SettlementRequest {
        let p = self.pending_map()[transfer_id];
        let w = self.withdrawal_spec(p.message);
        SettlementRequest {
            token_id: w.token_id,
            receiver_id: w.connector,
            amount: w.amount,
            msg,
            attached_deposit: ONE_YOCTO,
            gas: self.transfer_call_gas_spec(),
            continuation: PendingSettlement {
                transfer_msg: p.message,
                transfer_owner: p.owner,
                fee_recipient: match fee_recipient {
                    Some(a) => a,
                    None => ctx.predecessor,
                },
            },
        }
    }
}

/// Whether the settlement call reported a positive accepted amount.
pub open spec fn settlement_succeeded(call_result: Result<u128, PromiseError>) -> bool {
    call_result matches Ok(amount) && amount > 0
}

/// Checks the bound fee rate, if the record's metadata binds one.
fn check_fee_rate(
    msg: &String,
    max_fee_rate: Option<u128>,
    embedded: &Option<DcrUtxoChainMsg>,
) -> (r: Result<(), DcrError>)
    ensures
        r == outcome(fee_rate_error(msg@, max_fee_rate, *embedded)),
{
    if msg.as_str().unicode_len() == 0 {
        return Ok(());
    }
    match embedded {
        None => Err(DcrError::InvalidTransferMsg),
        Some(DcrUtxoChainMsg::MaxFeeRate(bound)) => match max_fee_rate {
            None => Err(DcrError::MissingMaxFeeRate),
            Some(rate) => if rate == *bound as u128 {
                Ok(())
            } else {
                Err(DcrError::InvalidMaxFeeRate)
            },
        },
    }
}

/// Checks the instruction against the record.
fn check_message(
    transfer: &TransferMessage,
    message: &Option<DcrTokenReceiverMessage>,
    embedded: &Option<DcrUtxoChainMsg>,
) -> (r: Result<(), DcrError>)
    ensures
        r == outcome(message_error(*transfer, *message, *embedded)),
{
    let m = match message {
        None => return Err(DcrError::InvalidDcrMessage),
        Some(m) => m,
    };
    if transfer.amount < transfer.fee.fee {
        return Err(DcrError::FeeExceedsAmount);
    }
    let dcr_address = match transfer.recipient.get_utxo_address() {
        None => return Err(DcrError::InvalidDestinationChain),
        Some(a) => a,
    };
    match m {
        DcrTokenReceiverMessage::DepositProtocolFee => Err(DcrError::InvalidDcrMessageType),
        DcrTokenReceiverMessage::Withdraw { target_dcr_address, max_fee_rate, .. } => {
            if !dcr_address.eq(target_dcr_address) {
                return Err(DcrError::IncorrectTargetAddress);
            }
            check_fee_rate(&transfer.msg, *max_fee_rate, embedded)
        },
    }
}

impl Bridge {
    /// Checks a withdrawal instruction, with the record's decoded metadata and the fee
    /// the caller asserts, against the record `transfer`.
    pub fn validate_dcr_withdrawal(
        &self,
        transfer: &TransferMessage,
        message: &Option<DcrTokenReceiverMessage>,
        embedded: &Option<DcrUtxoChainMsg>,
        fee: &Option<Fee>,
    ) -> (r: Result<DcrWithdrawal, DcrError>)
        ensures
            self.withdrawal_error(*transfer, *message, *embedded, *fee) matches Some(e) ==> r == Err::<
                DcrWithdrawal,
                DcrError,
            >(e),
            self.withdrawal_error(*transfer, *message, *embedded, *fee) is None ==> r == Ok::<
                DcrWithdrawal,
                DcrError,
            >(self.withdrawal_spec(*transfer)),
    {
        match check_message(transfer, message, embedded) {
            Err(e) => return Err(e),
            Ok(()) => {},
        }
        if let Some(f) = fee {
            if *f != transfer.fee {
                return Err(DcrError::InvalidFee);
            }
        }
        if transfer.get_destination_chain() != ChainKind::Dcr {
            return Err(DcrError::NotDcrChain);
        }
        let config = match self.get_utxo_chain(ChainKind::Dcr) {
            None => return Err(DcrError::UtxoChainNotConfigured),
            Some(c) => c,
        };
        let token_id = match self.get_token_id(&transfer.token) {
            None => return Err(DcrError::TokenNotRegistered),
            Some(t) => t,
        };
        if !token_id.eq(&config.token_id) {
            return Err(DcrError::WrongToken);
        }
        Ok(DcrWithdrawal {
            amount: transfer.amount - transfer.fee.fee,
            token_id: config.token_id.clone(),
            connector: config.connector.clone(),
        })
    }

    /// Validates the instruction for the transfer `transfer_id` and, when it passes,
    /// takes the transfer out of the registry and returns the settlement call to make.
    /// `message` is the decoded `msg`, and `embedded` the decoded metadata of the record.
    pub fn submit_transfer_to_dcr_connector(
        &mut self,
        ctx: &CallContext,
        transfer_id: TransferId,
        msg: String,
        message: Option<DcrTokenReceiverMessage>,
        embedded: Option<DcrUtxoChainMsg>,
        fee_recipient: Option<String>,
        fee: &Option<Fee>,
    ) -> (r: Result<SettlementRequest, DcrError>)
        requires
            old(self).wf(),
        ensures
            final(self).wf(),
            old(self).submit_error(*ctx, transfer_id, message, embedded, *fee) matches Some(e) ==> r
                == Err::<SettlementRequest, DcrError>(e) && *final(self) == *old(self),
            old(self).submit_error(*ctx, transfer_id, message, embedded, *fee) is None ==> r == Ok::<
                SettlementRequest,
                DcrError,
            >(old(self).settlement_spec(*ctx, transfer_id, msg, fee_recipient)) && final(self).same_config(
                *old(self),
            ) && final(self).pending_map() == old(self).pending_map().remove(transfer_id),
    {
        if ctx.paused && !ctx.exempt_from_pause {
            return Err(DcrError::Paused);
        }
        if (ctx.prepaid_gas as u128) < (self.transfer_call_gas() as u128)
            + (SUBMIT_TRANSFER_TO_DCR_CONNECTOR_CALLBACK_GAS as u128) {
            return Err(DcrError::InsufficientGas);
        }
        let i = match self.find_pending(transfer_id) {
            None => return Err(DcrError::TransferNotFound),
            Some(i) => i,
        };
        let withdrawal = match self.validate_dcr_withdrawal(
            &self.pending_at(i).message,
            &message,
            &embedded,
            fee,
        ) {
            Err(e) => return Err(e),
            Ok(w) => w,
        };
        let gas = self.transfer_call_gas();
        let taken = self.take_pending(i);
        let fee_recipient = match fee_recipient {
            Some(a) => a,
            None => ctx.predecessor.clone(),
        };
        Ok(SettlementRequest {
            token_id: withdrawal.token_id,
            receiver_id: withdrawal.connector,
            amount: withdrawal.amount,
            msg,
            attached_deposit: ONE_YOCTO,
            gas,
            continuation: PendingSettlement {
                transfer_msg: taken.message,
                transfer_owner: taken.owner,
                fee_recipient,
            },
        })
    }

    /// Runs once the settlement call has resolved: a positive accepted amount settles
    /// the transfer and its fee is to be paid; anything else puts the record back.
    pub fn submit_transfer_to_dcr_connector_callback(
        &mut self,
        transfer_msg: TransferMessage,
        transfer_owner: String,
        fee_recipient: String,
        call_result: &Result<u128, PromiseError>,
    ) -> (r: CallbackOutcome)
        requires
            old(self).wf(),
            settlement_succeeded(*call_result) || !old(self).pending_map().contains_key(
                transfer_msg.transfer_id_spec(),
            ),
        ensures
            final(self).wf(),
            final(self).same_config(*old(self)),
            settlement_succeeded(*call_result) ==> r == (CallbackOutcome::SendFee {
                token_fee: transfer_msg.fee.fee,
                transfer_msg,
                fee_recipient,
            }) && final(self).pending_map() == old(self).pending_map(),
            !settlement_succeeded(*call_result) ==> r is Restored && final(self).pending_map()
                == reinstate(old(self).pending_map(), transfer_msg, transfer_owner),
    {
        let succeeded = match call_result {
            Ok(amount) => *amount > 0,
            Err(_) => false,
        };
        if succeeded {
            let token_fee = transfer_msg.fee.fee;
            CallbackOutcome::SendFee { transfer_msg, fee_recipient, token_fee }
        } else {
            let inserted = self.insert_raw_transfer(transfer_msg, transfer_owner);
            assert(inserted is Ok);
            CallbackOutcome::Restored
        }
    }
}

} // verus!
