//! Properties that tie submission and its continuation together.
use vstd::prelude::*;
use crate::DcrError;
use crate::dcr::{DcrTokenReceiverMessage, DcrUtxoChainMsg};
use crate::store::{reinstate, Bridge};
use crate::types::{is_utxo_chain, Fee, TransferId, TransferMessage};
use crate::withdraw::{message_error, CallContext};

verus! {

/// Once a submission for a transfer has gone through, every further submission for
/// that transfer is refused until the continuation has run, whatever instruction,
/// metadata and fee it brings; past the pause and gas guards it is refused because
/// the record is absent.
pub proof fn lemma_submission_is_exclusive(
    before: Bridge,
    after: Bridge,
    ctx: CallContext,
    transfer_id: TransferId,
    message: Option<DcrTokenReceiverMessage>,
    embedded: Option<DcrUtxoChainMsg>,
    fee: Option<Fee>,
    ctx2: CallContext,
    message2: Option<DcrTokenReceiverMessage>,
    embedded2: Option<DcrUtxoChainMsg>,
    fee2: Option<Fee>,
)
    requires
        before.submit_error(ctx, transfer_id, message, embedded, fee) is None,
        after.same_config(before),
        after.pending_map() == before.pending_map().remove(transfer_id),
    ensures
        after.submit_error(ctx2, transfer_id, message2, embedded2, fee2) is Some,
        !(ctx2.paused && !ctx2.exempt_from_pause) && ctx2.prepaid_gas >= after.required_gas()
            ==> after.submit_error(ctx2, transfer_id, message2, embedded2, fee2) == Some(
            DcrError::TransferNotFound,
        ),
{
}

/// When the settlement fails, the continuation may run, and it puts back exactly the
/// record that submission took out: the registry is then as it was before submission.
pub proof fn lemma_failed_settlement_restores(
    b: Bridge,
    ctx: CallContext,
    transfer_id: TransferId,
    msg: String,
    message: Option<DcrTokenReceiverMessage>,
    embedded: Option<DcrUtxoChainMsg>,
    fee: Option<Fee>,
    fee_recipient: Option<String>,
)
    requires
        b.wf(),
        b.submit_error(ctx, transfer_id, message, embedded, fee) is None,
    ensures
        ({
            let c = b.settlement_spec(ctx, transfer_id, msg, fee_recipient).continuation;
            &&& !b.pending_map().remove(transfer_id).contains_key(c.transfer_msg.transfer_id_spec())
            &&& reinstate(b.pending_map().remove(transfer_id), c.transfer_msg, c.transfer_owner)
                == b.pending_map()
        }),
{
    b.lemma_kept_under_own_id(transfer_id);
    let m = b.pending_map();
    let c = b.settlement_spec(ctx, transfer_id, msg, fee_recipient).continuation;
    assert(reinstate(m.remove(transfer_id), c.transfer_msg, c.transfer_owner) =~= m);
}

/// An instruction whose target differs from the recipient address of the record is
/// refused, and a refused submission leaves the registry as it was.
pub proof fn lemma_mismatched_target_refused(
    b: Bridge,
    ctx: CallContext,
    transfer_id: TransferId,
    message: Option<DcrTokenReceiverMessage>,
    embedded: Option<DcrUtxoChainMsg>,
    fee: Option<Fee>,
)
    requires
        b.pending_map().contains_key(transfer_id),
        message matches Some(DcrTokenReceiverMessage::Withdraw { target_dcr_address, .. })
            && b.pending_map()[transfer_id].message.recipient@.1 != target_dcr_address@,
    ensures
        b.submit_error(ctx, transfer_id, message, embedded, fee) is Some,
{
}

/// When the record binds a fee rate, a withdrawal that otherwise matches it passes
/// exactly when it names that rate: another rate or none is refused.
pub proof fn lemma_bound_fee_rate_enforced(
    transfer: TransferMessage,
    message: Option<DcrTokenReceiverMessage>,
    bound: u64,
)
    requires
        transfer.msg@.len() > 0,
        transfer.fee.fee <= transfer.amount,
        is_utxo_chain(transfer.recipient@.0),
        message matches Some(DcrTokenReceiverMessage::Withdraw { target_dcr_address, .. })
            && transfer.recipient@.1 == target_dcr_address@,
    ensures
        message matches Some(DcrTokenReceiverMessage::Withdraw { max_fee_rate, .. }) && (message_error(
            transfer,
            message,
            Some(DcrUtxoChainMsg::MaxFeeRate(bound)),
        ) is None <==> max_fee_rate == Some(bound as u128)),
{
}

} // verus!
