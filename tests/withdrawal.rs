use dcr_bridge::dcr::{DcrTokenReceiverMessage, DcrTxOut, DcrUtxoChainMsg};
use dcr_bridge::store::Bridge;
use dcr_bridge::types::{ChainKind, Fee, OmniAddress, TransferId, TransferMessage};
use dcr_bridge::withdraw::{
    CallContext, CallbackOutcome, PromiseError, SettlementRequest, ONE_YOCTO,
    SUBMIT_TRANSFER_TO_DCR_CONNECTOR_CALLBACK_GAS,
};
use dcr_bridge::DcrError;

const TRANSFER_CALL_GAS: u64 = 50_000_000_000_000;

fn s(x: &str) -> String {
    x.to_string()
}

fn bridge() -> Bridge {
    let mut b = Bridge::new(TRANSFER_CALL_GAS);
    b.set_utxo_chain(ChainKind::Dcr, s("wdcr.bridge.near"), s("dcr-connector.near"));
    b
}

fn record(amount: u128, fee: u128, recipient: OmniAddress, msg: &str) -> TransferMessage {
    TransferMessage {
        origin_nonce: 7,
        token: OmniAddress::Near(s("wdcr.bridge.near")),
        amount,
        recipient,
        fee: Fee { fee, native_fee: 0 },
        sender: OmniAddress::Near(s("alice.near")),
        msg: s(msg),
        destination_nonce: 0,
    }
}

fn id() -> TransferId {
    TransferId { origin_chain: ChainKind::Near, origin_nonce: 7 }
}

fn ctx() -> CallContext {
    CallContext {
        predecessor: s("relayer.near"),
        prepaid_gas: TRANSFER_CALL_GAS + SUBMIT_TRANSFER_TO_DCR_CONNECTOR_CALLBACK_GAS,
        paused: false,
        exempt_from_pause: false,
    }
}

fn withdraw(target: &str, max_fee_rate: Option<u128>) -> Option<DcrTokenReceiverMessage> {
    Some(DcrTokenReceiverMessage::Withdraw {
        target_dcr_address: s(target),
        input: vec![s("ab12:0")],
        output: vec![DcrTxOut { value: 990, version: 0, pk_script: s("76a914") }],
        max_fee_rate,
    })
}

fn pending_bridge(msg: &str) -> Bridge {
    let mut b = bridge();
    assert!(b.insert_raw_transfer(record(1000, 10, OmniAddress::Dcr(s("Dsxyz")), msg), s("alice.near")).is_ok());
    b
}

fn submit(
    b: &mut Bridge,
    c: &CallContext,
    message: Option<DcrTokenReceiverMessage>,
    embedded: Option<DcrUtxoChainMsg>,
    fee: &Option<Fee>,
) -> Result<SettlementRequest, DcrError> {
    b.submit_transfer_to_dcr_connector(c, id(), s("raw instruction"), message, embedded, None, fee)
}

fn assert_untouched(b: &Bridge) {
    let p = b.get_transfer(id()).expect("record still pending");
    assert_eq!(p.message.amount, 1000);
    assert_eq!(p.message.fee, Fee { fee: 10, native_fee: 0 });
    assert_eq!(p.owner, "alice.near");
}

#[test]
fn net_amount_dispatched_and_fee_paid_on_success() {
    let mut b = pending_bridge("");
    let req = submit(&mut b, &ctx(), withdraw("Dsxyz", Some(500)), None, &None).unwrap();
    assert_eq!(req.amount, 990);
    assert_eq!(req.token_id, "wdcr.bridge.near");
    assert_eq!(req.receiver_id, "dcr-connector.near");
    assert_eq!(req.msg, "raw instruction");
    assert_eq!(req.attached_deposit, ONE_YOCTO);
    assert_eq!(req.gas, TRANSFER_CALL_GAS);
    assert_eq!(req.continuation.fee_recipient, "relayer.near");
    assert!(!b.is_pending(id()));
    let c = req.continuation;
    let out = b.submit_transfer_to_dcr_connector_callback(c.transfer_msg, c.transfer_owner, c.fee_recipient, &Ok(990));
    match out {
        CallbackOutcome::SendFee { transfer_msg, fee_recipient, token_fee } => {
            assert_eq!(token_fee, 10);
            assert_eq!(fee_recipient, "relayer.near");
            assert_eq!(transfer_msg.amount, 1000);
        }
        CallbackOutcome::Restored => panic!("settled transfer was restored"),
    }
    assert!(!b.is_pending(id()));
}

#[test]
fn failed_settlement_restores_record() {
    let mut b = pending_bridge("");
    let req = submit(&mut b, &ctx(), withdraw("Dsxyz", Some(500)), None, &None).unwrap();
    let c = req.continuation;
    let out = b.submit_transfer_to_dcr_connector_callback(
        c.transfer_msg,
        c.transfer_owner,
        c.fee_recipient,
        &Err(PromiseError::Failed),
    );
    assert!(matches!(out, CallbackOutcome::Restored));
    assert_untouched(&b);
    let p = b.get_transfer(id()).unwrap();
    assert_eq!(p.message.origin_nonce, 7);
    assert_eq!(p.message.msg, "");
    assert!(matches!(&p.message.recipient, OmniAddress::Dcr(a) if a == "Dsxyz"));
}

#[test]
fn zero_accepted_amount_restores_record() {
    let mut b = pending_bridge("");
    let req = submit(&mut b, &ctx(), withdraw("Dsxyz", None), None, &None).unwrap();
    let c = req.continuation;
    let out = b.submit_transfer_to_dcr_connector_callback(c.transfer_msg, c.transfer_owner, c.fee_recipient, &Ok(0));
    assert!(matches!(out, CallbackOutcome::Restored));
    assert_untouched(&b);
}

#[test]
fn restored_record_can_be_submitted_again() {
    let mut b = pending_bridge("");
    let req = submit(&mut b, &ctx(), withdraw("Dsxyz", None), None, &None).unwrap();
    let c = req.continuation;
    b.submit_transfer_to_dcr_connector_callback(c.transfer_msg, c.transfer_owner, c.fee_recipient, &Err(PromiseError::Failed));
    let again = submit(&mut b, &ctx(), withdraw("Dsxyz", None), None, &None).unwrap();
    assert_eq!(again.amount, 990);
}

#[test]
fn second_submission_finds_no_record() {
    let mut b = pending_bridge("");
    assert!(submit(&mut b, &ctx(), withdraw("Dsxyz", None), None, &None).is_ok());
    let second = submit(&mut b, &ctx(), withdraw("Dsxyz", None), None, &None);
    assert_eq!(second.unwrap_err(), DcrError::TransferNotFound);
}

#[test]
fn named_fee_recipient_is_kept() {
    let mut b = pending_bridge("");
    let req = b
        .submit_transfer_to_dcr_connector(
            &ctx(),
            id(),
            s("raw"),
            withdraw("Dsxyz", None),
            None,
            Some(s("treasury.near")),
            &Some(Fee { fee: 10, native_fee: 0 }),
        )
        .unwrap();
    assert_eq!(req.continuation.fee_recipient, "treasury.near");
    assert_eq!(req.continuation.transfer_owner, "alice.near");
}

#[test]
fn mismatched_target_is_refused_and_record_kept() {
    let mut b = pending_bridge("");
    let r = submit(&mut b, &ctx(), withdraw("Dsother", None), None, &None);
    assert_eq!(r.unwrap_err(), DcrError::IncorrectTargetAddress);
    assert_untouched(&b);
}

#[test]
fn bound_fee_rate_matching_passes() {
    let mut b = pending_bridge("{\"MaxFeeRate\":\"12345\"}");
    let r = submit(&mut b, &ctx(), withdraw("Dsxyz", Some(12345)), Some(DcrUtxoChainMsg::MaxFeeRate(12345)), &None);
    assert_eq!(r.unwrap().amount, 990);
}

#[test]
fn bound_fee_rate_other_value_refused() {
    let mut b = pending_bridge("{\"MaxFeeRate\":\"12345\"}");
    let r = submit(&mut b, &ctx(), withdraw("Dsxyz", Some(9999)), Some(DcrUtxoChainMsg::MaxFeeRate(12345)), &None);
    assert_eq!(r.unwrap_err(), DcrError::InvalidMaxFeeRate);
    assert_untouched(&b);
}

#[test]
fn bound_fee_rate_missing_refused() {
    let mut b = pending_bridge("{\"MaxFeeRate\":\"12345\"}");
    let r = submit(&mut b, &ctx(), withdraw("Dsxyz", None), Some(DcrUtxoChainMsg::MaxFeeRate(12345)), &None);
    assert_eq!(r.unwrap_err(), DcrError::MissingMaxFeeRate);
    assert_untouched(&b);
}

#[test]
fn undecodable_metadata_refused() {
    let mut b = pending_bridge("not metadata");
    let r = submit(&mut b, &ctx(), withdraw("Dsxyz", Some(12345)), None, &None);
    assert_eq!(r.unwrap_err(), DcrError::InvalidTransferMsg);
}

#[test]
fn empty_metadata_ignores_decoded_bound() {
    let mut b = pending_bridge("");
    let r = submit(&mut b, &ctx(), withdraw("Dsxyz", Some(1)), Some(DcrUtxoChainMsg::MaxFeeRate(12345)), &None);
    assert!(r.is_ok());
}

#[test]
fn paused_bridge_refuses_unless_exempt() {
    let mut b = pending_bridge("");
    let mut c = ctx();
    c.paused = true;
    assert_eq!(submit(&mut b, &c, withdraw("Dsxyz", None), None, &None).unwrap_err(), DcrError::Paused);
    assert_untouched(&b);
    c.exempt_from_pause = true;
    assert!(submit(&mut b, &c, withdraw("Dsxyz", None), None, &None).is_ok());
}

#[test]
fn insufficient_gas_refused() {
    let mut b = pending_bridge("");
    let mut c = ctx();
    c.prepaid_gas = TRANSFER_CALL_GAS + SUBMIT_TRANSFER_TO_DCR_CONNECTOR_CALLBACK_GAS - 1;
    assert_eq!(submit(&mut b, &c, withdraw("Dsxyz", None), None, &None).unwrap_err(), DcrError::InsufficientGas);
    assert_untouched(&b);
}

#[test]
fn unknown_transfer_refused() {
    let mut b = bridge();
    assert_eq!(submit(&mut b, &ctx(), withdraw("Dsxyz", None), None, &None).unwrap_err(), DcrError::TransferNotFound);
}

#[test]
fn duplicate_insert_refused() {
    let mut b = pending_bridge("");
    let r = b.insert_raw_transfer(record(5, 1, OmniAddress::Dcr(s("Dsnew")), ""), s("bob.near"));
    assert_eq!(r.unwrap_err(), DcrError::TransferAlreadyPending);
    assert_untouched(&b);
}

#[test]
fn undecodable_instruction_refused() {
    let mut b = pending_bridge("");
    assert_eq!(submit(&mut b, &ctx(), None, None, &None).unwrap_err(), DcrError::InvalidDcrMessage);
    assert_untouched(&b);
}

#[test]
fn fee_above_amount_refused() {
    let mut b = bridge();
    b.insert_raw_transfer(record(5, 10, OmniAddress::Dcr(s("Dsxyz")), ""), s("alice.near")).unwrap();
    assert_eq!(submit(&mut b, &ctx(), withdraw("Dsxyz", None), None, &None).unwrap_err(), DcrError::FeeExceedsAmount);
}

#[test]
fn fee_equal_to_amount_sends_nothing_net() {
    let mut b = bridge();
    b.insert_raw_transfer(record(10, 10, OmniAddress::Dcr(s("Dsxyz")), ""), s("alice.near")).unwrap();
    assert_eq!(submit(&mut b, &ctx(), withdraw("Dsxyz", None), None, &None).unwrap().amount, 0);
}

#[test]
fn non_utxo_recipient_refused() {
    let mut b = bridge();
    b.insert_raw_transfer(record(1000, 10, OmniAddress::Eth(s("0xabc")), ""), s("alice.near")).unwrap();
    assert_eq!(
        submit(&mut b, &ctx(), withdraw("0xabc", None), None, &None).unwrap_err(),
        DcrError::InvalidDestinationChain
    );
}

#[test]
fn fee_deposit_marker_refused() {
    let mut b = pending_bridge("");
    let r = submit(&mut b, &ctx(), Some(DcrTokenReceiverMessage::DepositProtocolFee), None, &None);
    assert_eq!(r.unwrap_err(), DcrError::InvalidDcrMessageType);
    assert_untouched(&b);
}

#[test]
fn asserted_fee_must_match() {
    let mut b = pending_bridge("");
    let r = submit(&mut b, &ctx(), withdraw("Dsxyz", None), None, &Some(Fee { fee: 10, native_fee: 1 }));
    assert_eq!(r.unwrap_err(), DcrError::InvalidFee);
    assert_untouched(&b);
}

#[test]
fn other_utxo_chain_refused() {
    let mut b = bridge();
    b.insert_raw_transfer(record(1000, 10, OmniAddress::Btc(s("bc1q")), ""), s("alice.near")).unwrap();
    assert_eq!(submit(&mut b, &ctx(), withdraw("bc1q", None), None, &None).unwrap_err(), DcrError::NotDcrChain);
}

#[test]
fn unconfigured_chain_refused() {
    let mut b = Bridge::new(TRANSFER_CALL_GAS);
    b.insert_raw_transfer(record(1000, 10, OmniAddress::Dcr(s("Dsxyz")), ""), s("alice.near")).unwrap();
    assert_eq!(
        submit(&mut b, &ctx(), withdraw("Dsxyz", None), None, &None).unwrap_err(),
        DcrError::UtxoChainNotConfigured
    );
}

#[test]
fn unregistered_token_refused() {
    let mut b = bridge();
    let mut t = record(1000, 10, OmniAddress::Dcr(s("Dsxyz")), "");
    t.token = OmniAddress::Eth(s("0xdcr"));
    b.insert_raw_transfer(t, s("alice.near")).unwrap();
    assert_eq!(submit(&mut b, &ctx(), withdraw("Dsxyz", None), None, &None).unwrap_err(), DcrError::TokenNotRegistered);
}

#[test]
fn registered_token_resolves() {
    let mut b = bridge();
    b.register_token(OmniAddress::Eth(s("0xdcr")), s("other.near"));
    b.register_token(OmniAddress::Eth(s("0xdcr")), s("wdcr.bridge.near"));
    let mut t = record(1000, 10, OmniAddress::Dcr(s("Dsxyz")), "");
    t.token = OmniAddress::Eth(s("0xdcr"));
    b.insert_raw_transfer(t, s("alice.near")).unwrap();
    assert_eq!(submit(&mut b, &ctx(), withdraw("Dsxyz", None), None, &None).unwrap().amount, 990);
}

#[test]
fn wrong_token_refused() {
    let mut b = bridge();
    let mut t = record(1000, 10, OmniAddress::Dcr(s("Dsxyz")), "");
    t.token = OmniAddress::Near(s("usdc.near"));
    b.insert_raw_transfer(t, s("alice.near")).unwrap();
    assert_eq!(submit(&mut b, &ctx(), withdraw("Dsxyz", None), None, &None).unwrap_err(), DcrError::WrongToken);
    assert!(b.is_pending(id()));
}

#[test]
fn newest_chain_configuration_wins() {
    let mut b = pending_bridge("");
    b.set_utxo_chain(ChainKind::Dcr, s("wdcr.bridge.near"), s("dcr-connector-v2.near"));
    let req = submit(&mut b, &ctx(), withdraw("Dsxyz", None), None, &None).unwrap();
    assert_eq!(req.receiver_id, "dcr-connector-v2.near");
}

#[test]
fn address_helpers() {
    let a = OmniAddress::Dcr(s("Dsxyz"));
    assert_eq!(a.get_chain(), ChainKind::Dcr);
    assert_eq!(a.get_utxo_address(), Some(s("Dsxyz")));
    assert_eq!(OmniAddress::Near(s("a.near")).get_utxo_address(), None);
    assert!(a.same_as(&OmniAddress::Dcr(s("Dsxyz"))));
    assert!(!a.same_as(&OmniAddress::Btc(s("Dsxyz"))));
    let t = record(1, 0, a, "");
    assert_eq!(t.get_transfer_id(), id());
    assert_eq!(t.get_destination_chain(), ChainKind::Dcr);
}
