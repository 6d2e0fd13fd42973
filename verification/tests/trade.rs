use mostro::effect::{CantDoReason, Effect, Fault, Notice};
use mostro::new_order::{order_action, publish_order, Limits, NewOrder, NewOrderVerdict};
use mostro::order::{Bits256, Kind, Order, PubKey, Status};
use mostro::pricing::sats_for_fiat;
use mostro::trade::{
    add_invoice_action, awaits_escrow, fiat_sent_action, hold_invoice_accepted, hold_invoice_expired,
    payment_result, range_child, release_action, take_buy_action, take_sell_action, take_target,
    Quote, Taker,
};

fn k(n: u128) -> PubKey {
    PubKey { hi: 7, lo: n }
}

const ALICE: u128 = 1;
const BOB: u128 = 2;
const EVE: u128 = 3;

fn caps() -> Limits {
    Limits { max_order_amount: 10_000_000, min_payment_amount: 1_000 }
}

fn hold_hash() -> Bits256 {
    Bits256 { hi: 11, lo: 22 }
}

fn secret() -> Bits256 {
    Bits256 { hi: 33, lo: 44 }
}

fn new_sell() -> NewOrder {
    NewOrder {
        id: None,
        kind: Some(Kind::Sell),
        amount: 0,
        fiat_code: "USD".to_string(),
        min_amount: None,
        max_amount: None,
        fiat_amount: 100,
        payment_method: "wire".to_string(),
        premium: 0,
        buyer_invoice: None,
    }
}

fn pending_sell() -> Order {
    publish_order(500, new_sell(), k(ALICE), k(100), Some(1), 0).unwrap()
}

fn pending_buy() -> Order {
    let new = NewOrder { kind: Some(Kind::Buy), buyer_invoice: Some("lnbc1buyer".to_string()), ..new_sell() };
    publish_order(600, new, k(ALICE), k(100), Some(1), 0).unwrap()
}

fn taker_with(quote: Option<Quote>, invoice: Option<&str>, hold: Option<Bits256>) -> Taker {
    Taker {
        master: k(200),
        trade_index: Some(9),
        invoice: invoice.map(|s| s.to_string()),
        invoice_valid: true,
        quote,
        hold,
    }
}

fn tell(to: u128, notice: Notice) -> Effect {
    Effect::Notify { to: k(to), notice, request_id: None }
}

fn answer(to: u128, notice: Notice, request_id: u64) -> Effect {
    Effect::Notify { to: k(to), notice, request_id: Some(request_id) }
}

fn refusal(to: u128, id: u128, reason: Option<CantDoReason>, request_id: Option<u64>) -> Effect {
    Effect::CantDo { to: k(to), reason, request_id, order_id: Some(id) }
}

#[test]
fn happy_path_sell() {
    // Alice posts the order; the oracle prices it at 50,000 USD per bitcoin.
    let new = new_sell();
    let at_market = sats_for_fiat(100, 5_000_000, 0);
    assert_eq!(at_market, Some(200_000));
    assert_eq!(
        order_action(&Some(new.clone()), true, &vec![], &caps()),
        NewOrderVerdict::NeedQuote { fiat_amount: 100 }
    );
    assert_eq!(order_action(&Some(new.clone()), true, &vec![at_market], &caps()), NewOrderVerdict::Publish);
    let mut order = publish_order(500, new, k(ALICE), k(100), Some(1), 0).unwrap();
    assert_eq!(order.status, Status::Pending);

    // Bob takes it.
    let quote = Some(Quote { amount: 200_000, fee: 600 });
    let taken =
        take_sell_action(&mut order, k(BOB), Some(1), taker_with(quote, None, None), &caps())
            .unwrap();
    assert_eq!(order.status, Status::WaitingBuyerInvoice);
    assert_eq!(order.amount, 200_000);
    assert_eq!(order.fee, 600);
    assert_eq!(order.buyer_pubkey, Some(k(BOB)));
    assert_eq!(order.master_buyer_pubkey, Some(k(200)));
    assert_eq!(order.trade_index_buyer, Some(9));
    assert_eq!(order.seller_pubkey, Some(k(ALICE)));
    assert_eq!(taken, vec![Effect::PublishOrder, answer(BOB, Notice::AddInvoice, 1)]);

    // Bob adds his invoice: first the hold invoice is asked for, then issued.
    let asked =
        add_invoice_action(&mut order, k(BOB), Some(2), "lnbc2000".to_string(), true, None)
            .unwrap();
    assert_eq!(asked, vec![Effect::IssueHoldInvoice]);
    assert_eq!(order.status, Status::WaitingBuyerInvoice);
    let added = add_invoice_action(
        &mut order,
        k(BOB),
        Some(2),
        "lnbc2000".to_string(),
        true,
        Some(hold_hash()),
    )
    .unwrap();
    assert_eq!(order.status, Status::WaitingPayment);
    assert_eq!(order.hash, Some(hold_hash()));
    assert_eq!(order.buyer_invoice.as_deref(), Some("lnbc2000"));
    assert_eq!(
        added,
        vec![
            Effect::PublishOrder,
            tell(ALICE, Notice::PayInvoice),
            answer(BOB, Notice::WaitingSellerToPay, 2),
        ]
    );

    // Alice pays the hold invoice.
    let active = hold_invoice_accepted(&mut order).unwrap();
    assert_eq!(order.status, Status::Active);
    assert_eq!(
        active,
        vec![
            Effect::PublishOrder,
            tell(BOB, Notice::HoldInvoicePaymentAccepted),
            tell(ALICE, Notice::BuyerTookOrder),
        ]
    );

    // Bob sends the fiat.
    let sent = fiat_sent_action(&mut order, k(BOB), Some(3)).unwrap();
    assert_eq!(order.status, Status::FiatSent);
    assert_eq!(
        sent,
        vec![
            Effect::PublishOrder,
            answer(BOB, Notice::FiatSentOk, 3),
            tell(ALICE, Notice::FiatSentOk),
        ]
    );

    // Alice releases: settle, then pay.
    let ask = release_action(&mut order, k(ALICE), Some(4), None).unwrap();
    assert_eq!(ask, vec![Effect::SettleHoldInvoice]);
    assert_eq!(order.status, Status::FiatSent);
    let released = release_action(&mut order, k(ALICE), Some(4), Some(secret())).unwrap();
    assert_eq!(order.status, Status::Settled);
    assert_eq!(order.preimage, Some(secret()));
    assert_eq!(
        released,
        vec![
            Effect::PublishOrder,
            answer(ALICE, Notice::Released, 4),
            tell(BOB, Notice::HoldInvoicePaymentSettled),
            Effect::PayBuyerInvoice,
        ]
    );
    let paid = payment_result(&mut order, true).unwrap();
    assert_eq!(order.status, Status::Completed);
    assert_eq!(paid, vec![Effect::PublishOrder, tell(BOB, Notice::PurchaseCompleted)]);
}

#[test]
fn range_order_is_taken_through_a_child() {
    let new = NewOrder { min_amount: Some(50), max_amount: Some(500), fiat_amount: 0, ..new_sell() };
    assert_eq!(
        order_action(&Some(new.clone()), true, &vec![Some(100_000), Some(1_000_000)], &caps()),
        NewOrderVerdict::Publish
    );
    let parent = publish_order(900, new, k(ALICE), k(100), Some(1), 0).unwrap();
    let before = parent.clone();

    let mut child = range_child(&parent, 901, 120).unwrap();
    assert_eq!(child.id, 901);
    assert_eq!(child.fiat_amount, 120);
    assert_eq!(child.min_amount, None);
    assert_eq!(child.max_amount, None);
    assert_eq!(child.status, Status::Pending);
    assert_eq!(child.creator_pubkey, k(ALICE));
    assert_eq!(child.fiat_code, "USD");
    assert_eq!(child.payment_method, "wire");

    let quote = Some(Quote { amount: 240_000, fee: 720 });
    take_sell_action(&mut child, k(BOB), None, taker_with(quote, None, None), &caps()).unwrap();
    assert_eq!(child.status, Status::WaitingBuyerInvoice);
    assert_eq!(child.amount, 240_000);
    assert_eq!(child.buyer_pubkey, Some(k(BOB)));

    assert_eq!(parent, before);
    assert_eq!(parent.status, Status::Pending);
    assert_eq!(parent.amount, 0);
}

#[test]
fn range_child_checks_the_bounds() {
    let new = NewOrder { min_amount: Some(50), max_amount: Some(500), fiat_amount: 0, ..new_sell() };
    let parent = publish_order(900, new, k(ALICE), k(100), Some(1), 0).unwrap();
    assert!(range_child(&parent, 1, 50).is_ok());
    assert!(range_child(&parent, 1, 500).is_ok());
    assert_eq!(range_child(&parent, 1, 49), Err(CantDoReason::OutOfRangeFiatAmount));
    assert_eq!(range_child(&parent, 1, 501), Err(CantDoReason::OutOfRangeFiatAmount));
    assert_eq!(range_child(&pending_sell(), 1, 100), Err(CantDoReason::InvalidParameters));
    let mut gone = parent.clone();
    gone.status = Status::Canceled;
    assert_eq!(range_child(&gone, 1, 100), Err(CantDoReason::InvalidParameters));
}

#[test]
fn range_order_cannot_be_taken_itself() {
    let new = NewOrder { min_amount: Some(50), max_amount: Some(500), fiat_amount: 0, ..new_sell() };
    let mut parent = publish_order(900, new, k(ALICE), k(100), Some(1), 0).unwrap();
    let quote = Some(Quote { amount: 240_000, fee: 720 });
    let effects =
        take_sell_action(&mut parent, k(BOB), Some(5), taker_with(quote, None, None), &caps())
            .unwrap();
    assert_eq!(effects, vec![refusal(BOB, 900, Some(CantDoReason::InvalidAmount), Some(5))]);
    assert_eq!(parent.status, Status::Pending);
}

#[test]
fn take_sell_with_invoice_goes_straight_to_waiting_payment() {
    let mut order = pending_sell();
    let quote = Some(Quote { amount: 200_000, fee: 600 });
    let ask = take_sell_action(
        &mut order,
        k(BOB),
        Some(1),
        taker_with(quote, Some("lnbc77"), None),
        &caps(),
    )
    .unwrap();
    assert_eq!(ask, vec![Effect::IssueHoldInvoice]);
    assert_eq!(order, pending_sell());
    let effects = take_sell_action(
        &mut order,
        k(BOB),
        Some(1),
        taker_with(quote, Some("lnbc77"), Some(hold_hash())),
        &caps(),
    )
    .unwrap();
    assert_eq!(order.status, Status::WaitingPayment);
    assert_eq!(order.hash, Some(hold_hash()));
    assert_eq!(order.buyer_invoice.as_deref(), Some("lnbc77"));
    assert_eq!(
        effects,
        vec![
            Effect::PublishOrder,
            tell(ALICE, Notice::PayInvoice),
            answer(BOB, Notice::WaitingSellerToPay, 1),
        ]
    );
}

#[test]
fn take_buy_assigns_the_seller_and_waits_for_payment() {
    let mut order = pending_buy();
    let quote = Some(Quote { amount: 200_000, fee: 600 });
    let ask =
        take_buy_action(&mut order, k(BOB), Some(1), taker_with(quote, None, None), &caps())
            .unwrap();
    assert_eq!(ask, vec![Effect::IssueHoldInvoice]);
    assert_eq!(order.status, Status::Pending);
    let effects = take_buy_action(
        &mut order,
        k(BOB),
        Some(1),
        taker_with(quote, None, Some(hold_hash())),
        &caps(),
    )
    .unwrap();
    assert_eq!(order.status, Status::WaitingPayment);
    assert_eq!(order.seller_pubkey, Some(k(BOB)));
    assert_eq!(order.master_seller_pubkey, Some(k(200)));
    assert_eq!(order.trade_index_seller, Some(9));
    assert_eq!(order.buyer_pubkey, Some(k(ALICE)));
    assert_eq!(order.hash, Some(hold_hash()));
    assert_eq!(order.amount, 200_000);
    assert_eq!(
        effects,
        vec![
            Effect::PublishOrder,
            answer(BOB, Notice::PayInvoice, 1),
            tell(ALICE, Notice::WaitingSellerToPay),
        ]
    );
}

#[test]
fn take_is_refused_for_the_wrong_kind_state_or_taker() {
    let quote = Some(Quote { amount: 200_000, fee: 600 });
    // A sell order is not taken with TakeBuy.
    let mut order = pending_sell();
    let effects = take_buy_action(
        &mut order,
        k(BOB),
        Some(1),
        taker_with(quote, None, Some(hold_hash())),
        &caps(),
    )
    .unwrap();
    assert_eq!(effects, vec![refusal(BOB, 500, None, Some(1))]);
    // A taken order is not taken again.
    let mut order = pending_sell();
    order.status = Status::Active;
    let effects =
        take_sell_action(&mut order, k(BOB), None, taker_with(quote, None, None), &caps())
            .unwrap();
    assert_eq!(effects, vec![refusal(BOB, 500, None, None)]);
    assert_eq!(order.status, Status::Active);
    // The maker does not take the own order.
    let mut order = pending_sell();
    let effects =
        take_sell_action(&mut order, k(ALICE), None, taker_with(quote, None, None), &caps())
            .unwrap();
    assert_eq!(effects, vec![refusal(ALICE, 500, Some(CantDoReason::NotAuthorized), None)]);
    assert_eq!(order, pending_sell());
}

#[test]
fn take_checks_invoice_and_price() {
    let quote = Some(Quote { amount: 200_000, fee: 600 });
    let mut order = pending_sell();
    let mut taker = taker_with(quote, Some("junk"), Some(hold_hash()));
    taker.invoice_valid = false;
    let effects = take_sell_action(&mut order, k(BOB), Some(2), taker, &caps()).unwrap();
    assert_eq!(effects, vec![refusal(BOB, 500, Some(CantDoReason::InvalidAmount), Some(2))]);

    let effects = take_sell_action(&mut order, k(BOB), None, taker_with(None, None, None), &caps());
    assert_eq!(effects, Err(Fault::NoPrice));

    let low = Some(Quote { amount: 999, fee: 1 });
    let effects =
        take_sell_action(&mut order, k(BOB), None, taker_with(low, None, None), &caps()).unwrap();
    assert_eq!(effects, vec![refusal(BOB, 500, Some(CantDoReason::OutOfRangeSatsAmount), None)]);
    let high = Some(Quote { amount: 10_000_001, fee: 1 });
    let effects =
        take_sell_action(&mut order, k(BOB), None, taker_with(high, None, None), &caps()).unwrap();
    assert_eq!(effects, vec![refusal(BOB, 500, Some(CantDoReason::OutOfRangeSatsAmount), None)]);
    let negative = Some(Quote { amount: -1, fee: 1 });
    let effects =
        take_sell_action(&mut order, k(BOB), None, taker_with(negative, None, None), &caps())
            .unwrap();
    assert_eq!(effects, vec![refusal(BOB, 500, Some(CantDoReason::InvalidAmount), None)]);
    assert_eq!(order, pending_sell());
}

#[test]
fn take_of_a_fixed_price_order_needs_no_quote() {
    let new = NewOrder { amount: 50_000, ..new_sell() };
    let mut order = publish_order(500, new, k(ALICE), k(100), Some(1), 150).unwrap();
    take_sell_action(&mut order, k(BOB), None, taker_with(None, None, None), &caps()).unwrap();
    assert_eq!(order.status, Status::WaitingBuyerInvoice);
    assert_eq!(order.amount, 50_000);
    assert_eq!(order.fee, 150);
}

fn active_order() -> Order {
    let mut order = pending_sell();
    order.status = Status::Active;
    order.buyer_pubkey = Some(k(BOB));
    order.amount = 200_000;
    order.hash = Some(hold_hash());
    order.buyer_invoice = Some("lnbc2000".to_string());
    order
}

#[test]
fn add_invoice_is_for_the_buyer_of_a_waiting_order() {
    let mut order = active_order();
    order.status = Status::WaitingBuyerInvoice;
    order.hash = None;
    order.buyer_invoice = None;
    let waiting = order.clone();

    let effects =
        add_invoice_action(&mut order, k(EVE), Some(1), "lnbc".to_string(), true, None).unwrap();
    assert_eq!(effects, vec![]);
    let effects =
        add_invoice_action(&mut order, k(ALICE), Some(1), "lnbc".to_string(), true, None).unwrap();
    assert_eq!(effects, vec![refusal(ALICE, 500, None, Some(1))]);
    let effects =
        add_invoice_action(&mut order, k(BOB), Some(1), "lnbc".to_string(), false, None).unwrap();
    assert_eq!(effects, vec![refusal(BOB, 500, Some(CantDoReason::InvalidAmount), Some(1))]);
    assert_eq!(order, waiting);

    let mut order = active_order();
    let effects =
        add_invoice_action(&mut order, k(BOB), Some(1), "lnbc".to_string(), true, None).unwrap();
    assert_eq!(effects, vec![refusal(BOB, 500, None, Some(1))]);
    assert_eq!(order, active_order());
}

#[test]
fn hold_invoice_reports_act_only_where_they_apply() {
    for status in [Status::Pending, Status::Active, Status::Settled, Status::Canceled] {
        let mut order = active_order();
        order.status = status;
        assert_eq!(hold_invoice_accepted(&mut order).unwrap(), vec![]);
        assert_eq!(order.status, status);
    }
    let mut order = active_order();
    order.status = Status::WaitingPayment;
    order.hash = None;
    assert_eq!(hold_invoice_accepted(&mut order).unwrap(), vec![]);
    assert_eq!(order.status, Status::WaitingPayment);

    for status in [Status::WaitingPayment, Status::Active, Status::FiatSent] {
        let mut order = active_order();
        order.status = status;
        let effects = hold_invoice_expired(&mut order).unwrap();
        assert_eq!(order.status, Status::Expired);
        assert_eq!(
            effects,
            vec![Effect::PublishOrder, tell(BOB, Notice::Expired), tell(ALICE, Notice::Expired)]
        );
    }
    for status in [Status::Pending, Status::Dispute, Status::Settled, Status::Completed] {
        let mut order = active_order();
        order.status = status;
        assert_eq!(hold_invoice_expired(&mut order).unwrap(), vec![]);
        assert_eq!(order.status, status);
    }
}

#[test]
fn fiat_sent_again_is_silent() {
    let mut order = active_order();
    let first = fiat_sent_action(&mut order, k(BOB), Some(1)).unwrap();
    assert_eq!(first.len(), 3);
    assert_eq!(order.status, Status::FiatSent);
    let sent = order.clone();
    let again = fiat_sent_action(&mut order, k(BOB), Some(2)).unwrap();
    assert_eq!(again, vec![]);
    assert_eq!(order, sent);
}

#[test]
fn fiat_sent_is_for_the_buyer_of_an_active_trade() {
    let mut order = active_order();
    assert_eq!(fiat_sent_action(&mut order, k(EVE), None).unwrap(), vec![]);
    assert_eq!(
        fiat_sent_action(&mut order, k(ALICE), Some(1)).unwrap(),
        vec![refusal(ALICE, 500, None, Some(1))]
    );
    assert_eq!(order, active_order());
    order.status = Status::FiatSent;
    assert_eq!(
        fiat_sent_action(&mut order, k(ALICE), Some(1)).unwrap(),
        vec![refusal(ALICE, 500, None, Some(1))]
    );
    order.status = Status::WaitingPayment;
    assert_eq!(
        fiat_sent_action(&mut order, k(BOB), Some(1)).unwrap(),
        vec![refusal(BOB, 500, None, Some(1))]
    );
    assert_eq!(order.status, Status::WaitingPayment);
}

#[test]
fn release_is_for_the_seller_once_fiat_is_sent() {
    let mut sent = active_order();
    sent.status = Status::FiatSent;

    let mut order = sent.clone();
    assert_eq!(release_action(&mut order, k(EVE), None, Some(secret())).unwrap(), vec![]);
    assert_eq!(
        release_action(&mut order, k(BOB), Some(1), Some(secret())).unwrap(),
        vec![refusal(BOB, 500, None, Some(1))]
    );
    assert_eq!(order, sent);

    let mut order = active_order();
    assert_eq!(
        release_action(&mut order, k(ALICE), Some(1), Some(secret())).unwrap(),
        vec![refusal(ALICE, 500, None, Some(1))]
    );
    assert_eq!(order, active_order());

    let mut order = sent.clone();
    order.buyer_invoice = None;
    assert_eq!(
        release_action(&mut order, k(ALICE), Some(1), Some(secret())).unwrap(),
        vec![refusal(ALICE, 500, None, Some(1))]
    );
    let mut order = sent.clone();
    order.hash = None;
    assert_eq!(
        release_action(&mut order, k(ALICE), Some(1), Some(secret())).unwrap(),
        vec![refusal(ALICE, 500, None, Some(1))]
    );
    assert_eq!(order.status, Status::FiatSent);
}

#[test]
fn settled_order_is_never_settled_again() {
    let mut order = active_order();
    order.status = Status::FiatSent;
    release_action(&mut order, k(ALICE), None, Some(secret())).unwrap();
    assert_eq!(order.status, Status::Settled);
    let settled = order.clone();
    let again = release_action(&mut order, k(ALICE), Some(9), None).unwrap();
    assert_eq!(again, vec![refusal(ALICE, 500, None, Some(9))]);
    let again = release_action(&mut order, k(ALICE), Some(9), Some(Bits256 { hi: 0, lo: 0 })).unwrap();
    assert_eq!(again, vec![refusal(ALICE, 500, None, Some(9))]);
    assert_eq!(order, settled);
}

#[test]
fn failed_payment_leaves_the_order_settled() {
    let mut order = active_order();
    order.status = Status::Settled;
    order.preimage = Some(secret());
    let settled = order.clone();
    let effects = payment_result(&mut order, false).unwrap();
    assert_eq!(effects, vec![tell(BOB, Notice::PaymentFailed)]);
    assert_eq!(order, settled);
    // A later success still completes the trade, once.
    payment_result(&mut order, true).unwrap();
    assert_eq!(order.status, Status::Completed);
    assert_eq!(payment_result(&mut order, true).unwrap(), vec![]);
    assert_eq!(order.status, Status::Completed);
}

#[test]
fn payment_reports_change_no_other_order() {
    for status in [Status::Pending, Status::Active, Status::FiatSent, Status::Dispute] {
        let mut order = active_order();
        order.status = status;
        assert_eq!(payment_result(&mut order, true).unwrap(), vec![]);
        assert_eq!(payment_result(&mut order, false).unwrap(), vec![]);
        assert_eq!(order.status, status);
    }
    let mut order = active_order();
    order.status = Status::SettledByAdmin;
    assert_eq!(payment_result(&mut order, true).unwrap(), vec![]);
    assert_eq!(payment_result(&mut order, false).unwrap(), vec![tell(BOB, Notice::PaymentFailed)]);
    assert_eq!(order.status, Status::SettledByAdmin);
}

#[test]
fn hold_invoices_of_running_trades_are_watched() {
    for status in [Status::WaitingPayment, Status::Active, Status::FiatSent, Status::Dispute] {
        let mut order = active_order();
        order.status = status;
        assert!(awaits_escrow(&order));
        order.hash = None;
        assert!(!awaits_escrow(&order));
    }
    for status in [
        Status::Pending,
        Status::WaitingBuyerInvoice,
        Status::Settled,
        Status::Completed,
        Status::Canceled,
        Status::CooperativelyCanceled,
        Status::CanceledByAdmin,
        Status::SettledByAdmin,
        Status::Expired,
    ] {
        let mut order = active_order();
        order.status = status;
        assert!(!awaits_escrow(&order));
    }
}

#[test]
fn take_target_is_the_order_or_the_child_of_a_range() {
    assert_eq!(take_target(&pending_sell(), 1, None), Ok(None));
    assert_eq!(take_target(&pending_sell(), 1, Some(7)), Ok(None));
    assert_eq!(take_target(&active_order(), 1, Some(7)), Ok(None));

    let new = NewOrder { min_amount: Some(50), max_amount: Some(500), fiat_amount: 0, ..new_sell() };
    let parent = publish_order(900, new, k(ALICE), k(100), Some(1), 0).unwrap();
    assert_eq!(take_target(&parent, 901, None), Err(CantDoReason::OutOfRangeFiatAmount));
    assert_eq!(take_target(&parent, 901, Some(49)), Err(CantDoReason::OutOfRangeFiatAmount));
    assert_eq!(take_target(&parent, 901, Some(501)), Err(CantDoReason::OutOfRangeFiatAmount));
    let child = take_target(&parent, 901, Some(120)).unwrap().unwrap();
    assert_eq!(child, range_child(&parent, 901, 120).unwrap());
    assert_eq!(child.id, 901);
    assert_eq!(child.fiat_amount, 120);
    assert!(child.is_well_formed());
    let mut gone = parent.clone();
    gone.status = Status::Canceled;
    assert_eq!(take_target(&gone, 901, Some(120)), Err(CantDoReason::InvalidParameters));
}
