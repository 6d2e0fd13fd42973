use mostro::dispute::{admin_add_solver_action, Dispute, SolverRegistry};
use mostro::effect::Effect;
use mostro::machine::{handle_message_action, Input};
use mostro::new_order::{publish_order, Limits, NewOrder};
use mostro::order::{Bits256, Kind, Order, PubKey, Status};
use mostro::publish::snapshot;
use mostro::trade::{Quote, Taker};

fn p(n: u128) -> PubKey {
    PubKey { hi: 42, lo: n }
}

const MAKER: u128 = 1;
const TAKER: u128 = 2;
const ADMIN: u128 = 3;
const NOBODY: u128 = 4;

fn bounds() -> Limits {
    Limits { max_order_amount: 5_000_000, min_payment_amount: 500 }
}

fn desk() -> SolverRegistry {
    let mut registry = SolverRegistry::new(p(ADMIN));
    admin_add_solver_action(&mut registry, p(ADMIN), None, p(ADMIN));
    registry
}

fn fresh(kind: Kind) -> Order {
    let new = NewOrder {
        id: None,
        kind: Some(kind),
        amount: 0,
        fiat_code: "USD".to_string(),
        min_amount: None,
        max_amount: None,
        fiat_amount: 100,
        payment_method: "any".to_string(),
        premium: 0,
        buyer_invoice: if kind == Kind::Buy { Some("lnbc-maker".to_string()) } else { None },
    };
    publish_order(1, new, p(MAKER), p(MAKER + 100), None, 0).unwrap()
}

fn legal(from: Status, to: Status) -> bool {
    match from {
        Status::Pending => matches!(
            to,
            Status::WaitingBuyerInvoice
                | Status::WaitingPayment
                | Status::Canceled
                | Status::CanceledByAdmin
        ),
        Status::WaitingBuyerInvoice => matches!(
            to,
            Status::WaitingPayment | Status::Canceled | Status::Pending | Status::CanceledByAdmin
        ),
        Status::WaitingPayment => matches!(
            to,
            Status::Active
                | Status::Canceled
                | Status::Pending
                | Status::CanceledByAdmin
                | Status::Expired
        ),
        Status::Active => matches!(
            to,
            Status::FiatSent
                | Status::Dispute
                | Status::CooperativelyCanceled
                | Status::CanceledByAdmin
                | Status::Expired
        ),
        Status::FiatSent => matches!(
            to,
            Status::Settled
                | Status::Dispute
                | Status::CooperativelyCanceled
                | Status::CanceledByAdmin
                | Status::Expired
        ),
        Status::Settled => matches!(to, Status::Completed),
        Status::Dispute => matches!(
            to,
            Status::SettledByAdmin | Status::CooperativelyCanceled | Status::CanceledByAdmin
        ),
        _ => false,
    }
}

fn taker() -> Taker {
    Taker {
        master: p(TAKER + 100),
        trade_index: None,
        invoice: None,
        invoice_valid: true,
        quote: Some(Quote { amount: 200_000, fee: 600 }),
        hold: Some(Bits256 { hi: 9, lo: 9 }),
    }
}

/// Every event that the four keys can cause, in a fixed order.
fn everything() -> Vec<Input> {
    let mut events = vec![Input::HoldInvoiceAccepted, Input::HoldInvoiceExpired];
    events.push(Input::PaymentResult { succeeded: true });
    events.push(Input::PaymentResult { succeeded: false });
    for who in [MAKER, TAKER, ADMIN, NOBODY] {
        let sender = p(who);
        let request_id = Some(who as u64);
        events.push(Input::TakeSell { sender, request_id, taker: taker() });
        events.push(Input::TakeBuy { sender, request_id, taker: taker() });
        events.push(Input::AddInvoice {
            sender,
            request_id,
            invoice: "lnbc".to_string(),
            invoice_valid: true,
            hold: Some(Bits256 { hi: 8, lo: 8 }),
        });
        events.push(Input::FiatSent { sender, request_id });
        events.push(Input::Release { sender, request_id, settled: Some(Bits256 { hi: 7, lo: 7 }) });
        events.push(Input::Release { sender, request_id, settled: None });
        for released in [None, Some(true), Some(false)] {
            events.push(Input::Cancel { sender, request_id, released });
            events.push(Input::AdminCancel { sender, request_id, released });
        }
        events.push(Input::Dispute { sender, request_id, dispute_id: 70, now: 1 });
        events.push(Input::AdminTakeDispute { sender, request_id });
        events.push(Input::AdminSettle { sender, request_id, settled: Some(Bits256 { hi: 6, lo: 6 }) });
        events.push(Input::AdminSettle { sender, request_id, settled: None });
    }
    events
}

struct Tape {
    state: u64,
}

impl Tape {
    fn next(&mut self, bound: usize) -> usize {
        self.state = self.state.wrapping_mul(6364136223846793005).wrapping_add(1442695040888963407);
        ((self.state >> 33) as usize) % bound
    }
}

struct Seen {
    settlements: u32,
    settle_asked_after_settlement: bool,
    payouts: u32,
    cancels: Vec<PubKey>,
}

/// Plays `steps` events picked by `seed` against a fresh order and checks
/// each step on the way.
fn play(kind: Kind, seed: u64, steps: usize) -> (Order, Seen) {
    let all = everything();
    let mut tape = Tape { state: seed };
    let mut order = fresh(kind);
    let mut dispute: Option<Dispute> = None;
    let registry = desk();
    let mut seen =
        Seen { settlements: 0, settle_asked_after_settlement: false, payouts: 0, cancels: vec![] };
    for _ in 0..steps {
        let event = all[tape.next(all.len())].clone();
        let before = order.clone();
        let dispute_before = dispute;
        let result = handle_message_action(&mut order, &mut dispute, &registry, &bounds(), event.clone());
        assert!(
            order.status == before.status || legal(before.status, order.status),
            "{:?} -> {:?} by {:?}",
            before.status,
            order.status,
            event
        );
        assert_eq!(order.id, before.id);
        assert_eq!(order.kind, before.kind);
        assert_eq!(order.creator_pubkey, before.creator_pubkey);
        let was_settled =
            matches!(before.status, Status::Settled | Status::Completed | Status::SettledByAdmin);
        if order.status != before.status
            && matches!(order.status, Status::Settled | Status::SettledByAdmin)
        {
            seen.settlements += 1;
        }
        if was_settled && result == Ok(vec![Effect::SettleHoldInvoice]) {
            seen.settle_asked_after_settlement = true;
        }
        if matches!(event, Input::PaymentResult { succeeded: true }) && order.status != before.status
        {
            seen.payouts += 1;
        }
        if let Input::Cancel { sender, released, .. } = event {
            if released == Some(false) && before.hash.is_some() && before.status != Status::Pending {
                // A cancel that needs the escrow and does not get it changes
                // nothing; only the first request of a cooperative cancel
                // needs no escrow.
                assert!(
                    order == before || before.cancel_initiator_pubkey.is_none(),
                    "{:?} -> {:?}",
                    before,
                    order
                );
            }
            if order != before {
                assert!(before.is_participant(sender));
                seen.cancels.push(sender);
            }
        }
        assert!(order.is_well_formed(), "{:?} by {:?}", order, event);
        let turned_away = match &result {
            Err(_) => true,
            Ok(effects) => matches!(effects.first(), Some(Effect::CantDo { .. })),
        };
        if turned_away {
            assert_eq!(order, before);
            assert_eq!(dispute, dispute_before);
        }
        if snapshot(&order) != snapshot(&before) {
            assert_eq!(result.as_ref().unwrap().first(), Some(&Effect::PublishOrder));
        }
        let stranger = match &event {
            Input::AddInvoice { sender, .. }
            | Input::FiatSent { sender, .. }
            | Input::Release { sender, .. }
            | Input::Cancel { sender, .. }
            | Input::Dispute { sender, .. } => !before.is_participant(*sender),
            _ => false,
        };
        if stranger {
            assert_eq!(result, Ok(vec![]));
            assert_eq!(order, before);
            assert_eq!(dispute, dispute_before);
        }
        if before.cancel_initiator_pubkey.is_some() {
            assert_eq!(order.cancel_initiator_pubkey, before.cancel_initiator_pubkey);
        }
    }
    (order, seen)
}

#[test]
fn runs_follow_the_table() {
    let mut ends = std::collections::BTreeSet::new();
    for seed in 0..400u64 {
        for kind in [Kind::Sell, Kind::Buy] {
            let (order, _) = play(kind, seed, 60);
            ends.insert(format!("{:?}", order.status));
        }
    }
    // The runs are varied enough to end in many different states.
    assert!(ends.len() >= 6, "{:?}", ends);
}

#[test]
fn escrow_is_settled_at_most_once() {
    let mut settled_runs = 0;
    for seed in 0..6000u64 {
        let (order, seen) = play(Kind::Sell, seed, 120);
        assert!(seen.settlements <= 1);
        assert!(!seen.settle_asked_after_settlement);
        let settled =
            matches!(order.status, Status::Settled | Status::Completed | Status::SettledByAdmin);
        assert_eq!(seen.settlements == 1, settled);
        if settled {
            assert!(order.preimage.is_some());
            settled_runs += 1;
        }
    }
    assert!(settled_runs > 0);
}

#[test]
fn completed_means_exactly_one_payout() {
    let mut completed_runs = 0;
    for seed in 0..6000u64 {
        let (order, seen) = play(Kind::Buy, seed, 120);
        if order.status == Status::Completed {
            assert_eq!(seen.payouts, 1);
            completed_runs += 1;
        } else {
            assert_eq!(seen.payouts, 0);
        }
    }
    assert!(completed_runs > 0);
}

#[test]
fn cooperative_cancel_takes_two_keys() {
    let mut cancelled_runs = 0;
    for seed in 0..6000u64 {
        let (order, seen) = play(Kind::Sell, seed, 120);
        if order.status == Status::CooperativelyCanceled {
            let first = seen.cancels[0];
            assert!(seen.cancels.iter().any(|k| *k != first), "{:?}", seen.cancels);
            assert!(order.buyer_cooperativecancel && order.seller_cooperativecancel);
            cancelled_runs += 1;
        }
    }
    assert!(cancelled_runs > 0);
}

#[test]
fn active_orders_have_both_parties_and_a_hold_invoice() {
    for seed in 0..300u64 {
        for steps in [3usize, 6, 10, 20] {
            let (order, _) = play(Kind::Sell, seed, steps);
            if order.status == Status::Active {
                assert!(order.buyer_pubkey.is_some() && order.seller_pubkey.is_some());
                assert!(order.hash.is_some());
            }
            if matches!(order.status, Status::Settled | Status::Completed) {
                assert!(order.preimage.is_some());
            }
            if order.status == Status::Pending {
                assert_eq!(order.buyer_pubkey, None);
            }
            if let (Some(buyer), Some(seller)) = (order.buyer_pubkey, order.seller_pubkey) {
                assert_ne!(buyer, seller);
                assert!(buyer == order.creator_pubkey || seller == order.creator_pubkey);
            }
        }
    }
}

#[test]
fn every_step_keeps_orders_well_formed_and_refusals_change_nothing() {
    // The checks are made inside `play`, after every single step.
    for seed in 1000..1300u64 {
        play(Kind::Sell, seed, 40);
        play(Kind::Buy, seed, 40);
    }
}

#[test]
fn handle_message_action_routes_to_the_handlers() {
    let registry = desk();
    let mut order = fresh(Kind::Buy);
    let mut dispute = None;
    let ask = handle_message_action(
        &mut order,
        &mut dispute,
        &registry,
        &bounds(),
        Input::TakeBuy {
            sender: p(TAKER),
            request_id: None,
            taker: Taker { hold: None, ..taker() },
        },
    );
    assert_eq!(ask, Ok(vec![Effect::IssueHoldInvoice]));
    let mut go = |event: Input| {
        handle_message_action(&mut order, &mut dispute, &registry, &bounds(), event).unwrap();
        order.status
    };
    assert_eq!(
        go(Input::TakeBuy { sender: p(TAKER), request_id: None, taker: taker() }),
        Status::WaitingPayment
    );
    assert_eq!(go(Input::HoldInvoiceAccepted), Status::Active);
    assert_eq!(go(Input::FiatSent { sender: p(MAKER), request_id: None }), Status::FiatSent);
    assert_eq!(
        go(Input::Dispute { sender: p(TAKER), request_id: None, dispute_id: 5, now: 9 }),
        Status::Dispute
    );
    assert_eq!(go(Input::AdminTakeDispute { sender: p(ADMIN), request_id: None }), Status::Dispute);
    assert_eq!(
        go(Input::AdminCancel { sender: p(ADMIN), request_id: None, released: None }),
        Status::Dispute
    );
    assert_eq!(
        go(Input::AdminCancel { sender: p(ADMIN), request_id: None, released: Some(true) }),
        Status::CanceledByAdmin
    );
    assert_eq!(
        go(Input::Cancel { sender: p(MAKER), request_id: None, released: None }),
        Status::CanceledByAdmin
    );
}
