use mostro::cancel::cancel_action;
use mostro::order::{Bits256, Kind, Order, PubKey, Status};
use mostro::publish::record_published;
use mostro::store::Slot;
use mostro::trade::fiat_sent_action;

fn who(n: u128) -> PubKey {
    PubKey { hi: 0, lo: 1000 + n }
}

fn live() -> Order {
    Order {
        id: 5,
        kind: Kind::Sell,
        status: Status::Active,
        creator_pubkey: who(1),
        buyer_pubkey: Some(who(2)),
        seller_pubkey: Some(who(1)),
        master_buyer_pubkey: None,
        master_seller_pubkey: None,
        fiat_code: "USD".to_string(),
        fiat_amount: 10,
        min_amount: None,
        max_amount: None,
        amount: 20_000,
        fee: 60,
        premium: 0,
        payment_method: "x".to_string(),
        price_from_api: false,
        hash: Some(Bits256 { hi: 1, lo: 2 }),
        preimage: None,
        buyer_invoice: Some("lnbc".to_string()),
        cancel_initiator_pubkey: None,
        buyer_cooperativecancel: false,
        seller_cooperativecancel: false,
        trade_index_buyer: None,
        trade_index_seller: None,
        event_id: None,
        buyer_sent_rate: false,
        seller_sent_rate: false,
    }
}

#[test]
fn two_handlers_on_one_version_only_one_writes() {
    let mut slot = Slot::new(live());
    assert_eq!(slot.version, 0);

    // Both handlers read the order at version 0.
    let seen = slot.version;
    let mut by_buyer = slot.order.clone();
    fiat_sent_action(&mut by_buyer, who(2), None).unwrap();
    let mut by_seller = slot.order.clone();
    cancel_action(&mut by_seller, who(1), None, None).unwrap();

    assert!(slot.commit(seen, by_buyer.clone()));
    assert_eq!(slot.version, 1);
    assert_eq!(slot.order.status, Status::FiatSent);

    assert!(!slot.commit(seen, by_seller));
    assert_eq!(slot.version, 1);
    assert_eq!(slot.order, by_buyer);

    // The loser starts over from the new state.
    let seen = slot.version;
    let mut retry = slot.order.clone();
    cancel_action(&mut retry, who(1), None, None).unwrap();
    assert!(slot.commit(seen, retry));
    assert_eq!(slot.version, 2);
    assert_eq!(slot.order.status, Status::FiatSent);
    assert_eq!(slot.order.cancel_initiator_pubkey, Some(who(1)));
}

#[test]
fn commit_refuses_unknown_and_exhausted_versions() {
    let mut slot = Slot::new(live());
    assert!(!slot.commit(1, live()));
    assert!(!slot.commit(u64::MAX, live()));
    assert_eq!(slot.version, 0);
    slot.version = u64::MAX;
    assert!(!slot.commit(u64::MAX, live()));
    assert_eq!(slot.version, u64::MAX);
}

#[test]
fn publishing_the_same_snapshot_again_changes_nothing() {
    let event = Bits256 { hi: 0xfeed, lo: 0xbeef };
    let mut once = live();
    record_published(&mut once, event);
    assert_eq!(once.event_id, Some(event));
    let mut many = live();
    for _ in 0..5 {
        record_published(&mut many, event);
    }
    assert_eq!(many, once);
    let mut other = once.clone();
    record_published(&mut other, Bits256 { hi: 1, lo: 1 });
    assert_eq!(other.event_id, Some(Bits256 { hi: 1, lo: 1 }));
    other.event_id = once.event_id;
    assert_eq!(other, once);
}
