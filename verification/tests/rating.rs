use mostro::effect::{CantDoReason, Effect, Fault, Notice};
use mostro::order::{Kind, Order, PubKey, Status};
use mostro::rating::{rate_user_action, tally, RateBuffer, Rating, Tally};

fn id(n: u128) -> PubKey {
    PubKey { hi: n, lo: n }
}

fn completed() -> Order {
    Order {
        id: 1,
        kind: Kind::Buy,
        status: Status::Completed,
        creator_pubkey: id(1),
        buyer_pubkey: Some(id(1)),
        seller_pubkey: Some(id(2)),
        master_buyer_pubkey: Some(id(11)),
        master_seller_pubkey: None,
        fiat_code: "ARS".to_string(),
        fiat_amount: 1000,
        min_amount: None,
        max_amount: None,
        amount: 1500,
        fee: 4,
        premium: 0,
        payment_method: "mp".to_string(),
        price_from_api: false,
        hash: None,
        preimage: None,
        buyer_invoice: None,
        cancel_initiator_pubkey: None,
        buyer_cooperativecancel: false,
        seller_cooperativecancel: false,
        trade_index_buyer: None,
        trade_index_seller: None,
        event_id: None,
        buyer_sent_rate: false,
        seller_sent_rate: false,
    }
}

#[test]
fn each_party_rates_the_other_once() {
    let mut order = completed();
    let mut buffer = RateBuffer::new();

    let effects = rate_user_action(&mut order, &mut buffer, id(1), Some(1), 5).unwrap();
    assert_eq!(
        effects,
        vec![Effect::Notify { to: id(1), notice: Notice::RateReceived, request_id: Some(1) }]
    );
    assert!(order.buyer_sent_rate && !order.seller_sent_rate);
    // The seller has no long-lived identity on record: the trading key is rated.
    assert_eq!(buffer.pending, vec![Rating { order_id: 1, rater: id(1), rated: id(2), stars: 5 }]);

    let effects = rate_user_action(&mut order, &mut buffer, id(2), None, 1).unwrap();
    assert_eq!(effects.len(), 1);
    assert!(order.seller_sent_rate);
    assert_eq!(buffer.pending[1], Rating { order_id: 1, rater: id(2), rated: id(11), stars: 1 });

    let again = rate_user_action(&mut order, &mut buffer, id(1), Some(3), 4).unwrap();
    assert_eq!(
        again,
        vec![Effect::CantDo { to: id(1), reason: None, request_id: Some(3), order_id: Some(1) }]
    );
    assert_eq!(buffer.pending.len(), 2);
}

#[test]
fn rating_needs_a_completed_trade_a_party_and_one_to_five_stars() {
    let mut buffer = RateBuffer::new();
    for status in [Status::Active, Status::Settled, Status::SettledByAdmin, Status::Canceled] {
        let mut order = completed();
        order.status = status;
        let effects = rate_user_action(&mut order, &mut buffer, id(1), None, 5).unwrap();
        assert_eq!(
            effects,
            vec![Effect::CantDo { to: id(1), reason: None, request_id: None, order_id: Some(1) }]
        );
        assert!(!order.buyer_sent_rate);
    }
    let mut order = completed();
    assert_eq!(rate_user_action(&mut order, &mut buffer, id(7), None, 5).unwrap(), vec![]);
    for stars in [0u8, 6, 255] {
        let effects = rate_user_action(&mut order, &mut buffer, id(2), Some(2), stars).unwrap();
        assert_eq!(
            effects,
            vec![Effect::CantDo {
                to: id(2),
                reason: Some(CantDoReason::InvalidParameters),
                request_id: Some(2),
                order_id: Some(1),
            }]
        );
    }
    assert_eq!(order, completed());
    assert!(buffer.pending.is_empty());
    order.buyer_pubkey = None;
    assert_eq!(
        rate_user_action(&mut order, &mut buffer, id(2), None, 5),
        Err(Fault::MissingBuyerPubkey)
    );
}

#[test]
fn flush_hands_out_the_batch_and_empties_the_buffer() {
    let mut buffer = RateBuffer::new();
    let a = Rating { order_id: 1, rater: id(1), rated: id(2), stars: 5 };
    let b = Rating { order_id: 2, rater: id(3), rated: id(2), stars: 2 };
    let c = Rating { order_id: 2, rater: id(2), rated: id(3), stars: 4 };
    buffer.pending = vec![a, b, c];
    let batch = buffer.flush();
    assert_eq!(batch, vec![a, b, c]);
    assert!(buffer.pending.is_empty());
    assert!(buffer.flush().is_empty());

    assert_eq!(tally(&batch, id(2)), Tally { count: 2, total: 7 });
    assert_eq!(tally(&batch, id(3)), Tally { count: 1, total: 4 });
    assert_eq!(tally(&batch, id(1)), Tally { count: 0, total: 0 });
    assert_eq!(tally(&vec![], id(1)), Tally { count: 0, total: 0 });
}
