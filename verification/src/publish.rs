//! What the world is told of an order: the snapshot that its public event
//! carries, and the record of the event that was published last.

use vstd::prelude::*;
use crate::order::{Bits256, Kind, Order, Status};

verus! {

/// The fiat side of an order as it is published: one amount, or the bounds
/// of a range.
#[derive(Clone, Copy, Debug, PartialEq, Eq)]
pub enum FiatSide {
    Fixed(i64),
    Range(i64, i64),
}

/// What the public event of an order says. Keys, invoices and bookkeeping
/// stay private.
#[derive(Clone, Debug, PartialEq, Eq)]
pub struct Snapshot {
    pub order_id: u128,
    pub kind: Kind,
    pub status: Status,
    pub fiat_code: String,
    pub fiat: FiatSide,
    pub payment_method: String,
    pub premium: i64,
    /// Satoshis; 0 while the price is open.
    pub amount: i64,
}

/// The fiat side of an order.
pub open spec fn fiat_side(order: Order) -> FiatSide {
    if order.spec_is_range() {
        FiatSide::Range(order.min_amount->0, order.max_amount->0)
    } else {
        FiatSide::Fixed(order.fiat_amount)
    }
}

/// The snapshot of an order.
pub open spec fn snapshot_of(order: Order) -> Snapshot {
    Snapshot {
        order_id: order.id,
        kind: order.kind,
        status: order.status,
        fiat_code: order.fiat_code,
        fiat: fiat_side(order),
        payment_method: order.payment_method,
        premium: order.premium,
        amount: order.amount,
    }
}

/// Takes the snapshot that the order's public event is to carry.
pub fn snapshot(order: &Order) -> (shot: Snapshot)
    ensures
        shot == snapshot_of(*order),
{
    let fiat = match (order.min_amount, order.max_amount) {
        (Some(min), Some(max)) => FiatSide::Range(min, max),
        _ => FiatSide::Fixed(order.fiat_amount),
    };
    Snapshot {
        order_id: order.id,
        kind: order.kind,
        status: order.status,
        fiat_code: order.fiat_code.clone(),
        fiat,
        payment_method: order.payment_method.clone(),
        premium: order.premium,
        amount: order.amount,
    }
}

/// The order with `event_id` recorded as its latest public event.
pub open spec fn published(order: Order, event_id: Bits256) -> Order {
    Order { event_id: Some(event_id), ..order }
}

/// The order after the same event id was recorded `times` times.
pub open spec fn published_times(order: Order, event_id: Bits256, times: nat) -> Order
    decreases times,
{
    if times == 0 {
        order
    } else {
        published(published_times(order, event_id, (times - 1) as nat), event_id)
    }
}

/// Records the id of the event that was published for the order.
pub fn record_published(order: &mut Order, event_id: Bits256)
    ensures
        *final(order) == published(*old(order), event_id),
        old(order).wf() ==> final(order).wf(),
{
    order.event_id = Some(event_id);
}

/// An event's id is fixed by its content, so publishing one snapshot again
/// yields the same id; recording it any number of times leaves the order as
/// recording it once does.
pub proof fn theorem_republishing_changes_nothing(order: Order, event_id: Bits256, times: nat)
    requires
        times >= 1,
    ensures
        published_times(order, event_id, times) == published(order, event_id),
    decreases times,
{
    if times > 1 {
        theorem_republishing_changes_nothing(order, event_id, (times - 1) as nat);
    } else {
        assert(published_times(order, event_id, 0) == order);
    }
}

/// Recording a publication changes nothing of what is published.
pub proof fn theorem_recording_keeps_the_snapshot(order: Order, event_id: Bits256)
    ensures
        snapshot_of(published(order, event_id)) == snapshot_of(order),
{
}

} // verus!
