//! Cancellation by the parties: the maker withdrawing a pending order, a
//! taker walking away before the trade is active, and the cooperative cancel
//! of a live trade.

use vstd::prelude::*;
use crate::effect::{answer, refuse, tell, view_of, CantDoReason, Effect, Fault, Notice};
use crate::order::{Kind, Order, PubKey, Status};

verus! {

/// What a handler comes to: the order as it leaves the handler, and either
/// the effects to carry out or the fault that stopped it.
pub struct Outcome {
    pub order: Order,
    pub result: Result<Seq<Effect>, Fault>,
}

/// The order stays as it is and `effects` are carried out.
pub open spec fn unchanged(order: Order, effects: Seq<Effect>) -> Outcome {
    Outcome { order, result: Ok(effects) }
}

/// The order stays as it is and the request is dropped with `fault`.
pub open spec fn faulted(order: Order, fault: Fault) -> Outcome {
    Outcome { order, result: Err(fault) }
}

/// True when an executed handler left `after` and returned `r` as `expected` says.
pub open spec fn came_to(after: Order, r: Result<Vec<Effect>, Fault>, expected: Outcome) -> bool {
    after == expected.order && view_of(r) == expected.result
}

/// The escrow side of any cancellation. An order without hold invoice passes.
/// Where one was issued it has to be cancelled first, which returns the
/// funds to the seller: as long as the caller has not tried (`released` is
/// `None`) the cancellation only asks for that; where the caller tried in
/// vain it ends in a fault; in both cases the order stays as it is. Only
/// after the hold invoice was cancelled does the cancellation go on.
pub open spec fn escrow_bar(order: Order, released: Option<bool>) -> Option<Result<
    Seq<Effect>,
    Fault,
>> {
    if order.hash is None {
        None
    } else {
        match released {
            None => Some(Ok(seq![Effect::CancelHoldInvoice])),
            Some(false) => Some(Err(Fault::HoldInvoiceNotCancelled)),
            Some(true) => None,
        }
    }
}

/// The order as it is offered again after its taker walked away: pending,
/// without hold invoice, and with an open price where the price is dynamic.
/// The caller clears the taker's side.
pub open spec fn reoffered(order: Order) -> Order {
    Order {
        status: Status::Pending,
        amount: if order.price_from_api { 0 } else { order.amount },
        fee: if order.price_from_api { 0 } else { order.fee },
        hash: None,
        preimage: None,
        ..order
    }
}

/// A sell order that waits for the buyer's invoice, cancelled by its buyer.
///
/// Acts only on a sell order in `WaitingBuyerInvoice`. Anyone but the buyer
/// is refused without a reason. A hold invoice that was issued is cancelled
/// first (see `escrow_bar`). Then the buyer who created the order ends it as
/// `Canceled`; a buyer who took it walks away and the order is offered again.
pub open spec fn cancel_add_invoice_outcome(
    order: Order,
    sender: PubKey,
    request_id: Option<u64>,
    released: Option<bool>,
) -> Outcome {
    if order.kind != Kind::Sell || order.status != Status::WaitingBuyerInvoice {
        unchanged(order, Seq::empty())
    } else if order.seller_pubkey is None {
        faulted(order, Fault::MissingSellerPubkey)
    } else if order.buyer_pubkey is None {
        faulted(order, Fault::MissingBuyerPubkey)
    } else if !order.spec_is_buyer(sender) {
        unchanged(order, seq![refuse(sender, None, request_id, order.id)])
    } else if escrow_bar(order, released) is Some {
        Outcome { order, result: escrow_bar(order, released)->0 }
    } else if order.spec_is_creator(sender) {
        Outcome {
            order: Order { status: Status::Canceled, ..order },
            result: Ok(
                seq![
                    Effect::PublishOrder,
                    answer(sender, Notice::Canceled, request_id),
                    tell(order.seller_pubkey->0, Notice::Canceled),
                ],
            ),
        }
    } else {
        Outcome {
            order: Order {
                buyer_pubkey: None,
                master_buyer_pubkey: None,
                trade_index_buyer: None,
                buyer_invoice: None,
                ..reoffered(order)
            },
            result: Ok(seq![Effect::PublishOrder, answer(sender, Notice::Canceled, request_id)]),
        }
    }
}

/// A buy order that waits for the seller's payment, cancelled by its seller.
///
/// Acts only on a buy order in `WaitingPayment`. Anyone but the seller is
/// refused without a reason. A hold invoice that was issued is cancelled
/// first (see `escrow_bar`). Then the seller who created the order ends it
/// as `Canceled`; a seller who took it walks away and the order is offered
/// again.
pub open spec fn cancel_pay_hold_invoice_outcome(
    order: Order,
    sender: PubKey,
    request_id: Option<u64>,
    released: Option<bool>,
) -> Outcome {
    if order.kind != Kind::Buy || order.status != Status::WaitingPayment {
        unchanged(order, Seq::empty())
    } else if order.seller_pubkey is None {
        faulted(order, Fault::MissingSellerPubkey)
    } else if order.buyer_pubkey is None {
        faulted(order, Fault::MissingBuyerPubkey)
    } else if !order.spec_is_seller(sender) {
        unchanged(order, seq![refuse(sender, None, request_id, order.id)])
    } else if escrow_bar(order, released) is Some {
        Outcome { order, result: escrow_bar(order, released)->0 }
    } else if order.spec_is_creator(sender) {
        Outcome {
            order: Order { status: Status::Canceled, ..order },
            result: Ok(
                seq![
                    Effect::PublishOrder,
                    answer(sender, Notice::Canceled, request_id),
                    tell(sender, Notice::Canceled),
                ],
            ),
        }
    } else {
        Outcome {
            order: Order {
                seller_pubkey: None,
                master_seller_pubkey: None,
                trade_index_seller: None,
                ..reoffered(order)
            },
            result: Ok(seq![Effect::PublishOrder, answer(sender, Notice::Canceled, request_id)]),
        }
    }
}

/// The other party of a live trade, seen from `sender`: the seller for the
/// buyer, the buyer for anyone else.
pub open spec fn counterparty(order: Order, sender: PubKey) -> PubKey {
    if order.spec_is_buyer(sender) {
        order.seller_pubkey->0
    } else {
        order.buyer_pubkey->0
    }
}

/// The order with the cooperative-cancel flag of `sender`'s side raised.
pub open spec fn flagged(order: Order, sender: PubKey) -> Order {
    Order {
        buyer_cooperativecancel: order.buyer_cooperativecancel || order.spec_is_buyer(sender),
        seller_cooperativecancel: order.seller_cooperativecancel || !order.spec_is_buyer(sender),
        ..order
    }
}

/// Cooperative cancel of a live trade (`Active`, `FiatSent`, `Dispute`).
///
/// The first request records its sender as initiator and tells both parties;
/// the order stays live. The initiator repeating the request is refused
/// without a reason. The request of the other party completes the cancel:
/// the hold invoice is cancelled first (see `escrow_bar`), then the order
/// ends as `CooperativelyCanceled` and both parties are told.
pub open spec fn cooperative_cancel_outcome(
    order: Order,
    sender: PubKey,
    request_id: Option<u64>,
    released: Option<bool>,
) -> Outcome {
    if !order.status.spec_is_live() || !order.spec_is_participant(sender) {
        unchanged(order, Seq::empty())
    } else if order.seller_pubkey is None {
        faulted(order, Fault::MissingSellerPubkey)
    } else if order.buyer_pubkey is None {
        faulted(order, Fault::MissingBuyerPubkey)
    } else {
        let peer = counterparty(order, sender);
        match order.cancel_initiator_pubkey {
            None => Outcome {
                order: Order { cancel_initiator_pubkey: Some(sender), ..flagged(order, sender) },
                result: Ok(
                    seq![
                        answer(sender, Notice::CooperativeCancelInitiatedByYou, request_id),
                        tell(peer, Notice::CooperativeCancelInitiatedByPeer),
                    ],
                ),
            },
            Some(initiator) => if initiator == sender {
                unchanged(order, seq![refuse(sender, None, request_id, order.id)])
            } else if escrow_bar(order, released) is Some {
                Outcome { order, result: escrow_bar(order, released)->0 }
            } else {
                Outcome {
                    order: Order {
                        status: Status::CooperativelyCanceled,
                        ..flagged(order, sender)
                    },
                    result: Ok(
                        seq![
                            Effect::PublishOrder,
                            answer(sender, Notice::CooperativeCancelAccepted, request_id),
                            tell(peer, Notice::CooperativeCancelAccepted),
                        ],
                    ),
                }
            },
        }
    }
}

/// A `Cancel` request from `sender` against `order`. `released` says how
/// the cancelling of the hold invoice went, once the caller has tried.
///
/// - A stranger to the order is told nothing and changes nothing.
/// - An order that is already cancelled refuses with `OrderAlreadyCanceled`.
/// - A pending order is cancelled by its creator alone; another participant
///   is refused with `IsNotYourOrder`.
/// - A taken order that is not yet active follows `cancel_add_invoice_outcome`
///   (sell order waiting for the buyer's invoice) or
///   `cancel_pay_hold_invoice_outcome` (buy order waiting for the payment).
/// - A live trade follows `cooperative_cancel_outcome`.
/// - Any other order is left alone.
pub open spec fn cancel_outcome(
    order: Order,
    sender: PubKey,
    request_id: Option<u64>,
    released: Option<bool>,
) -> Outcome {
    if !order.spec_is_participant(sender) {
        unchanged(order, Seq::empty())
    } else if order.status.spec_is_canceled() {
        unchanged(
            order,
            seq![refuse(sender, Some(CantDoReason::OrderAlreadyCanceled), request_id, order.id)],
        )
    } else if order.status == Status::Pending {
        if !order.spec_is_creator(sender) {
            unchanged(
                order,
                seq![refuse(sender, Some(CantDoReason::IsNotYourOrder), request_id, order.id)],
            )
        } else {
            Outcome {
                order: Order { status: Status::Canceled, ..order },
                result: Ok(
                    seq![Effect::PublishOrder, answer(sender, Notice::Canceled, request_id)],
                ),
            }
        }
    } else if order.kind == Kind::Sell && order.status == Status::WaitingBuyerInvoice {
        cancel_add_invoice_outcome(order, sender, request_id, released)
    } else if order.kind == Kind::Buy && order.status == Status::WaitingPayment {
        cancel_pay_hold_invoice_outcome(order, sender, request_id, released)
    } else {
        cooperative_cancel_outcome(order, sender, request_id, released)
    }
}

/// Decides whether the hold invoice stands in the way. See `escrow_bar`.
pub fn check_escrow(order: &Order, released: Option<bool>) -> (r: Option<Result<Vec<Effect>, Fault>>)
    ensures
        match r {
            Some(stop) => escrow_bar(*order, released) == Some(view_of(stop)),
            None => escrow_bar(*order, released) is None,
        },
{
    if order.hash.is_none() {
        return None;
    }
    match released {
        None => {
            let mut effects: Vec<Effect> = Vec::new();
            effects.push(Effect::CancelHoldInvoice);
            Some(Ok(effects))
        },
        Some(false) => Some(Err(Fault::HoldInvoiceNotCancelled)),
        Some(true) => None,
    }
}

/// Puts the order back on offer; see `reoffered`.
fn reoffer(order: &mut Order)
    ensures
        *final(order) == reoffered(*old(order)),
{
    order.status = Status::Pending;
    if order.price_from_api {
        order.amount = 0;
        order.fee = 0;
    }
    order.hash = None;
    order.preimage = None;
}

/// The refusal of `sender`'s request, as the only effect.
fn refusal(
    sender: PubKey,
    reason: Option<CantDoReason>,
    request_id: Option<u64>,
    order_id: u128,
) -> (effects: Vec<Effect>)
    ensures
        effects@ == seq![refuse(sender, reason, request_id, order_id)],
{
    let mut effects: Vec<Effect> = Vec::new();
    effects.push(Effect::CantDo { to: sender, reason, request_id, order_id: Some(order_id) });
    effects
}

/// The publication of the order and the answer `notice` to `sender`.
fn published_answer(sender: PubKey, notice: Notice, request_id: Option<u64>) -> (effects: Vec<Effect>)
    ensures
        effects@ == seq![Effect::PublishOrder, answer(sender, notice, request_id)],
{
    let mut effects: Vec<Effect> = Vec::new();
    effects.push(Effect::PublishOrder);
    effects.push(Effect::Notify { to: sender, notice, request_id });
    assert(effects@ =~= seq![Effect::PublishOrder, answer(sender, notice, request_id)]);
    effects
}

/// Handles the buyer's `Cancel` on a sell order that waits for the buyer's
/// invoice. See `cancel_add_invoice_outcome`.
///
/// While the result is the single effect `CancelHoldInvoice`, the caller has
/// the hold invoice cancelled and calls again with the result in `released`.
pub fn cancel_add_invoice(
    order: &mut Order,
    sender: PubKey,
    request_id: Option<u64>,
    released: Option<bool>,
) -> (r: Result<Vec<Effect>, Fault>)
    ensures
        came_to(
            *final(order),
            r,
            cancel_add_invoice_outcome(*old(order), sender, request_id, released),
        ),
        old(order).wf() ==> final(order).wf(),
{
    if order.kind != Kind::Sell || order.status != Status::WaitingBuyerInvoice {
        return Ok(Vec::new());
    }
    let seller = match order.seller_pubkey {
        Some(seller) => seller,
        None => { return Err(Fault::MissingSellerPubkey); },
    };
    if order.buyer_pubkey.is_none() {
        return Err(Fault::MissingBuyerPubkey);
    }
    if !order.is_buyer(sender) {
        return Ok(refusal(sender, None, request_id, order.id));
    }
    if let Some(stop) = check_escrow(order, released) {
        return stop;
    }
    let mut effects = published_answer(sender, Notice::Canceled, request_id);
    if order.is_creator(sender) {
        order.status = Status::Canceled;
        effects.push(Effect::Notify { to: seller, notice: Notice::Canceled, request_id: None });
        assert(effects@ =~= seq![
            Effect::PublishOrder,
            answer(sender, Notice::Canceled, request_id),
            tell(seller, Notice::Canceled),
        ]);
    } else {
        reoffer(order);
        order.buyer_pubkey = None;
        order.master_buyer_pubkey = None;
        order.trade_index_buyer = None;
        order.buyer_invoice = None;
    }
    Ok(effects)
}

/// Handles the seller's `Cancel` on a buy order that waits for the seller's
/// payment. See `cancel_pay_hold_invoice_outcome`.
///
/// While the result is the single effect `CancelHoldInvoice`, the caller has
/// the hold invoice cancelled and calls again with the result in `released`.
pub fn cancel_pay_hold_invoice(
    order: &mut Order,
    sender: PubKey,
    request_id: Option<u64>,
    released: Option<bool>,
) -> (r: Result<Vec<Effect>, Fault>)
    ensures
        came_to(
            *final(order),
            r,
            cancel_pay_hold_invoice_outcome(*old(order), sender, request_id, released),
        ),
        old(order).wf() ==> final(order).wf(),
{
    if order.kind != Kind::Buy || order.status != Status::WaitingPayment {
        return Ok(Vec::new());
    }
    if order.seller_pubkey.is_none() {
        return Err(Fault::MissingSellerPubkey);
    }
    if order.buyer_pubkey.is_none() {
        return Err(Fault::MissingBuyerPubkey);
    }
    if !order.is_seller(sender) {
        return Ok(refusal(sender, None, request_id, order.id));
    }
    if let Some(stop) = check_escrow(order, released) {
        return stop;
    }
    let mut effects = published_answer(sender, Notice::Canceled, request_id);
    if order.is_creator(sender) {
        order.status = Status::Canceled;
        effects.push(Effect::Notify { to: sender, notice: Notice::Canceled, request_id: None });
        assert(effects@ =~= seq![
            Effect::PublishOrder,
            answer(sender, Notice::Canceled, request_id),
            tell(sender, Notice::Canceled),
        ]);
    } else {
        reoffer(order);
        order.seller_pubkey = None;
        order.master_seller_pubkey = None;
        order.trade_index_seller = None;
    }
    Ok(effects)
}

/// Handles a `Cancel` on a live trade. See `cooperative_cancel_outcome`.
///
/// While the result is the single effect `CancelHoldInvoice`, the caller has
/// the hold invoice cancelled and calls again with the result in `released`.
pub fn cooperative_cancel(
    order: &mut Order,
    sender: PubKey,
    request_id: Option<u64>,
    released: Option<bool>,
) -> (r: Result<Vec<Effect>, Fault>)
    ensures
        came_to(
            *final(order),
            r,
            cooperative_cancel_outcome(*old(order), sender, request_id, released),
        ),
        old(order).wf() ==> final(order).wf(),
{
    if !order.status.is_live() || !order.is_participant(sender) {
        return Ok(Vec::new());
    }
    let seller = match order.seller_pubkey {
        Some(seller) => seller,
        None => { return Err(Fault::MissingSellerPubkey); },
    };
    let buyer = match order.buyer_pubkey {
        Some(buyer) => buyer,
        None => { return Err(Fault::MissingBuyerPubkey); },
    };
    let by_buyer = order.is_buyer(sender);
    let peer = if by_buyer { seller } else { buyer };
    match order.cancel_initiator_pubkey {
        None => {
            order.cancel_initiator_pubkey = Some(sender);
            if by_buyer {
                order.buyer_cooperativecancel = true;
            } else {
                order.seller_cooperativecancel = true;
            }
            let mut effects: Vec<Effect> = Vec::new();
            effects.push(
                Effect::Notify {
                    to: sender,
                    notice: Notice::CooperativeCancelInitiatedByYou,
                    request_id,
                },
            );
            effects.push(
                Effect::Notify {
                    to: peer,
                    notice: Notice::CooperativeCancelInitiatedByPeer,
                    request_id: None,
                },
            );
            assert(effects@ =~= seq![
                answer(sender, Notice::CooperativeCancelInitiatedByYou, request_id),
                tell(peer, Notice::CooperativeCancelInitiatedByPeer),
            ]);
            Ok(effects)
        },
        Some(initiator) => {
            if initiator == sender {
                return Ok(refusal(sender, None, request_id, order.id));
            }
            if let Some(stop) = check_escrow(order, released) {
                return stop;
            }
            if by_buyer {
                order.buyer_cooperativecancel = true;
            } else {
                order.seller_cooperativecancel = true;
            }
            order.status = Status::CooperativelyCanceled;
            let mut effects = published_answer(
                sender,
                Notice::CooperativeCancelAccepted,
                request_id,
            );
            effects.push(
                Effect::Notify {
                    to: peer,
                    notice: Notice::CooperativeCancelAccepted,
                    request_id: None,
                },
            );
            assert(effects@ =~= seq![
                Effect::PublishOrder,
                answer(sender, Notice::CooperativeCancelAccepted, request_id),
                tell(peer, Notice::CooperativeCancelAccepted),
            ]);
            Ok(effects)
        },
    }
}

/// Handles a `Cancel` request. See `cancel_outcome`.
///
/// While the result is the single effect `CancelHoldInvoice`, the caller has
/// the hold invoice cancelled and calls again with the result in `released`:
/// after a cancelling that failed the request ends in a fault and the order
/// stays as it is.
pub fn cancel_action(
    order: &mut Order,
    sender: PubKey,
    request_id: Option<u64>,
    released: Option<bool>,
) -> (r: Result<Vec<Effect>, Fault>)
    ensures
        came_to(*final(order), r, cancel_outcome(*old(order), sender, request_id, released)),
        old(order).wf() ==> final(order).wf(),
{
    if !order.is_participant(sender) {
        return Ok(Vec::new());
    }
    if order.status.is_canceled() {
        return Ok(
            refusal(sender, Some(CantDoReason::OrderAlreadyCanceled), request_id, order.id),
        );
    }
    if order.status == Status::Pending {
        if !order.is_creator(sender) {
            return Ok(refusal(sender, Some(CantDoReason::IsNotYourOrder), request_id, order.id));
        }
        order.status = Status::Canceled;
        return Ok(published_answer(sender, Notice::Canceled, request_id));
    }
    if order.kind == Kind::Sell && order.status == Status::WaitingBuyerInvoice {
        return cancel_add_invoice(order, sender, request_id, released);
    }
    if order.kind == Kind::Buy && order.status == Status::WaitingPayment {
        return cancel_pay_hold_invoice(order, sender, request_id, released);
    }
    cooperative_cancel(order, sender, request_id, released)
}

} // verus!
