//! The way of a trade from take to payout: taking an order, the buyer's
//! invoice, the seller's hold invoice, the fiat leg, release and payout.

use vstd::prelude::*;
use crate::cancel::{came_to, faulted, unchanged, Outcome};
use crate::effect::{answer, refuse, tell, CantDoReason, Effect, Fault, Notice};
use crate::new_order::{check_quote, quote_flaw, Limits};
use crate::order::{Bits256, Kind, Order, PubKey, Status};

verus! {

/// What the oracle's price makes of an order: its satoshi amount and the fee.
#[derive(Clone, Copy, Debug, PartialEq, Eq, Structural)]
pub struct Quote {
    pub amount: i64,
    pub fee: i64,
}

/// Who takes an order, and what the taker's request brought with it.
#[derive(Clone, Debug, PartialEq, Eq)]
pub struct Taker {
    /// The taker's long-lived identity.
    pub master: PubKey,
    /// The counter that the taker proved with the request.
    pub trade_index: Option<i64>,
    /// The payout invoice of a buyer who sent one along, and whether its
    /// shape is valid.
    pub invoice: Option<String>,
    pub invoice_valid: bool,
    /// The oracle's price for the order, where the caller asked for one.
    pub quote: Option<Quote>,
    /// The hash of the hold invoice, once the caller has had it issued.
    pub hold: Option<Bits256>,
}

/// The fixed-amount child that a take of `fiat_amount` makes of a range order.
pub open spec fn child_of(parent: Order, child_id: u128, fiat_amount: i64) -> Order {
    Order { id: child_id, fiat_amount, min_amount: None, max_amount: None, ..parent }
}

/// Why a range order cannot be taken for `fiat_amount`, if it cannot: it is
/// no pending range order, or the amount lies outside its bounds.
pub open spec fn range_flaw(parent: Order, fiat_amount: i64) -> Option<CantDoReason> {
    if !parent.spec_is_range() || parent.status != Status::Pending {
        Some(CantDoReason::InvalidParameters)
    } else if fiat_amount < parent.min_amount->0 || fiat_amount > parent.max_amount->0 {
        Some(CantDoReason::OutOfRangeFiatAmount)
    } else {
        None
    }
}

/// The order against which a take for `amount` goes on. An order without
/// range is taken itself (`None`). A range order is taken through a child
/// for the fiat amount that the taker names: without an amount, and with
/// one outside the bounds, the take is refused with `OutOfRangeFiatAmount`.
pub open spec fn take_targeted(order: Order, child_id: u128, amount: Option<i64>) -> Result<
    Option<Order>,
    CantDoReason,
> {
    if !order.spec_is_range() {
        Ok(None)
    } else if amount is None {
        Err(CantDoReason::OutOfRangeFiatAmount)
    } else if range_flaw(order, amount->0) is Some {
        Err(range_flaw(order, amount->0)->0)
    } else {
        Ok(Some(child_of(order, child_id, amount->0)))
    }
}

/// The order with the oracle's price filled in where its own price is open.
pub open spec fn priced(order: Order, quote: Option<Quote>) -> Order {
    if order.price_from_api && quote is Some {
        Order { amount: quote->0.amount, fee: quote->0.fee, ..order }
    } else {
        order
    }
}

/// Why a pending order of kind `kind` cannot be taken by `sender`, if it
/// cannot; `None` means that the take goes ahead.
///
/// In turn: the order is not a pending order of that kind (refused without a
/// reason); it is a range order, which is taken through its child; the taker
/// is the creator; an invoice came along that is not valid; the price is open
/// and the oracle gave none (a fault), or gave one outside the limits.
pub open spec fn take_flaw(
    order: Order,
    kind: Kind,
    sender: PubKey,
    request_id: Option<u64>,
    taker: Taker,
    limits: Limits,
) -> Option<Outcome> {
    if order.kind != kind || order.status != Status::Pending {
        Some(unchanged(order, seq![refuse(sender, None, request_id, order.id)]))
    } else if order.spec_is_range() {
        Some(
            unchanged(
                order,
                seq![refuse(sender, Some(CantDoReason::InvalidAmount), request_id, order.id)],
            ),
        )
    } else if order.spec_is_creator(sender) {
        Some(
            unchanged(
                order,
                seq![refuse(sender, Some(CantDoReason::NotAuthorized), request_id, order.id)],
            ),
        )
    } else if taker.invoice is Some && !taker.invoice_valid {
        Some(
            unchanged(
                order,
                seq![refuse(sender, Some(CantDoReason::InvalidAmount), request_id, order.id)],
            ),
        )
    } else if order.price_from_api && taker.quote is None {
        Some(faulted(order, Fault::NoPrice))
    } else if order.price_from_api && quote_flaw(taker.quote->0.amount, limits) is Some {
        Some(
            unchanged(
                order,
                seq![refuse(sender, quote_flaw(taker.quote->0.amount, limits), request_id, order.id)],
            ),
        )
    } else {
        None
    }
}

/// A `TakeSell` request from `sender` against a pending sell order.
///
/// Where the take goes ahead the taker becomes the buyer and an open price
/// is fixed. A buyer who sent no invoice is asked for one and the order waits
/// in `WaitingBuyerInvoice`. A buyer who sent one has the seller's hold
/// invoice issued: the order then waits in `WaitingPayment` and the seller is
/// asked to pay.
pub open spec fn take_sell_outcome(
    order: Order,
    sender: PubKey,
    request_id: Option<u64>,
    taker: Taker,
    limits: Limits,
) -> Outcome {
    let flaw = take_flaw(order, Kind::Sell, sender, request_id, taker, limits);
    if flaw is Some {
        flaw->0
    } else if taker.invoice is Some && taker.hold is None {
        unchanged(order, seq![Effect::IssueHoldInvoice])
    } else {
        let joined = Order {
            buyer_pubkey: Some(sender),
            master_buyer_pubkey: Some(taker.master),
            trade_index_buyer: taker.trade_index,
            ..priced(order, taker.quote)
        };
        if taker.invoice is Some {
            Outcome {
                order: Order {
                    status: Status::WaitingPayment,
                    buyer_invoice: taker.invoice,
                    hash: taker.hold,
                    ..joined
                },
                result: Ok(
                    seq![
                        Effect::PublishOrder,
                        tell(order.creator_pubkey, Notice::PayInvoice),
                        answer(sender, Notice::WaitingSellerToPay, request_id),
                    ],
                ),
            }
        } else {
            Outcome {
                order: Order { status: Status::WaitingBuyerInvoice, ..joined },
                result: Ok(
                    seq![Effect::PublishOrder, answer(sender, Notice::AddInvoice, request_id)],
                ),
            }
        }
    }
}

/// A `TakeBuy` request from `sender` against a pending buy order.
///
/// Where the take goes ahead the seller's hold invoice is issued, the taker
/// becomes the seller, an open price is fixed, and the order waits in
/// `WaitingPayment` for the seller to pay.
pub open spec fn take_buy_outcome(
    order: Order,
    sender: PubKey,
    request_id: Option<u64>,
    taker: Taker,
    limits: Limits,
) -> Outcome {
    let flaw = take_flaw(order, Kind::Buy, sender, request_id, taker, limits);
    if flaw is Some {
        flaw->0
    } else if taker.hold is None {
        unchanged(order, seq![Effect::IssueHoldInvoice])
    } else {
        Outcome {
            order: Order {
                status: Status::WaitingPayment,
                seller_pubkey: Some(sender),
                master_seller_pubkey: Some(taker.master),
                trade_index_seller: taker.trade_index,
                hash: taker.hold,
                ..priced(order, taker.quote)
            },
            result: Ok(
                seq![
                    Effect::PublishOrder,
                    answer(sender, Notice::PayInvoice, request_id),
                    tell(order.creator_pubkey, Notice::WaitingSellerToPay),
                ],
            ),
        }
    }
}

/// An `AddInvoice` request: the buyer of an order in `WaitingBuyerInvoice`
/// names where to be paid.
///
/// A stranger is told nothing. Outside `WaitingBuyerInvoice`, and from the
/// seller, the request is refused without a reason; an invalid invoice is
/// refused with `InvalidAmount`. Otherwise the seller's hold invoice is
/// issued, the order waits in `WaitingPayment` and the seller is asked to pay.
pub open spec fn add_invoice_outcome(
    order: Order,
    sender: PubKey,
    request_id: Option<u64>,
    invoice: String,
    invoice_valid: bool,
    hold: Option<Bits256>,
) -> Outcome {
    if !order.spec_is_participant(sender) {
        unchanged(order, Seq::empty())
    } else if order.status != Status::WaitingBuyerInvoice || !order.spec_is_buyer(sender) {
        unchanged(order, seq![refuse(sender, None, request_id, order.id)])
    } else if order.seller_pubkey is None {
        faulted(order, Fault::MissingSellerPubkey)
    } else if !invoice_valid {
        unchanged(
            order,
            seq![refuse(sender, Some(CantDoReason::InvalidAmount), request_id, order.id)],
        )
    } else if hold is None {
        unchanged(order, seq![Effect::IssueHoldInvoice])
    } else {
        Outcome {
            order: Order {
                status: Status::WaitingPayment,
                buyer_invoice: Some(invoice),
                hash: hold,
                ..order
            },
            result: Ok(
                seq![
                    Effect::PublishOrder,
                    tell(order.seller_pubkey->0, Notice::PayInvoice),
                    answer(sender, Notice::WaitingSellerToPay, request_id),
                ],
            ),
        }
    }
}

/// The Lightning backend reports that the seller's payment of the hold
/// invoice was accepted: an order in `WaitingPayment` becomes `Active` and
/// both parties are told. Any other order is left alone.
pub open spec fn hold_invoice_accepted_outcome(order: Order) -> Outcome {
    if order.status != Status::WaitingPayment || order.hash is None {
        unchanged(order, Seq::empty())
    } else if order.seller_pubkey is None {
        faulted(order, Fault::MissingSellerPubkey)
    } else if order.buyer_pubkey is None {
        faulted(order, Fault::MissingBuyerPubkey)
    } else {
        Outcome {
            order: Order { status: Status::Active, ..order },
            result: Ok(
                seq![
                    Effect::PublishOrder,
                    tell(order.buyer_pubkey->0, Notice::HoldInvoicePaymentAccepted),
                    tell(order.seller_pubkey->0, Notice::BuyerTookOrder),
                ],
            ),
        }
    }
}

/// The Lightning backend reports that the hold invoice ran out before the
/// trade was settled: an order that waits for the payment or is under way
/// becomes `Expired` and both parties are told. Any other order is left alone.
pub open spec fn hold_invoice_expired_outcome(order: Order) -> Outcome {
    if order.hash is None || !(order.status == Status::WaitingPayment || order.status
        == Status::Active || order.status == Status::FiatSent) {
        unchanged(order, Seq::empty())
    } else if order.seller_pubkey is None {
        faulted(order, Fault::MissingSellerPubkey)
    } else if order.buyer_pubkey is None {
        faulted(order, Fault::MissingBuyerPubkey)
    } else {
        Outcome {
            order: Order { status: Status::Expired, ..order },
            result: Ok(
                seq![
                    Effect::PublishOrder,
                    tell(order.buyer_pubkey->0, Notice::Expired),
                    tell(order.seller_pubkey->0, Notice::Expired),
                ],
            ),
        }
    }
}

/// A `FiatSent` request: the buyer of an active trade says that the fiat is
/// on its way.
///
/// A stranger is told nothing. The buyer repeating the request once the order
/// is in `FiatSent` changes nothing and tells no one. Outside `Active`, and
/// from the seller, the request is refused without a reason. Otherwise the
/// order becomes `FiatSent` and both parties are told.
pub open spec fn fiat_sent_outcome(order: Order, sender: PubKey, request_id: Option<u64>) -> Outcome {
    if !order.spec_is_participant(sender) {
        unchanged(order, Seq::empty())
    } else if order.status == Status::FiatSent && order.spec_is_buyer(sender) {
        unchanged(order, Seq::empty())
    } else if order.status != Status::Active || !order.spec_is_buyer(sender) {
        unchanged(order, seq![refuse(sender, None, request_id, order.id)])
    } else if order.seller_pubkey is None {
        faulted(order, Fault::MissingSellerPubkey)
    } else {
        Outcome {
            order: Order { status: Status::FiatSent, ..order },
            result: Ok(
                seq![
                    Effect::PublishOrder,
                    answer(sender, Notice::FiatSentOk, request_id),
                    tell(order.seller_pubkey->0, Notice::FiatSentOk),
                ],
            ),
        }
    }
}

/// True when a `Release` from `sender` is in order: the trade is in
/// `FiatSent`, the sender is its seller, and both the hold invoice and the
/// buyer's invoice are known.
pub open spec fn release_ready(order: Order, sender: PubKey) -> bool {
    &&& order.status == Status::FiatSent
    &&& order.spec_is_seller(sender)
    &&& order.buyer_pubkey is Some
    &&& order.hash is Some
    &&& order.buyer_invoice is Some
}

/// A `Release` request: the seller frees the escrow.
///
/// A stranger is told nothing; a release that is not in order is refused
/// without a reason. A release in order first has the hold invoice settled;
/// handed the preimage, it records it, moves the order to `Settled`, tells
/// both parties and has the buyer's invoice paid.
pub open spec fn release_outcome(
    order: Order,
    sender: PubKey,
    request_id: Option<u64>,
    settled: Option<Bits256>,
) -> Outcome {
    if !order.spec_is_participant(sender) {
        unchanged(order, Seq::empty())
    } else if !release_ready(order, sender) {
        unchanged(order, seq![refuse(sender, None, request_id, order.id)])
    } else if settled is None {
        unchanged(order, seq![Effect::SettleHoldInvoice])
    } else {
        Outcome {
            order: Order { status: Status::Settled, preimage: settled, ..order },
            result: Ok(
                seq![
                    Effect::PublishOrder,
                    answer(sender, Notice::Released, request_id),
                    tell(order.buyer_pubkey->0, Notice::HoldInvoicePaymentSettled),
                    Effect::PayBuyerInvoice,
                ],
            ),
        }
    }
}

/// The Lightning backend reports how the payment of the buyer's invoice went.
///
/// On a settled order a payment that succeeded completes the trade; one that
/// failed leaves the order `Settled`, so that the funds stay recoverable, and
/// the buyer is told. The report changes no other order; after a settlement
/// by an admin a failure is still told to the buyer.
pub open spec fn payment_outcome(order: Order, succeeded: bool) -> Outcome {
    if !(order.status == Status::Settled || order.status == Status::SettledByAdmin) {
        unchanged(order, Seq::empty())
    } else if order.buyer_pubkey is None {
        faulted(order, Fault::MissingBuyerPubkey)
    } else if !succeeded {
        unchanged(order, seq![tell(order.buyer_pubkey->0, Notice::PaymentFailed)])
    } else if order.status == Status::SettledByAdmin {
        unchanged(order, Seq::empty())
    } else {
        Outcome {
            order: Order { status: Status::Completed, ..order },
            result: Ok(
                seq![
                    Effect::PublishOrder,
                    tell(order.buyer_pubkey->0, Notice::PurchaseCompleted),
                ],
            ),
        }
    }
}

/// True of an order whose hold invoice is still undecided: it has been
/// issued, and the order is neither settled nor cancelled nor expired. After
/// a restart these are the orders whose hold invoices are watched again.
pub open spec fn escrow_open(order: Order) -> bool {
    order.hash is Some && !order.status.spec_is_closed() && order.status != Status::Pending
        && order.status != Status::WaitingBuyerInvoice
}

/// Whether the hold invoice of the order is to be watched. See `escrow_open`.
pub fn awaits_escrow(order: &Order) -> (r: bool)
    ensures
        r == escrow_open(*order),
{
    order.hash.is_some() && !order.status.is_closed() && order.status != Status::Pending
        && order.status != Status::WaitingBuyerInvoice
}

/// A copy of an optional text.
fn copy_text(text: &Option<String>) -> (r: Option<String>)
    ensures
        r == *text,
{
    match text {
        Some(t) => Some(t.clone()),
        None => None,
    }
}

/// Makes the fixed-amount child through which a range order is taken for
/// `fiat_amount`. The range order itself stays as it is; the take then goes
/// on against the child.
pub fn range_child(parent: &Order, child_id: u128, fiat_amount: i64) -> (r: Result<
    Order,
    CantDoReason,
>)
    ensures
        match r {
            Ok(child) => range_flaw(*parent, fiat_amount) is None && child == child_of(
                *parent,
                child_id,
                fiat_amount,
            ),
            Err(reason) => range_flaw(*parent, fiat_amount) == Some(reason),
        },
        r matches Ok(child) ==> (parent.wf() ==> child.wf()),
{
    if !parent.is_range() || parent.status != Status::Pending {
        return Err(CantDoReason::InvalidParameters);
    }
    if fiat_amount < parent.min_amount.unwrap() || fiat_amount > parent.max_amount.unwrap() {
        return Err(CantDoReason::OutOfRangeFiatAmount);
    }
    Ok(
        Order {
            id: child_id,
            kind: parent.kind,
            status: parent.status,
            creator_pubkey: parent.creator_pubkey,
            buyer_pubkey: parent.buyer_pubkey,
            seller_pubkey: parent.seller_pubkey,
            master_buyer_pubkey: parent.master_buyer_pubkey,
            master_seller_pubkey: parent.master_seller_pubkey,
            fiat_code: parent.fiat_code.clone(),
            fiat_amount,
            min_amount: None,
            max_amount: None,
            amount: parent.amount,
            fee: parent.fee,
            premium: parent.premium,
            payment_method: parent.payment_method.clone(),
            price_from_api: parent.price_from_api,
            hash: parent.hash,
            preimage: parent.preimage,
            buyer_invoice: copy_text(&parent.buyer_invoice),
            cancel_initiator_pubkey: parent.cancel_initiator_pubkey,
            buyer_cooperativecancel: parent.buyer_cooperativecancel,
            seller_cooperativecancel: parent.seller_cooperativecancel,
            trade_index_buyer: parent.trade_index_buyer,
            trade_index_seller: parent.trade_index_seller,
            event_id: parent.event_id,
            buyer_sent_rate: parent.buyer_sent_rate,
            seller_sent_rate: parent.seller_sent_rate,
        },
    )
}

/// Finds the order against which a take goes on. See `take_targeted`. The
/// child of a well-formed range order is well-formed.
pub fn take_target(order: &Order, child_id: u128, amount: Option<i64>) -> (r: Result<
    Option<Order>,
    CantDoReason,
>)
    ensures
        r == take_targeted(*order, child_id, amount),
        r matches Ok(Some(child)) ==> (order.wf() ==> child.wf()),
{
    if !order.is_range() {
        return Ok(None);
    }
    match amount {
        None => Err(CantDoReason::OutOfRangeFiatAmount),
        Some(fiat_amount) => match range_child(order, child_id, fiat_amount) {
            Ok(child) => Ok(Some(child)),
            Err(reason) => Err(reason),
        },
    }
}

/// The one refusal of `sender`'s request about `order`.
fn refusal(order: &Order, sender: PubKey, reason: Option<CantDoReason>, request_id: Option<u64>) -> (r:
    Result<Vec<Effect>, Fault>)
    ensures
        came_to(*order, r, unchanged(*order, seq![refuse(sender, reason, request_id, order.id)])),
{
    let mut effects: Vec<Effect> = Vec::new();
    effects.push(Effect::CantDo { to: sender, reason, request_id, order_id: Some(order.id) });
    Ok(effects)
}

/// The one effect `effect`, with the order left alone.
fn only(order: &Order, effect: Effect) -> (r: Result<Vec<Effect>, Fault>)
    ensures
        came_to(*order, r, unchanged(*order, seq![effect])),
{
    let mut effects: Vec<Effect> = Vec::new();
    effects.push(effect);
    Ok(effects)
}

/// Nothing to do, with the order left alone.
fn nothing(order: &Order) -> (r: Result<Vec<Effect>, Fault>)
    ensures
        came_to(*order, r, unchanged(*order, Seq::empty())),
{
    Ok(Vec::new())
}

/// Checks whether a take can go ahead. See `take_flaw`.
fn check_take(
    order: &Order,
    kind: Kind,
    sender: PubKey,
    request_id: Option<u64>,
    taker: &Taker,
    limits: &Limits,
) -> (r: Option<Result<Vec<Effect>, Fault>>)
    ensures
        match r {
            Some(found) => take_flaw(*order, kind, sender, request_id, *taker, *limits) is Some
                && came_to(
                *order,
                found,
                take_flaw(*order, kind, sender, request_id, *taker, *limits)->0,
            ),
            None => take_flaw(*order, kind, sender, request_id, *taker, *limits) is None,
        },
{
    if order.kind != kind || order.status != Status::Pending {
        return Some(refusal(order, sender, None, request_id));
    }
    if order.is_range() {
        return Some(refusal(order, sender, Some(CantDoReason::InvalidAmount), request_id));
    }
    if order.is_creator(sender) {
        return Some(refusal(order, sender, Some(CantDoReason::NotAuthorized), request_id));
    }
    if taker.invoice.is_some() && !taker.invoice_valid {
        return Some(refusal(order, sender, Some(CantDoReason::InvalidAmount), request_id));
    }
    if order.price_from_api {
        match taker.quote {
            None => { return Some(Err(Fault::NoPrice)); },
            Some(quote) => {
                let flaw = check_quote(quote.amount, limits);
                if flaw.is_some() {
                    return Some(refusal(order, sender, flaw, request_id));
                }
            },
        }
    }
    None
}

/// Fixes an open price. See `priced`.
fn fix_price(order: &mut Order, quote: Option<Quote>)
    ensures
        *final(order) == priced(*old(order), quote),
{
    if order.price_from_api {
        if let Some(q) = quote {
            order.amount = q.amount;
            order.fee = q.fee;
        }
    }
}

/// Handles a `TakeSell` request. See `take_sell_outcome`.
///
/// While the result is the single effect `IssueHoldInvoice`, the caller has
/// the hold invoice issued and calls again with its hash in `taker.hold`.
pub fn take_sell_action(
    order: &mut Order,
    sender: PubKey,
    request_id: Option<u64>,
    taker: Taker,
    limits: &Limits,
) -> (r: Result<Vec<Effect>, Fault>)
    ensures
        came_to(*final(order), r, take_sell_outcome(*old(order), sender, request_id, taker, *limits)),
        old(order).wf() ==> final(order).wf(),
{
    if let Some(found) = check_take(order, Kind::Sell, sender, request_id, &taker, limits) {
        return found;
    }
    if taker.invoice.is_some() && taker.hold.is_none() {
        return only(order, Effect::IssueHoldInvoice);
    }
    let maker = order.creator_pubkey;
    fix_price(order, taker.quote);
    order.buyer_pubkey = Some(sender);
    order.master_buyer_pubkey = Some(taker.master);
    order.trade_index_buyer = taker.trade_index;
    let mut effects: Vec<Effect> = Vec::new();
    effects.push(Effect::PublishOrder);
    if taker.invoice.is_some() {
        order.status = Status::WaitingPayment;
        order.buyer_invoice = taker.invoice;
        order.hash = taker.hold;
        effects.push(Effect::Notify { to: maker, notice: Notice::PayInvoice, request_id: None });
        effects.push(
            Effect::Notify { to: sender, notice: Notice::WaitingSellerToPay, request_id },
        );
        assert(effects@ =~= seq![
            Effect::PublishOrder,
            tell(maker, Notice::PayInvoice),
            answer(sender, Notice::WaitingSellerToPay, request_id),
        ]);
    } else {
        order.status = Status::WaitingBuyerInvoice;
        effects.push(Effect::Notify { to: sender, notice: Notice::AddInvoice, request_id });
        assert(effects@ =~= seq![
            Effect::PublishOrder,
            answer(sender, Notice::AddInvoice, request_id),
        ]);
    }
    Ok(effects)
}

/// Handles a `TakeBuy` request. See `take_buy_outcome`.
///
/// While the result is the single effect `IssueHoldInvoice`, the caller has
/// the hold invoice issued and calls again with its hash in `taker.hold`.
pub fn take_buy_action(
    order: &mut Order,
    sender: PubKey,
    request_id: Option<u64>,
    taker: Taker,
    limits: &Limits,
) -> (r: Result<Vec<Effect>, Fault>)
    ensures
        came_to(*final(order), r, take_buy_outcome(*old(order), sender, request_id, taker, *limits)),
        old(order).wf() ==> final(order).wf(),
{
    if let Some(found) = check_take(order, Kind::Buy, sender, request_id, &taker, limits) {
        return found;
    }
    if taker.hold.is_none() {
        return only(order, Effect::IssueHoldInvoice);
    }
    let maker = order.creator_pubkey;
    fix_price(order, taker.quote);
    order.status = Status::WaitingPayment;
    order.seller_pubkey = Some(sender);
    order.master_seller_pubkey = Some(taker.master);
    order.trade_index_seller = taker.trade_index;
    order.hash = taker.hold;
    let mut effects: Vec<Effect> = Vec::new();
    effects.push(Effect::PublishOrder);
    effects.push(Effect::Notify { to: sender, notice: Notice::PayInvoice, request_id });
    effects.push(
        Effect::Notify { to: maker, notice: Notice::WaitingSellerToPay, request_id: None },
    );
    assert(effects@ =~= seq![
        Effect::PublishOrder,
        answer(sender, Notice::PayInvoice, request_id),
        tell(maker, Notice::WaitingSellerToPay),
    ]);
    Ok(effects)
}

/// Handles an `AddInvoice` request. See `add_invoice_outcome`.
///
/// While the result is the single effect `IssueHoldInvoice`, the caller has
/// the hold invoice issued and calls again with its hash in `hold`.
pub fn add_invoice_action(
    order: &mut Order,
    sender: PubKey,
    request_id: Option<u64>,
    invoice: String,
    invoice_valid: bool,
    hold: Option<Bits256>,
) -> (r: Result<Vec<Effect>, Fault>)
    ensures
        came_to(
            *final(order),
            r,
            add_invoice_outcome(*old(order), sender, request_id, invoice, invoice_valid, hold),
        ),
        old(order).wf() ==> final(order).wf(),
{
    if !order.is_participant(sender) {
        return nothing(order);
    }
    if order.status != Status::WaitingBuyerInvoice || !order.is_buyer(sender) {
        return refusal(order, sender, None, request_id);
    }
    let seller = match order.seller_pubkey {
        Some(seller) => seller,
        None => { return Err(Fault::MissingSellerPubkey); },
    };
    if !invoice_valid {
        return refusal(order, sender, Some(CantDoReason::InvalidAmount), request_id);
    }
    if hold.is_none() {
        return only(order, Effect::IssueHoldInvoice);
    }
    order.status = Status::WaitingPayment;
    order.buyer_invoice = Some(invoice);
    order.hash = hold;
    let mut effects: Vec<Effect> = Vec::new();
    effects.push(Effect::PublishOrder);
    effects.push(Effect::Notify { to: seller, notice: Notice::PayInvoice, request_id: None });
    effects.push(Effect::Notify { to: sender, notice: Notice::WaitingSellerToPay, request_id });
    assert(effects@ =~= seq![
        Effect::PublishOrder,
        tell(seller, Notice::PayInvoice),
        answer(sender, Notice::WaitingSellerToPay, request_id),
    ]);
    Ok(effects)
}

/// Both parties are told `notice` after the order's public event.
fn publish_and_tell_both(buyer: PubKey, buyer_notice: Notice, seller: PubKey, seller_notice: Notice) -> (effects:
    Vec<Effect>)
    ensures
        effects@ == seq![Effect::PublishOrder, tell(buyer, buyer_notice), tell(seller, seller_notice)],
{
    let mut effects: Vec<Effect> = Vec::new();
    effects.push(Effect::PublishOrder);
    effects.push(Effect::Notify { to: buyer, notice: buyer_notice, request_id: None });
    effects.push(Effect::Notify { to: seller, notice: seller_notice, request_id: None });
    assert(effects@ =~= seq![
        Effect::PublishOrder,
        tell(buyer, buyer_notice),
        tell(seller, seller_notice),
    ]);
    effects
}

/// Takes in the report that the hold invoice was paid. See
/// `hold_invoice_accepted_outcome`.
pub fn hold_invoice_accepted(order: &mut Order) -> (r: Result<Vec<Effect>, Fault>)
    ensures
        came_to(*final(order), r, hold_invoice_accepted_outcome(*old(order))),
        old(order).wf() ==> final(order).wf(),
{
    if order.status != Status::WaitingPayment || order.hash.is_none() {
        return nothing(order);
    }
    let seller = match order.seller_pubkey {
        Some(seller) => seller,
        None => { return Err(Fault::MissingSellerPubkey); },
    };
    let buyer = match order.buyer_pubkey {
        Some(buyer) => buyer,
        None => { return Err(Fault::MissingBuyerPubkey); },
    };
    order.status = Status::Active;
    Ok(
        publish_and_tell_both(
            buyer,
            Notice::HoldInvoicePaymentAccepted,
            seller,
            Notice::BuyerTookOrder,
        ),
    )
}

/// Takes in the report that the hold invoice ran out. See
/// `hold_invoice_expired_outcome`.
pub fn hold_invoice_expired(order: &mut Order) -> (r: Result<Vec<Effect>, Fault>)
    ensures
        came_to(*final(order), r, hold_invoice_expired_outcome(*old(order))),
        old(order).wf() ==> final(order).wf(),
{
    let waiting = match order.status {
        Status::WaitingPayment | Status::Active | Status::FiatSent => true,
        _ => false,
    };
    if order.hash.is_none() || !waiting {
        return nothing(order);
    }
    let seller = match order.seller_pubkey {
        Some(seller) => seller,
        None => { return Err(Fault::MissingSellerPubkey); },
    };
    let buyer = match order.buyer_pubkey {
        Some(buyer) => buyer,
        None => { return Err(Fault::MissingBuyerPubkey); },
    };
    order.status = Status::Expired;
    Ok(publish_and_tell_both(buyer, Notice::Expired, seller, Notice::Expired))
}

/// Handles a `FiatSent` request. See `fiat_sent_outcome`.
pub fn fiat_sent_action(order: &mut Order, sender: PubKey, request_id: Option<u64>) -> (r: Result<
    Vec<Effect>,
    Fault,
>)
    ensures
        came_to(*final(order), r, fiat_sent_outcome(*old(order), sender, request_id)),
        old(order).wf() ==> final(order).wf(),
{
    if !order.is_participant(sender) {
        return nothing(order);
    }
    let by_buyer = order.is_buyer(sender);
    if order.status == Status::FiatSent && by_buyer {
        return nothing(order);
    }
    if order.status != Status::Active || !by_buyer {
        return refusal(order, sender, None, request_id);
    }
    let seller = match order.seller_pubkey {
        Some(seller) => seller,
        None => { return Err(Fault::MissingSellerPubkey); },
    };
    order.status = Status::FiatSent;
    let mut effects: Vec<Effect> = Vec::new();
    effects.push(Effect::PublishOrder);
    effects.push(Effect::Notify { to: sender, notice: Notice::FiatSentOk, request_id });
    effects.push(Effect::Notify { to: seller, notice: Notice::FiatSentOk, request_id: None });
    assert(effects@ =~= seq![
        Effect::PublishOrder,
        answer(sender, Notice::FiatSentOk, request_id),
        tell(seller, Notice::FiatSentOk),
    ]);
    Ok(effects)
}

/// Handles a `Release` request. See `release_outcome`.
///
/// While the result is the single effect `SettleHoldInvoice`, the caller has
/// the hold invoice settled and calls again with the preimage in `settled`.
pub fn release_action(
    order: &mut Order,
    sender: PubKey,
    request_id: Option<u64>,
    settled: Option<Bits256>,
) -> (r: Result<Vec<Effect>, Fault>)
    ensures
        came_to(*final(order), r, release_outcome(*old(order), sender, request_id, settled)),
        old(order).wf() ==> final(order).wf(),
{
    if !order.is_participant(sender) {
        return nothing(order);
    }
    let buyer = match order.buyer_pubkey {
        Some(buyer) => buyer,
        None => { return refusal(order, sender, None, request_id); },
    };
    if order.status != Status::FiatSent || !order.is_seller(sender) || order.hash.is_none()
        || order.buyer_invoice.is_none() {
        return refusal(order, sender, None, request_id);
    }
    if settled.is_none() {
        return only(order, Effect::SettleHoldInvoice);
    }
    order.status = Status::Settled;
    order.preimage = settled;
    let mut effects: Vec<Effect> = Vec::new();
    effects.push(Effect::PublishOrder);
    effects.push(Effect::Notify { to: sender, notice: Notice::Released, request_id });
    effects.push(
        Effect::Notify { to: buyer, notice: Notice::HoldInvoicePaymentSettled, request_id: None },
    );
    effects.push(Effect::PayBuyerInvoice);
    assert(effects@ =~= seq![
        Effect::PublishOrder,
        answer(sender, Notice::Released, request_id),
        tell(buyer, Notice::HoldInvoicePaymentSettled),
        Effect::PayBuyerInvoice,
    ]);
    Ok(effects)
}

/// Takes in the report on the payment of the buyer's invoice. See
/// `payment_outcome`.
pub fn payment_result(order: &mut Order, succeeded: bool) -> (r: Result<Vec<Effect>, Fault>)
    ensures
        came_to(*final(order), r, payment_outcome(*old(order), succeeded)),
        old(order).wf() ==> final(order).wf(),
{
    let by_admin = order.status == Status::SettledByAdmin;
    if !(order.status == Status::Settled || by_admin) {
        return nothing(order);
    }
    let buyer = match order.buyer_pubkey {
        Some(buyer) => buyer,
        None => { return Err(Fault::MissingBuyerPubkey); },
    };
    if !succeeded {
        return only(
            order,
            Effect::Notify { to: buyer, notice: Notice::PaymentFailed, request_id: None },
        );
    }
    if by_admin {
        return nothing(order);
    }
    order.status = Status::Completed;
    let mut effects: Vec<Effect> = Vec::new();
    effects.push(Effect::PublishOrder);
    effects.push(
        Effect::Notify { to: buyer, notice: Notice::PurchaseCompleted, request_id: None },
    );
    assert(effects@ =~= seq![Effect::PublishOrder, tell(buyer, Notice::PurchaseCompleted)]);
    Ok(effects)
}

} // verus!
