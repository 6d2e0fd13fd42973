//! Admission of a new order: the checks on its amounts, the pricing of an
//! order with an open price against the configured limits, and the pending
//! order that comes of it.

use vstd::prelude::*;
use crate::effect::CantDoReason;
use crate::order::{Kind, Order, PubKey, Status};

verus! {

/// An order as its maker asks for it.
#[derive(Clone, Debug, PartialEq, Eq)]
pub struct NewOrder {
    /// Identifier chosen by the maker, if any; echoed in refusals.
    pub id: Option<u128>,
    /// Buy or sell; an order that does not say which is refused.
    pub kind: Option<Kind>,
    /// Satoshis; 0 asks for the price of the oracle at take time.
    pub amount: i64,
    pub fiat_code: String,
    pub min_amount: Option<i64>,
    pub max_amount: Option<i64>,
    pub fiat_amount: i64,
    pub payment_method: String,
    pub premium: i64,
    /// Where the maker of a buy order wants to be paid.
    pub buyer_invoice: Option<String>,
}

/// Configured bounds on the satoshi amount of an order.
#[derive(Clone, Copy, Debug, PartialEq, Eq, Structural)]
pub struct Limits {
    pub max_order_amount: i64,
    pub min_payment_amount: i64,
}

/// What to do with a new order.
#[derive(Clone, Copy, Debug, PartialEq, Eq, Structural)]
pub enum NewOrderVerdict {
    /// Tell the maker that the order cannot be done.
    Refuse { reason: CantDoReason, order_id: Option<u128> },
    /// Ask the oracle what `fiat_amount` is worth in satoshis, append the
    /// answer to the quotes and ask again.
    NeedQuote { fiat_amount: i64 },
    /// Drop the request without a word: it brought no order, or the oracle
    /// had no price.
    Drop,
    /// Publish the order as pending.
    Publish,
}

impl NewOrder {
    /// A range order names both bounds.
    pub open spec fn spec_is_range(&self) -> bool {
        self.min_amount is Some && self.max_amount is Some
    }

    /// The fiat amounts that have to be priced: both bounds of a range order,
    /// the fixed amount otherwise.
    pub open spec fn fiat_amounts(&self) -> Seq<i64> {
        if self.spec_is_range() {
            seq![self.min_amount->0, self.max_amount->0]
        } else {
            seq![self.fiat_amount]
        }
    }

    /// Why the order's own content rules it out, if it does. The checks come
    /// in this order, and the first that fails decides:
    ///
    /// 1. the bounds of a range are in order, `min < max` (`InvalidAmount`,
    ///    with the order's id);
    /// 2. a range order has no satoshi amount (`InvalidAmount`);
    /// 3. premium, fiat amount and satoshi amount are not all three given:
    ///    a premium goes with an open price only (`InvalidParameters`);
    /// 4. the order says whether it buys or sells (`InvalidParameters`, with
    ///    the order's id);
    /// 5. exactly one of a fixed fiat amount and a range is given: a range
    ///    order has no fiat amount of its own, any other order a positive
    ///    one (`InvalidAmount`).
    pub open spec fn flaw(&self) -> Option<NewOrderVerdict> {
        if self.spec_is_range() && self.min_amount->0 >= self.max_amount->0 {
            Some(NewOrderVerdict::Refuse { reason: CantDoReason::InvalidAmount, order_id: self.id })
        } else if self.spec_is_range() && self.amount != 0 {
            Some(NewOrderVerdict::Refuse { reason: CantDoReason::InvalidAmount, order_id: None })
        } else if self.premium != 0 && self.fiat_amount != 0 && self.amount != 0 {
            Some(
                NewOrderVerdict::Refuse { reason: CantDoReason::InvalidParameters, order_id: None },
            )
        } else if self.kind is None {
            Some(
                NewOrderVerdict::Refuse {
                    reason: CantDoReason::InvalidParameters,
                    order_id: self.id,
                },
            )
        } else if self.spec_is_range() && self.fiat_amount != 0 {
            Some(NewOrderVerdict::Refuse { reason: CantDoReason::InvalidAmount, order_id: None })
        } else if !self.spec_is_range() && self.fiat_amount <= 0 {
            Some(NewOrderVerdict::Refuse { reason: CantDoReason::InvalidAmount, order_id: None })
        } else {
            None
        }
    }

    #[verifier::when_used_as_spec(spec_is_range)]
    pub fn is_range(&self) -> (r: bool)
        ensures
            r == self.spec_is_range(),
    {
        self.min_amount.is_some() && self.max_amount.is_some()
    }
}

/// Why a satoshi amount is not acceptable, if it is not: negative, or outside
/// the configured limits.
pub open spec fn quote_flaw(quote: i64, limits: Limits) -> Option<CantDoReason> {
    if quote < 0 {
        Some(CantDoReason::InvalidAmount)
    } else if quote > limits.max_order_amount || quote < limits.min_payment_amount {
        Some(CantDoReason::OutOfRangeSatsAmount)
    } else {
        None
    }
}

/// The verdict on the fiat amounts from position `from` on. An order with a
/// fixed satoshi amount is judged by that amount; one with an open price by
/// the oracle's quote for each fiat amount in turn, `None` standing for an
/// oracle without a price.
pub open spec fn priced_from(
    order: NewOrder,
    quotes: Seq<Option<i64>>,
    limits: Limits,
    from: int,
) -> NewOrderVerdict
    decreases order.fiat_amounts().len() - from,
{
    let amounts = order.fiat_amounts();
    if from < 0 || from >= amounts.len() {
        NewOrderVerdict::Publish
    } else if order.amount != 0 {
        match quote_flaw(order.amount, limits) {
            Some(reason) => NewOrderVerdict::Refuse { reason, order_id: None },
            None => priced_from(order, quotes, limits, from + 1),
        }
    } else if from >= quotes.len() {
        NewOrderVerdict::NeedQuote { fiat_amount: amounts[from] }
    } else {
        match quotes[from] {
            None => NewOrderVerdict::Drop,
            Some(quote) => match quote_flaw(quote, limits) {
                Some(reason) => NewOrderVerdict::Refuse { reason, order_id: None },
                None => priced_from(order, quotes, limits, from + 1),
            },
        }
    }
}

/// The verdict on a request for a new order.
///
/// A request that brought no order is dropped. `invoice_valid` says whether
/// the payout invoice that came with the order, if one did, has a valid
/// shape. `quotes` holds the oracle's answers so far. An invalid invoice and
/// a flawed order are refused first; then the amounts are priced.
pub open spec fn new_order_verdict(
    request: Option<NewOrder>,
    invoice_valid: bool,
    quotes: Seq<Option<i64>>,
    limits: Limits,
) -> NewOrderVerdict {
    match request {
        None => NewOrderVerdict::Drop,
        Some(order) => order_verdict(order, invoice_valid, quotes, limits),
    }
}

/// The verdict on a new order. See `new_order_verdict`.
pub open spec fn order_verdict(
    order: NewOrder,
    invoice_valid: bool,
    quotes: Seq<Option<i64>>,
    limits: Limits,
) -> NewOrderVerdict {
    if order.buyer_invoice is Some && !invoice_valid {
        NewOrderVerdict::Refuse { reason: CantDoReason::InvalidAmount, order_id: order.id }
    } else if order.flaw() is Some {
        order.flaw()->0
    } else {
        priced_from(order, quotes, limits, 0)
    }
}

/// Judges one satoshi amount against the limits. See `quote_flaw`.
pub fn check_quote(quote: i64, limits: &Limits) -> (r: Option<CantDoReason>)
    ensures
        r == quote_flaw(quote, *limits),
{
    if quote < 0 {
        Some(CantDoReason::InvalidAmount)
    } else if quote > limits.max_order_amount || quote < limits.min_payment_amount {
        Some(CantDoReason::OutOfRangeSatsAmount)
    } else {
        None
    }
}

/// Checks the order's own content. See `NewOrder::flaw`.
fn check_figures(order: &NewOrder) -> (r: Option<NewOrderVerdict>)
    ensures
        r == order.flaw(),
{
    let range = order.is_range();
    if range {
        if order.min_amount.unwrap() >= order.max_amount.unwrap() {
            return Some(
                NewOrderVerdict::Refuse { reason: CantDoReason::InvalidAmount, order_id: order.id },
            );
        }
        if order.amount != 0 {
            return Some(
                NewOrderVerdict::Refuse { reason: CantDoReason::InvalidAmount, order_id: None },
            );
        }
    }
    if order.premium != 0 && order.fiat_amount != 0 && order.amount != 0 {
        return Some(
            NewOrderVerdict::Refuse { reason: CantDoReason::InvalidParameters, order_id: None },
        );
    }
    if order.kind.is_none() {
        return Some(
            NewOrderVerdict::Refuse { reason: CantDoReason::InvalidParameters, order_id: order.id },
        );
    }
    let fiat_in_order = if range { order.fiat_amount == 0 } else { order.fiat_amount > 0 };
    if !fiat_in_order {
        return Some(
            NewOrderVerdict::Refuse { reason: CantDoReason::InvalidAmount, order_id: None },
        );
    }
    None
}

/// The fiat amounts to price. See `NewOrder::fiat_amounts`.
fn amounts_to_price(order: &NewOrder) -> (amounts: Vec<i64>)
    ensures
        amounts@ == order.fiat_amounts(),
{
    let mut amounts: Vec<i64> = Vec::new();
    if order.is_range() {
        amounts.push(order.min_amount.unwrap());
        amounts.push(order.max_amount.unwrap());
        assert(amounts@ =~= seq![order.min_amount->0, order.max_amount->0]);
    } else {
        amounts.push(order.fiat_amount);
        assert(amounts@ =~= seq![order.fiat_amount]);
    }
    amounts
}

/// Handles a `NewOrder` request. See `new_order_verdict`.
///
/// The caller starts with no quotes and, as long as the verdict is
/// `NeedQuote`, asks the oracle, appends its answer and calls again.
pub fn order_action(
    request: &Option<NewOrder>,
    invoice_valid: bool,
    quotes: &Vec<Option<i64>>,
    limits: &Limits,
) -> (r: NewOrderVerdict)
    ensures
        r == new_order_verdict(*request, invoice_valid, quotes@, *limits),
{
    let order = match request {
        Some(order) => order,
        None => { return NewOrderVerdict::Drop; },
    };
    if order.buyer_invoice.is_some() && !invoice_valid {
        return NewOrderVerdict::Refuse {
            reason: CantDoReason::InvalidAmount,
            order_id: order.id,
        };
    }
    if let Some(verdict) = check_figures(order) {
        return verdict;
    }
    let amounts = amounts_to_price(order);
    let mut i: usize = 0;
    while i < amounts.len()
        invariant
            i <= amounts.len(),
            amounts@ == order.fiat_amounts(),
            *request == Some(*order),
            !(order.buyer_invoice is Some && !invoice_valid),
            order.flaw() is None,
            priced_from(*order, quotes@, *limits, 0) == priced_from(
                *order,
                quotes@,
                *limits,
                i as int,
            ),
        decreases amounts.len() - i,
    {
        let quote = if order.amount != 0 {
            order.amount
        } else if i >= quotes.len() {
            return NewOrderVerdict::NeedQuote { fiat_amount: amounts[i] };
        } else {
            match quotes[i] {
                Some(quote) => quote,
                None => { return NewOrderVerdict::Drop; },
            }
        };
        if let Some(reason) = check_quote(quote, limits) {
            return NewOrderVerdict::Refuse { reason, order_id: None };
        }
        i += 1;
    }
    NewOrderVerdict::Publish
}

/// The pending order that a new order of a known kind becomes, before
/// anyone takes it.
pub open spec fn pending_order(
    id: u128,
    new: NewOrder,
    creator: PubKey,
    master: PubKey,
    trade_index: Option<i64>,
    fee: i64,
) -> Order {
    let sell = new.kind == Some(Kind::Sell);
    Order {
        id,
        kind: new.kind->0,
        status: Status::Pending,
        creator_pubkey: creator,
        buyer_pubkey: if sell { None } else { Some(creator) },
        seller_pubkey: if sell { Some(creator) } else { None },
        master_buyer_pubkey: if sell { None } else { Some(master) },
        master_seller_pubkey: if sell { Some(master) } else { None },
        fiat_code: new.fiat_code,
        fiat_amount: new.fiat_amount,
        min_amount: new.min_amount,
        max_amount: new.max_amount,
        amount: new.amount,
        fee: if new.amount == 0 { 0 } else { fee },
        premium: new.premium,
        payment_method: new.payment_method,
        price_from_api: new.amount == 0,
        hash: None,
        preimage: None,
        buyer_invoice: new.buyer_invoice,
        cancel_initiator_pubkey: None,
        buyer_cooperativecancel: false,
        seller_cooperativecancel: false,
        trade_index_buyer: if sell { None } else { trade_index },
        trade_index_seller: if sell { trade_index } else { None },
        event_id: None,
        buyer_sent_rate: false,
        seller_sent_rate: false,
    }
}

/// Makes the pending order for an admitted new order; there is none for an
/// order that does not say whether it buys or sells. `creator` is the maker's
/// trading key, `master` the maker's long-lived identity, `fee` the fee on
/// the order's satoshi amount, which counts only where that amount is fixed.
/// An order without flaw gives a well-formed pending order.
pub fn publish_order(
    id: u128,
    new: NewOrder,
    creator: PubKey,
    master: PubKey,
    trade_index: Option<i64>,
    fee: i64,
) -> (order: Option<Order>)
    ensures
        order == match new.kind {
            Some(_) => Some(pending_order(id, new, creator, master, trade_index, fee)),
            None => None,
        },
        new.flaw() is None ==> order is Some && order->0.wf(),
{
    let kind = match new.kind {
        Some(kind) => kind,
        None => { return None; },
    };
    let sell = kind == Kind::Sell;
    let open_price = new.amount == 0;
    Some(
        Order {
            id,
            kind,
            status: Status::Pending,
            creator_pubkey: creator,
            buyer_pubkey: if sell { None } else { Some(creator) },
            seller_pubkey: if sell { Some(creator) } else { None },
            master_buyer_pubkey: if sell { None } else { Some(master) },
            master_seller_pubkey: if sell { Some(master) } else { None },
            fiat_code: new.fiat_code,
            fiat_amount: new.fiat_amount,
            min_amount: new.min_amount,
            max_amount: new.max_amount,
            amount: new.amount,
            fee: if open_price { 0 } else { fee },
            premium: new.premium,
            payment_method: new.payment_method,
            price_from_api: open_price,
            hash: None,
            preimage: None,
            buyer_invoice: new.buyer_invoice,
            cancel_initiator_pubkey: None,
            buyer_cooperativecancel: false,
            seller_cooperativecancel: false,
            trade_index_buyer: if sell { None } else { trade_index },
            trade_index_seller: if sell { trade_index } else { None },
            event_id: None,
            buyer_sent_rate: false,
            seller_sent_rate: false,
        },
    )
}

} // verus!
