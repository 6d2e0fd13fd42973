//! What a handler asks the world to do, and how it reports back.

use vstd::prelude::*;
use crate::order::PubKey;

verus! {

/// Why a request cannot be done, as told to its sender.
#[derive(Clone, Copy, Debug, PartialEq, Eq, Structural, Hash)]
pub enum CantDoReason {
    InvalidAmount,
    InvalidParameters,
    IsNotYourOrder,
    OrderAlreadyCanceled,
    OutOfRangeSatsAmount,
    OutOfRangeFiatAmount,
    NotAuthorized,
    PendingOrderExists,
}

/// What a direct notification tells its recipient.
#[derive(Clone, Copy, Debug, PartialEq, Eq, Structural, Hash)]
pub enum Notice {
    /// The order was published.
    NewOrder,
    Canceled,
    CooperativeCancelInitiatedByYou,
    CooperativeCancelInitiatedByPeer,
    CooperativeCancelAccepted,
    AddInvoice,
    PayInvoice,
    WaitingSellerToPay,
    BuyerTookOrder,
    HoldInvoicePaymentAccepted,
    FiatSentOk,
    Released,
    HoldInvoicePaymentSettled,
    PurchaseCompleted,
    PaymentFailed,
    DisputeInitiatedByYou,
    DisputeInitiatedByPeer,
    AdminCanceled,
    AdminSettled,
    AdminTookDispute,
    AdminAddSolver,
    RateReceived,
    Expired,
}

/// One thing for the caller to carry out. Effects come in the order in which
/// they are to be performed.
#[derive(Clone, Copy, Debug, PartialEq, Eq, Hash)]
pub enum Effect {
    /// Issue the seller's hold invoice for the order, then hand the request
    /// back to its handler together with the invoice's hash. Nothing has
    /// changed yet.
    IssueHoldInvoice,
    /// Settle the order's hold invoice, then hand the request back to its
    /// handler together with the preimage. Nothing has changed yet.
    SettleHoldInvoice,
    /// Cancel the order's hold invoice, which returns the funds to the seller,
    /// then hand the request back to its handler together with whether that
    /// was done. Nothing has changed yet.
    CancelHoldInvoice,
    /// Pay the buyer's invoice.
    PayBuyerInvoice,
    /// Publish a new version of the order's public event and keep its id.
    PublishOrder,
    /// Publish the notice that a dispute has been opened.
    PublishDispute,
    /// Send a direct notification. `request_id` echoes the request that caused
    /// it and is set only towards the sender of that request.
    Notify { to: PubKey, notice: Notice, request_id: Option<u64> },
    /// Tell the sender that the request cannot be done. A missing reason
    /// stands for a request that is simply not open to the sender now.
    CantDo { to: PubKey, reason: Option<CantDoReason>, request_id: Option<u64>, order_id: Option<u128> },
}

/// A request that could not be judged at all. It is logged and dropped; its
/// sender is told nothing.
#[derive(Clone, Copy, Debug, PartialEq, Eq, Structural, Hash)]
pub enum Fault {
    /// The message names no order.
    NoOrderId,
    /// The order lacks the seller's key where one is needed.
    MissingSellerPubkey,
    /// The order lacks the buyer's key where one is needed.
    MissingBuyerPubkey,
    /// The price of the order is open and the oracle gave none.
    NoPrice,
    /// The hold invoice of the order could not be cancelled.
    HoldInvoiceNotCancelled,
}

/// What a handler returns, over plain values.
pub open spec fn view_of(r: Result<Vec<Effect>, Fault>) -> Result<Seq<Effect>, Fault> {
    match r {
        Ok(effects) => Ok(effects@),
        Err(fault) => Err(fault),
    }
}

/// The notification to `to` without a request id.
pub open spec fn tell(to: PubKey, notice: Notice) -> Effect {
    Effect::Notify { to, notice, request_id: None }
}

/// The notification that answers the request `request_id` of `to`.
pub open spec fn answer(to: PubKey, notice: Notice, request_id: Option<u64>) -> Effect {
    Effect::Notify { to, notice, request_id }
}

/// The refusal sent to `to` about the order `order_id`.
pub open spec fn refuse(
    to: PubKey,
    reason: Option<CantDoReason>,
    request_id: Option<u64>,
    order_id: u128,
) -> Effect {
    Effect::CantDo { to, reason, request_id, order_id: Some(order_id) }
}

} // verus!
