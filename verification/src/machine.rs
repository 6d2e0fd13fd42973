//! The order state machine as one function: every request and every report
//! that bears on an order, routed to its handler.

use vstd::prelude::*;
use crate::cancel::{cancel_action, cancel_outcome, Outcome};
use crate::dispute::{
    admin_cancel_action, admin_cancel_ruling, admin_settle_action, admin_settle_ruling,
    admin_take_dispute_action, admin_take_dispute_ruling, dispute_action, dispute_ruling, ruled,
    Dispute, Ruling, SolverRegistry,
};
use crate::effect::{Effect, Fault};
use crate::new_order::Limits;
use crate::order::{Bits256, Order, PubKey};
use crate::trade::{
    add_invoice_action, add_invoice_outcome, fiat_sent_action, fiat_sent_outcome,
    hold_invoice_accepted, hold_invoice_accepted_outcome, hold_invoice_expired,
    hold_invoice_expired_outcome, payment_outcome, payment_result, release_action,
    release_outcome, take_buy_action, take_buy_outcome, take_sell_action, take_sell_outcome,
    Taker,
};

verus! {

/// Something that happens to an order: a request of a party or an admin, or
/// a report of the Lightning backend. A request carries its sender, the id
/// that the sender gave it, and what the caller has gathered for it.
#[derive(Clone, Debug, PartialEq, Eq)]
pub enum Input {
    TakeSell { sender: PubKey, request_id: Option<u64>, taker: Taker },
    TakeBuy { sender: PubKey, request_id: Option<u64>, taker: Taker },
    AddInvoice {
        sender: PubKey,
        request_id: Option<u64>,
        invoice: String,
        invoice_valid: bool,
        hold: Option<Bits256>,
    },
    /// The seller's payment of the hold invoice was accepted.
    HoldInvoiceAccepted,
    /// The hold invoice ran out.
    HoldInvoiceExpired,
    FiatSent { sender: PubKey, request_id: Option<u64> },
    Release { sender: PubKey, request_id: Option<u64>, settled: Option<Bits256> },
    /// The payment of the buyer's invoice succeeded or failed.
    PaymentResult { succeeded: bool },
    /// `released` says how the cancelling of the hold invoice went, once the
    /// caller has tried.
    Cancel { sender: PubKey, request_id: Option<u64>, released: Option<bool> },
    Dispute { sender: PubKey, request_id: Option<u64>, dispute_id: u128, now: u64 },
    AdminTakeDispute { sender: PubKey, request_id: Option<u64> },
    AdminSettle { sender: PubKey, request_id: Option<u64>, settled: Option<Bits256> },
    AdminCancel { sender: PubKey, request_id: Option<u64>, released: Option<bool> },
}

/// What is in force while an event is handled: the admin, the registered
/// solvers, and the limits on amounts.
pub struct Rules {
    pub admin: PubKey,
    pub solvers: Set<PubKey>,
    pub limits: Limits,
}

/// An outcome that leaves the dispute as it is.
pub open spec fn beside(outcome: Outcome, dispute: Option<Dispute>) -> Ruling {
    Ruling { order: outcome.order, dispute, result: outcome.result }
}

/// One step of the state machine: what `event` makes of an order and its
/// dispute under `rules`. Each kind of event follows its handler.
pub open spec fn step(order: Order, dispute: Option<Dispute>, rules: Rules, event: Input) -> Ruling {
    match event {
        Input::TakeSell { sender, request_id, taker } => beside(
            take_sell_outcome(order, sender, request_id, taker, rules.limits),
            dispute,
        ),
        Input::TakeBuy { sender, request_id, taker } => beside(
            take_buy_outcome(order, sender, request_id, taker, rules.limits),
            dispute,
        ),
        Input::AddInvoice { sender, request_id, invoice, invoice_valid, hold } => beside(
            add_invoice_outcome(order, sender, request_id, invoice, invoice_valid, hold),
            dispute,
        ),
        Input::HoldInvoiceAccepted => beside(hold_invoice_accepted_outcome(order), dispute),
        Input::HoldInvoiceExpired => beside(hold_invoice_expired_outcome(order), dispute),
        Input::FiatSent { sender, request_id } => beside(
            fiat_sent_outcome(order, sender, request_id),
            dispute,
        ),
        Input::Release { sender, request_id, settled } => beside(
            release_outcome(order, sender, request_id, settled),
            dispute,
        ),
        Input::PaymentResult { succeeded } => beside(payment_outcome(order, succeeded), dispute),
        Input::Cancel { sender, request_id, released } => beside(
            cancel_outcome(order, sender, request_id, released),
            dispute,
        ),
        Input::Dispute { sender, request_id, dispute_id, now } => dispute_ruling(
            order,
            dispute,
            sender,
            request_id,
            dispute_id,
            now,
        ),
        Input::AdminTakeDispute { sender, request_id } => admin_take_dispute_ruling(
            order,
            dispute,
            rules.solvers,
            sender,
            request_id,
        ),
        Input::AdminSettle { sender, request_id, settled } => admin_settle_ruling(
            order,
            dispute,
            rules.admin,
            sender,
            request_id,
            settled,
        ),
        Input::AdminCancel { sender, request_id, released } => admin_cancel_ruling(
            order,
            dispute,
            rules.admin,
            sender,
            request_id,
            released,
        ),
    }
}

/// The rules that a registry and the limits make.
pub open spec fn rules_of(registry: SolverRegistry, limits: Limits) -> Rules {
    Rules { admin: registry@.admin, solvers: registry@.solvers, limits }
}

/// Routes an event to its handler. See `step`.
///
/// The order and its dispute are changed in place; the effects are returned
/// in the order in which they are to be carried out. Where the result is the
/// single effect `IssueHoldInvoice`, `SettleHoldInvoice` or
/// `CancelHoldInvoice`, nothing has changed: the caller makes that call and
/// hands the event in again, with the reply filled in.
pub fn handle_message_action(
    order: &mut Order,
    dispute: &mut Option<Dispute>,
    registry: &SolverRegistry,
    limits: &Limits,
    event: Input,
) -> (r: Result<Vec<Effect>, Fault>)
    ensures
        ruled(
            *final(order),
            *final(dispute),
            r,
            step(*old(order), *old(dispute), rules_of(*registry, *limits), event),
        ),
        old(order).wf() ==> final(order).wf(),
{
    match event {
        Input::TakeSell { sender, request_id, taker } => take_sell_action(
            order,
            sender,
            request_id,
            taker,
            limits,
        ),
        Input::TakeBuy { sender, request_id, taker } => take_buy_action(
            order,
            sender,
            request_id,
            taker,
            limits,
        ),
        Input::AddInvoice { sender, request_id, invoice, invoice_valid, hold } => {
            add_invoice_action(order, sender, request_id, invoice, invoice_valid, hold)
        },
        Input::HoldInvoiceAccepted => hold_invoice_accepted(order),
        Input::HoldInvoiceExpired => hold_invoice_expired(order),
        Input::FiatSent { sender, request_id } => fiat_sent_action(order, sender, request_id),
        Input::Release { sender, request_id, settled } => release_action(
            order,
            sender,
            request_id,
            settled,
        ),
        Input::PaymentResult { succeeded } => payment_result(order, succeeded),
        Input::Cancel { sender, request_id, released } => cancel_action(
            order,
            sender,
            request_id,
            released,
        ),
        Input::Dispute { sender, request_id, dispute_id, now } => dispute_action(
            order,
            dispute,
            sender,
            request_id,
            dispute_id,
            now,
        ),
        Input::AdminTakeDispute { sender, request_id } => admin_take_dispute_action(
            order,
            dispute,
            registry,
            sender,
            request_id,
        ),
        Input::AdminSettle { sender, request_id, settled } => admin_settle_action(
            order,
            dispute,
            registry,
            sender,
            request_id,
            settled,
        ),
        Input::AdminCancel { sender, request_id, released } => admin_cancel_action(
            order,
            dispute,
            registry,
            sender,
            request_id,
            released,
        ),
    }
}

} // verus!
