//! What holds of the state machine over whole runs: every sequence of events
//! that an order can meet, under whatever rules are in force as each arrives.

use vstd::prelude::*;
use crate::cancel::{
    cancel_add_invoice_outcome, cancel_outcome, cancel_pay_hold_invoice_outcome,
    cooperative_cancel_outcome, unchanged,
};
use crate::dispute::{
    admin_cancel_ruling, admin_settle_ruling, admin_take_dispute_ruling, dispute_ruling, Dispute,
    Ruling,
};
use crate::effect::{Effect, Fault};
use crate::machine::{beside, step, Input, Rules};
use crate::new_order::Limits;
use crate::order::{Bits256, Order, PubKey, Status};
use crate::publish::snapshot_of;
use crate::trade::{
    add_invoice_outcome, fiat_sent_outcome, hold_invoice_accepted_outcome,
    hold_invoice_expired_outcome, payment_outcome, release_outcome, take_buy_outcome,
    take_sell_outcome, Taker,
};

verus! {

/// An event together with the rules in force when it is handled.
pub struct Arrival {
    pub rules: Rules,
    pub event: Input,
}

/// An order and its dispute, if it has one.
pub struct Desk {
    pub order: Order,
    pub dispute: Option<Dispute>,
}

/// The desk as one arrival leaves it.
pub open spec fn next(desk: Desk, arrival: Arrival) -> Desk {
    let ruling = step(desk.order, desk.dispute, arrival.rules, arrival.event);
    Desk { order: ruling.order, dispute: ruling.dispute }
}

/// The desk as a run of arrivals leaves it, each handled in turn.
pub open spec fn after(desk: Desk, arrivals: Seq<Arrival>) -> Desk
    decreases arrivals.len(),
{
    if arrivals.len() == 0 {
        desk
    } else {
        next(after(desk, arrivals.drop_last()), arrivals.last())
    }
}

/// The table of legal moves: from each state, the states that one request or
/// report can lead to. No move leads out of a state that is not listed.
pub open spec fn legal_move(from: Status, to: Status) -> bool {
    match from {
        Status::Pending => to == Status::WaitingBuyerInvoice || to == Status::WaitingPayment || to
            == Status::Canceled || to == Status::CanceledByAdmin,
        Status::WaitingBuyerInvoice => to == Status::WaitingPayment || to == Status::Canceled
            || to == Status::Pending || to == Status::CanceledByAdmin,
        Status::WaitingPayment => to == Status::Active || to == Status::Canceled || to
            == Status::Pending || to == Status::CanceledByAdmin || to == Status::Expired,
        Status::Active => to == Status::FiatSent || to == Status::Dispute || to
            == Status::CooperativelyCanceled || to == Status::CanceledByAdmin || to
            == Status::Expired,
        Status::FiatSent => to == Status::Settled || to == Status::Dispute || to
            == Status::CooperativelyCanceled || to == Status::CanceledByAdmin || to
            == Status::Expired,
        Status::Settled => to == Status::Completed,
        Status::Dispute => to == Status::SettledByAdmin || to == Status::CooperativelyCanceled
            || to == Status::CanceledByAdmin,
        _ => false,
    }
}

/// The states that an order passes through in a run: its state at the
/// start, then its state after each arrival.
pub open spec fn history(desk: Desk, arrivals: Seq<Arrival>) -> Seq<Status> {
    Seq::new(arrivals.len() + 1, |i: int| after(desk, arrivals.take(i)).order.status)
}

/// True when each state of `path` is followed by itself or by a state that a
/// legal move leads to.
pub open spec fn legal_path(path: Seq<Status>) -> bool {
    forall|i: int|
        #![trigger path[i]]
        0 <= i < path.len() - 1 ==> path[i + 1] == path[i] || legal_move(path[i], path[i + 1])
}

/// The escrow of an order in one of these states has been settled.
pub open spec fn escrow_settled(status: Status) -> bool {
    status == Status::Settled || status == Status::Completed || status == Status::SettledByAdmin
}

/// True when the arrival settles the escrow: it moves the order into
/// `Settled` or `SettledByAdmin`, which takes the preimage of a settled hold
/// invoice.
pub open spec fn settles(desk: Desk, arrival: Arrival) -> bool {
    let to = next(desk, arrival).order.status;
    to != desk.order.status && (to == Status::Settled || to == Status::SettledByAdmin)
}

/// True when the arrival makes the machine ask for the hold invoice to be
/// settled.
pub open spec fn asks_to_settle(desk: Desk, arrival: Arrival) -> bool {
    asks_for(
        step(desk.order, desk.dispute, arrival.rules, arrival.event).result,
        Effect::SettleHoldInvoice,
    )
}

/// How many arrivals of a run settle the escrow.
pub open spec fn settlements(desk: Desk, arrivals: Seq<Arrival>) -> nat
    decreases arrivals.len(),
{
    if arrivals.len() == 0 {
        0
    } else {
        settlements(desk, arrivals.drop_last()) + if settles(
            after(desk, arrivals.drop_last()),
            arrivals.last(),
        ) {
            1nat
        } else {
            0nat
        }
    }
}

/// True when the arrival is the report of a successful payment that
/// completes the trade.
pub open spec fn pays_out(desk: Desk, arrival: Arrival) -> bool {
    arrival.event matches Input::PaymentResult { succeeded } && succeeded && next(
        desk,
        arrival,
    ).order.status != desk.order.status
}

/// How many arrivals of a run are successful payouts.
pub open spec fn payouts(desk: Desk, arrivals: Seq<Arrival>) -> nat
    decreases arrivals.len(),
{
    if arrivals.len() == 0 {
        0
    } else {
        payouts(desk, arrivals.drop_last()) + if pays_out(
            after(desk, arrivals.drop_last()),
            arrivals.last(),
        ) {
            1nat
        } else {
            0nat
        }
    }
}

/// The senders of the `Cancel` requests of a run that were accepted, that is,
/// that changed the order, in the order of their arrival.
pub open spec fn cancellers(desk: Desk, arrivals: Seq<Arrival>) -> Seq<PubKey>
    decreases arrivals.len(),
{
    if arrivals.len() == 0 {
        Seq::empty()
    } else {
        let before = after(desk, arrivals.drop_last());
        let earlier = cancellers(desk, arrivals.drop_last());
        match arrivals.last().event {
            Input::Cancel { sender, request_id, released } => if next(before, arrivals.last()).order
                != before.order {
                earlier.push(sender)
            } else {
                earlier
            },
            _ => earlier,
        }
    }
}

/// True of a result that asks for the one escrow call `call` and nothing else.
pub open spec fn asks_for(result: Result<Seq<Effect>, Fault>, call: Effect) -> bool {
    result is Ok && result->Ok_0.len() == 1 && result->Ok_0[0] == call
}

/// True of a result that has the order published anew, before anything else.
pub open spec fn announced(result: Result<Seq<Effect>, Fault>) -> bool {
    result is Ok && result->Ok_0.len() > 0 && result->Ok_0[0] == Effect::PublishOrder
}

/// True of a request that is turned away: it ends in a fault, or its first
/// answer is a refusal.
pub open spec fn turned_away(result: Result<Seq<Effect>, Fault>) -> bool {
    match result {
        Err(_) => true,
        Ok(effects) => effects.len() > 0 && effects[0] is CantDo,
    }
}

/// What every handler keeps to, whatever it is asked: it leaves the state as
/// it is or makes a legal move, keeps a well-formed order well-formed, never
/// touches id, kind and creator, asks for a settlement only of a trade in
/// `FiatSent` or `Dispute`, and has the order published anew whenever what is
/// public of it changes.
pub open spec fn in_order(before: Order, after: Order, result: Result<Seq<Effect>, Fault>) -> bool {
    &&& after.status == before.status || legal_move(before.status, after.status)
    &&& before.wf() ==> after.wf()
    &&& after.id == before.id
    &&& after.kind == before.kind
    &&& after.creator_pubkey == before.creator_pubkey
    &&& asks_for(result, Effect::SettleHoldInvoice) ==> before.status == Status::FiatSent
        || before.status == Status::Dispute
    &&& snapshot_of(after) != snapshot_of(before) ==> announced(result)
}

/// What every handler but that of `Cancel` keeps to: the cooperative-cancel
/// bookkeeping stays as it is.
pub open spec fn books_kept(before: Order, after: Order) -> bool {
    &&& after.cancel_initiator_pubkey == before.cancel_initiator_pubkey
    &&& after.status == Status::CooperativelyCanceled ==> before.status
        == Status::CooperativelyCanceled
}

/// What every handler keeps to, that of `Cancel` too: once someone has asked
/// for a cooperative cancel, the record of who asked first stays.
pub open spec fn latch_held(before: Order, after: Order) -> bool {
    before.cancel_initiator_pubkey is Some ==> after.cancel_initiator_pubkey
        == before.cancel_initiator_pubkey
}

/// What every handler but that of the payment report keeps to: it completes
/// no trade.
pub open spec fn completes_nothing(before: Order, after: Order) -> bool {
    after.status == Status::Completed ==> before.status == Status::Completed
}

/// All that every handler keeps to: `in_order`, the record of who asked
/// first for a cooperative cancel, and that a request which is turned away
/// changes neither the order nor its dispute.
pub open spec fn well_handled(desk: Desk, ruling: Ruling) -> bool {
    &&& in_order(desk.order, ruling.order, ruling.result)
    &&& latch_held(desk.order, ruling.order)
    &&& turned_away(ruling.result) ==> ruling.order == desk.order && ruling.dispute
        == desk.dispute
}

/// What every handler but those of `Cancel` and of the payment report keeps
/// to beside.
pub open spec fn plainly_handled(desk: Desk, ruling: Ruling) -> bool {
    &&& well_handled(desk, ruling)
    &&& books_kept(desk.order, ruling.order)
    &&& completes_nothing(desk.order, ruling.order)
}

proof fn lemma_take_sell(desk: Desk, sender: PubKey, request_id: Option<u64>, taker: Taker, limits: Limits)
    ensures
        plainly_handled(desk, beside(take_sell_outcome(desk.order, sender, request_id, taker, limits), desk.dispute)),
{
}

proof fn lemma_take_buy(desk: Desk, sender: PubKey, request_id: Option<u64>, taker: Taker, limits: Limits)
    ensures
        plainly_handled(desk, beside(take_buy_outcome(desk.order, sender, request_id, taker, limits), desk.dispute)),
{
}

proof fn lemma_add_invoice(desk: Desk, sender: PubKey, request_id: Option<u64>, invoice: String, invoice_valid: bool, hold: Option<Bits256>)
    ensures
        plainly_handled(desk, beside(add_invoice_outcome(desk.order, sender, request_id, invoice, invoice_valid, hold), desk.dispute)),
{
}

proof fn lemma_hold_invoice_accepted(desk: Desk)
    ensures
        plainly_handled(desk, beside(hold_invoice_accepted_outcome(desk.order), desk.dispute)),
{
}

proof fn lemma_hold_invoice_expired(desk: Desk)
    ensures
        plainly_handled(desk, beside(hold_invoice_expired_outcome(desk.order), desk.dispute)),
{
}

proof fn lemma_fiat_sent(desk: Desk, sender: PubKey, request_id: Option<u64>)
    ensures
        plainly_handled(desk, beside(fiat_sent_outcome(desk.order, sender, request_id), desk.dispute)),
{
}

proof fn lemma_release(desk: Desk, sender: PubKey, request_id: Option<u64>, settled: Option<Bits256>)
    ensures
        plainly_handled(desk, beside(release_outcome(desk.order, sender, request_id, settled), desk.dispute)),
{
}

proof fn lemma_cancel_add_invoice(desk: Desk, sender: PubKey, request_id: Option<u64>, released: Option<bool>)
    ensures
        plainly_handled(desk, beside(cancel_add_invoice_outcome(desk.order, sender, request_id, released), desk.dispute)),
{
}

proof fn lemma_cancel_pay_hold_invoice(desk: Desk, sender: PubKey, request_id: Option<u64>, released: Option<bool>)
    ensures
        plainly_handled(desk, beside(cancel_pay_hold_invoice_outcome(desk.order, sender, request_id, released), desk.dispute)),
{
}

proof fn lemma_dispute(desk: Desk, sender: PubKey, request_id: Option<u64>, dispute_id: u128, now: u64)
    ensures
        plainly_handled(desk, dispute_ruling(desk.order, desk.dispute, sender, request_id, dispute_id, now)),
{
}

proof fn lemma_admin_take_dispute(desk: Desk, solvers: Set<PubKey>, sender: PubKey, request_id: Option<u64>)
    ensures
        plainly_handled(desk, admin_take_dispute_ruling(desk.order, desk.dispute, solvers, sender, request_id)),
{
}

proof fn lemma_admin_settle(desk: Desk, admin: PubKey, sender: PubKey, request_id: Option<u64>, settled: Option<Bits256>)
    ensures
        plainly_handled(desk, admin_settle_ruling(desk.order, desk.dispute, admin, sender, request_id, settled)),
{
}

proof fn lemma_admin_cancel(desk: Desk, admin: PubKey, sender: PubKey, request_id: Option<u64>, released: Option<bool>)
    ensures
        plainly_handled(desk, admin_cancel_ruling(desk.order, desk.dispute, admin, sender, request_id, released)),
{
}

proof fn lemma_payment(desk: Desk, succeeded: bool)
    ensures
        well_handled(desk, beside(payment_outcome(desk.order, succeeded), desk.dispute)),
        books_kept(desk.order, payment_outcome(desk.order, succeeded).order),
        payment_outcome(desk.order, succeeded).order.status != desk.order.status ==> succeeded
            && payment_outcome(desk.order, succeeded).order.status == Status::Completed,
{
}

proof fn lemma_cooperative_cancel(
    desk: Desk,
    sender: PubKey,
    request_id: Option<u64>,
    released: Option<bool>,
)
    ensures
        well_handled(
            desk,
            beside(cooperative_cancel_outcome(desk.order, sender, request_id, released), desk.dispute),
        ),
        completes_nothing(
            desk.order,
            cooperative_cancel_outcome(desk.order, sender, request_id, released).order,
        ),
{
}

proof fn lemma_cancel(desk: Desk, sender: PubKey, request_id: Option<u64>, released: Option<bool>)
    ensures
        well_handled(
            desk,
            beside(cancel_outcome(desk.order, sender, request_id, released), desk.dispute),
        ),
        completes_nothing(desk.order, cancel_outcome(desk.order, sender, request_id, released).order),
{
    lemma_cancel_add_invoice(desk, sender, request_id, released);
    lemma_cancel_pay_hold_invoice(desk, sender, request_id, released);
    lemma_cooperative_cancel(desk, sender, request_id, released);
}

/// Every step of the machine is well handled; every step but a `Cancel`
/// keeps the cooperative-cancel bookkeeping; every step but the report of a
/// successful payment completes nothing.
pub proof fn lemma_step(desk: Desk, arrival: Arrival)
    ensures
        well_handled(desk, step(desk.order, desk.dispute, arrival.rules, arrival.event)),
        !(arrival.event is Cancel) ==> books_kept(desk.order, next(desk, arrival).order),
        !(arrival.event matches Input::PaymentResult { succeeded } && succeeded)
            ==> completes_nothing(desk.order, next(desk, arrival).order),
        arrival.event is PaymentResult && next(desk, arrival).order.status != desk.order.status
            ==> next(desk, arrival).order.status == Status::Completed,
{
    let rules = arrival.rules;
    match arrival.event {
        Input::TakeSell { sender, request_id, taker } => {
            lemma_take_sell(desk, sender, request_id, taker, rules.limits);
        },
        Input::TakeBuy { sender, request_id, taker } => {
            lemma_take_buy(desk, sender, request_id, taker, rules.limits);
        },
        Input::AddInvoice { sender, request_id, invoice, invoice_valid, hold } => {
            lemma_add_invoice(desk, sender, request_id, invoice, invoice_valid, hold);
        },
        Input::HoldInvoiceAccepted => {
            lemma_hold_invoice_accepted(desk);
        },
        Input::HoldInvoiceExpired => {
            lemma_hold_invoice_expired(desk);
        },
        Input::FiatSent { sender, request_id } => {
            lemma_fiat_sent(desk, sender, request_id);
        },
        Input::Release { sender, request_id, settled } => {
            lemma_release(desk, sender, request_id, settled);
        },
        Input::PaymentResult { succeeded } => {
            lemma_payment(desk, succeeded);
        },
        Input::Cancel { sender, request_id, released } => {
            lemma_cancel(desk, sender, request_id, released);
        },
        Input::Dispute { sender, request_id, dispute_id, now } => {
            lemma_dispute(desk, sender, request_id, dispute_id, now);
        },
        Input::AdminTakeDispute { sender, request_id } => {
            lemma_admin_take_dispute(desk, rules.solvers, sender, request_id);
        },
        Input::AdminSettle { sender, request_id, settled } => {
            lemma_admin_settle(desk, rules.admin, sender, request_id, settled);
        },
        Input::AdminCancel { sender, request_id, released } => {
            lemma_admin_cancel(desk, rules.admin, sender, request_id, released);
        },
    }
}

/// Whatever events arrive, in whatever order and under whatever rules, the
/// states that an order passes through form a legal path from its state at
/// the start to its state at the end.
pub proof fn theorem_runs_follow_the_table(desk: Desk, arrivals: Seq<Arrival>)
    ensures
        legal_path(history(desk, arrivals)),
        history(desk, arrivals).first() == desk.order.status,
        history(desk, arrivals).last() == after(desk, arrivals).order.status,
{
    let path = history(desk, arrivals);
    assert(arrivals.take(0) =~= Seq::<Arrival>::empty());
    assert(arrivals.take(arrivals.len() as int) =~= arrivals);
    assert forall|i: int| 0 <= i < path.len() - 1 implies path[i + 1] == #[trigger] path[i]
        || legal_move(path[i], path[i + 1]) by {
        let upto = arrivals.take(i + 1);
        assert(upto.drop_last() =~= arrivals.take(i));
        assert(upto.last() == arrivals[i]);
        lemma_step(after(desk, arrivals.take(i)), arrivals[i]);
    }
}

/// A run keeps a well-formed order well-formed, and never changes its id,
/// its kind or its creator.
pub proof fn theorem_runs_keep_wf(desk: Desk, arrivals: Seq<Arrival>)
    ensures
        desk.order.wf() ==> after(desk, arrivals).order.wf(),
        after(desk, arrivals).order.id == desk.order.id,
        after(desk, arrivals).order.kind == desk.order.kind,
        after(desk, arrivals).order.creator_pubkey == desk.order.creator_pubkey,
    decreases arrivals.len(),
{
    if arrivals.len() > 0 {
        theorem_runs_keep_wf(desk, arrivals.drop_last());
        lemma_step(after(desk, arrivals.drop_last()), arrivals.last());
    }
}

/// Once the escrow of an order is settled it stays settled, and nothing that
/// arrives settles it again or makes the machine ask for that.
pub proof fn lemma_settled_is_final(desk: Desk, arrival: Arrival)
    requires
        escrow_settled(desk.order.status),
    ensures
        escrow_settled(next(desk, arrival).order.status),
        !settles(desk, arrival),
        !asks_to_settle(desk, arrival),
{
    lemma_step(desk, arrival);
}

/// Over any run at most one arrival settles the escrow of an order: exactly
/// one if the run takes the order from an unsettled state to a settled one,
/// none otherwise.
pub proof fn theorem_escrow_is_settled_at_most_once(desk: Desk, arrivals: Seq<Arrival>)
    ensures
        settlements(desk, arrivals) <= 1,
        settlements(desk, arrivals) == if !escrow_settled(desk.order.status) && escrow_settled(
            after(desk, arrivals).order.status,
        ) {
            1nat
        } else {
            0nat
        },
        escrow_settled(desk.order.status) ==> escrow_settled(after(desk, arrivals).order.status),
    decreases arrivals.len(),
{
    if arrivals.len() > 0 {
        let before = after(desk, arrivals.drop_last());
        theorem_escrow_is_settled_at_most_once(desk, arrivals.drop_last());
        lemma_step(before, arrivals.last());
    }
}

/// An order that a run has brought to `Completed` has seen exactly one
/// successful payout of the buyer's invoice; any other run has seen none.
pub proof fn theorem_completed_means_one_payout(desk: Desk, arrivals: Seq<Arrival>)
    requires
        desk.order.status != Status::Completed,
    ensures
        payouts(desk, arrivals) == if after(desk, arrivals).order.status == Status::Completed {
            1nat
        } else {
            0nat
        },
    decreases arrivals.len(),
{
    if arrivals.len() > 0 {
        theorem_completed_means_one_payout(desk, arrivals.drop_last());
        lemma_step(after(desk, arrivals.drop_last()), arrivals.last());
    }
}

/// True when two different keys occur in `keys`.
pub open spec fn two_distinct(keys: Seq<PubKey>) -> bool {
    exists|i: int, j: int|
        0 <= i < keys.len() && 0 <= j < keys.len() && #[trigger] keys[i] != #[trigger] keys[j]
}

/// What links the cooperative-cancel bookkeeping of an order to the accepted
/// `Cancel` requests that led to it.
pub open spec fn cancels_accounted(order: Order, accepted: Seq<PubKey>) -> bool {
    &&& order.cancel_initiator_pubkey matches Some(k) ==> accepted.contains(k)
    &&& order.status == Status::CooperativelyCanceled ==> two_distinct(accepted)
}

/// One more arrival keeps the accepted cancels accounted for.
proof fn lemma_cancels_stay_accounted(desk: Desk, accepted: Seq<PubKey>, arrival: Arrival)
    requires
        cancels_accounted(desk.order, accepted),
    ensures
        cancels_accounted(
            next(desk, arrival).order,
            match arrival.event {
                Input::Cancel { sender, request_id, released } => if next(desk, arrival).order
                    != desk.order {
                    accepted.push(sender)
                } else {
                    accepted
                },
                _ => accepted,
            },
        ),
{
    let order = desk.order;
    let after_it = next(desk, arrival).order;
    match arrival.event {
        Input::Cancel { sender, request_id, released } => {
            if after_it != order {
                let grown = accepted.push(sender);
                assert(grown[accepted.len() as int] == sender);
                assert forall|k: PubKey| accepted.contains(k) implies grown.contains(k) by {
                    let i = choose|i: int| 0 <= i < accepted.len() && accepted[i] == k;
                    assert(grown[i] == k);
                }
                if two_distinct(accepted) {
                    let (i, j) = choose|i: int, j: int|
                        0 <= i < accepted.len() && 0 <= j < accepted.len() && #[trigger] accepted[i]
                            != #[trigger] accepted[j];
                    assert(grown[i] != grown[j]);
                }
                if after_it.status == Status::CooperativelyCanceled && order.status
                    != Status::CooperativelyCanceled {
                    let first = order.cancel_initiator_pubkey->0;
                    assert(accepted.contains(first));
                    let i = choose|i: int| 0 <= i < accepted.len() && accepted[i] == first;
                    assert(grown[i] == first);
                    assert(grown[i] != grown[accepted.len() as int]);
                }
            }
        },
        _ => {
            lemma_step(desk, arrival);
        },
    }
}

/// An order that a run has brought to `CooperativelyCanceled` has seen two
/// accepted `Cancel` requests from two different keys.
pub proof fn theorem_cooperative_cancel_takes_two(desk: Desk, arrivals: Seq<Arrival>)
    requires
        desk.order.cancel_initiator_pubkey is None,
        desk.order.status != Status::CooperativelyCanceled,
    ensures
        after(desk, arrivals).order.status == Status::CooperativelyCanceled ==> two_distinct(
            cancellers(desk, arrivals),
        ),
        cancels_accounted(after(desk, arrivals).order, cancellers(desk, arrivals)),
    decreases arrivals.len(),
{
    if arrivals.len() > 0 {
        theorem_cooperative_cancel_takes_two(desk, arrivals.drop_last());
        lemma_cancels_stay_accounted(
            after(desk, arrivals.drop_last()),
            cancellers(desk, arrivals.drop_last()),
            arrivals.last(),
        );
    }
}

/// Whenever an arrival changes what is public of an order, the order is
/// published anew, before anyone is told.
pub proof fn theorem_public_changes_are_published(desk: Desk, arrival: Arrival)
    requires
        snapshot_of(next(desk, arrival).order) != snapshot_of(desk.order),
    ensures
        announced(step(desk.order, desk.dispute, arrival.rules, arrival.event).result),
        step(desk.order, desk.dispute, arrival.rules, arrival.event).result->Ok_0.contains(
            Effect::PublishOrder,
        ),
{
    lemma_step(desk, arrival);
}

/// A request that is turned away, be it refused or dropped for a fault,
/// changes neither the order nor its dispute.
pub proof fn theorem_refusals_change_nothing(desk: Desk, arrival: Arrival)
    requires
        turned_away(step(desk.order, desk.dispute, arrival.rules, arrival.event).result),
    ensures
        next(desk, arrival) == desk,
{
    lemma_step(desk, arrival);
}

/// The sender of a request that only a party of the trade can make; `None`
/// for every other event.
pub open spec fn party_request(event: Input) -> Option<PubKey> {
    match event {
        Input::AddInvoice { sender, .. } => Some(sender),
        Input::FiatSent { sender, .. } => Some(sender),
        Input::Release { sender, .. } => Some(sender),
        Input::Cancel { sender, .. } => Some(sender),
        Input::Dispute { sender, .. } => Some(sender),
        _ => None,
    }
}

/// A request that only a party can make, sent by anyone who is neither buyer
/// nor seller of the order, is answered by nothing and changes nothing: a
/// stranger does not even learn that the order exists.
pub proof fn theorem_strangers_are_ignored(desk: Desk, arrival: Arrival)
    requires
        party_request(arrival.event) matches Some(sender) && !desk.order.spec_is_participant(
            sender,
        ),
    ensures
        next(desk, arrival) == desk,
        step(desk.order, desk.dispute, arrival.rules, arrival.event).result == Ok::<
            Seq<Effect>,
            Fault,
        >(Seq::empty()),
{
}

/// A cancellation that asks for the hold invoice to be cancelled ends in a
/// fault when that fails: the order and its dispute stay as they are, nothing
/// is published and no one is told.
pub proof fn theorem_failed_release_stops_the_cancel(desk: Desk, rules: Rules, event: Input)
    requires
        event is Cancel || event is AdminCancel,
        asks_for(step(desk.order, desk.dispute, rules, event).result, Effect::CancelHoldInvoice),
    ensures
        step(desk.order, desk.dispute, rules, failed(event)) == (Ruling {
            order: desk.order,
            dispute: desk.dispute,
            result: Err(Fault::HoldInvoiceNotCancelled),
        }),
{
}

/// The cancellation `event` as it is handed in again after the cancelling of
/// the hold invoice failed.
pub open spec fn failed(event: Input) -> Input {
    match event {
        Input::Cancel { sender, request_id, released } => Input::Cancel {
            sender,
            request_id,
            released: Some(false),
        },
        Input::AdminCancel { sender, request_id, released } => Input::AdminCancel {
            sender,
            request_id,
            released: Some(false),
        },
        other => other,
    }
}

/// The initiator of a cooperative cancel is recorded once: whoever is on
/// record at the start of a run is on record at its end.
pub proof fn theorem_initiator_is_set_once(desk: Desk, arrivals: Seq<Arrival>)
    requires
        desk.order.cancel_initiator_pubkey is Some,
    ensures
        after(desk, arrivals).order.cancel_initiator_pubkey == desk.order.cancel_initiator_pubkey,
    decreases arrivals.len(),
{
    if arrivals.len() > 0 {
        theorem_initiator_is_set_once(desk, arrivals.drop_last());
        lemma_step(after(desk, arrivals.drop_last()), arrivals.last());
    }
}

/// A `Cancel` from anyone who is neither buyer nor seller of the order is
/// answered by nothing and changes nothing.
pub proof fn theorem_strangers_cannot_cancel(
    order: Order,
    sender: PubKey,
    request_id: Option<u64>,
    released: Option<bool>,
)
    requires
        !order.spec_is_participant(sender),
    ensures
        cancel_outcome(order, sender, request_id, released) == unchanged(order, Seq::empty()),
{
}

/// A `FiatSent` that arrives again, once the order is in `FiatSent`, leaves
/// the order as it is and tells no one.
pub proof fn theorem_fiat_sent_again_is_silent(
    order: Order,
    sender: PubKey,
    request_id: Option<u64>,
    again: Option<u64>,
)
    requires
        order.status == Status::Active,
        order.spec_is_buyer(sender),
        order.seller_pubkey is Some,
    ensures
        fiat_sent_outcome(order, sender, request_id).order.status == Status::FiatSent,
        fiat_sent_outcome(fiat_sent_outcome(order, sender, request_id).order, sender, again)
            == unchanged(fiat_sent_outcome(order, sender, request_id).order, Seq::empty()),
{
}

} // verus!
