//! Disputes: a party of a trade calls for an arbiter, a registered solver
//! takes the dispute, and the solver or the admin settles the escrow to the
//! buyer or returns it to the seller.

use vstd::prelude::*;
use crate::cancel::{check_escrow, escrow_bar};
use crate::effect::{answer, refuse, tell, view_of, CantDoReason, Effect, Fault, Notice};
use crate::order::{Bits256, Order, PubKey, Status};

verus! {

/// Where a dispute stands.
#[derive(Clone, Copy, Debug, PartialEq, Eq, Structural, Hash)]
pub enum DisputeStatus {
    Initiated,
    InProgress,
    SellerRefunded,
    Settled,
}

/// The record of a dispute over one order.
#[derive(Clone, Copy, Debug, PartialEq, Eq, Hash)]
pub struct Dispute {
    pub id: u128,
    pub order_id: u128,
    pub status: DisputeStatus,
    /// The solver who took the dispute.
    pub solver_pubkey: Option<PubKey>,
    /// When the dispute was opened, in seconds since the epoch.
    pub created_at: u64,
}

/// The admin and the solvers whom the admin has added.
#[derive(Clone, Debug, PartialEq, Eq)]
pub struct SolverRegistry {
    pub admin: PubKey,
    pub solvers: Vec<PubKey>,
}

/// The registry as the contracts see it: the admin and the set of solvers.
pub struct Authority {
    pub admin: PubKey,
    pub solvers: Set<PubKey>,
}

impl View for SolverRegistry {
    type V = Authority;

    open spec fn view(&self) -> Authority {
        Authority { admin: self.admin, solvers: self.solvers@.to_set() }
    }
}

impl SolverRegistry {
    /// A registry with no solver in it.
    pub fn new(admin: PubKey) -> (r: SolverRegistry)
        ensures
            r@ == (Authority { admin, solvers: Set::<PubKey>::empty() }),
            r.solvers@.len() == 0,
    {
        let r = SolverRegistry { admin, solvers: Vec::new() };
        assert(r.solvers@.to_set() =~= Set::<PubKey>::empty());
        r
    }

    /// Whether `key` is a registered solver.
    pub fn contains(&self, key: PubKey) -> (r: bool)
        ensures
            r == self@.solvers.contains(key),
    {
        let mut i: usize = 0;
        while i < self.solvers.len()
            invariant
                i <= self.solvers.len(),
                forall|j: int| 0 <= j < i ==> self.solvers@[j] != key,
            decreases self.solvers.len() - i,
        {
            if self.solvers[i] == key {
                assert(self.solvers@.contains(key));
                return true;
            }
            i += 1;
        }
        assert(!self.solvers@.contains(key));
        false
    }
}

/// True for the admin and for the solver to whom the dispute over the order
/// `order_id` is assigned.
pub open spec fn may_decide(
    admin: PubKey,
    dispute: Option<Dispute>,
    order_id: u128,
    key: PubKey,
) -> bool {
    key == admin || (dispute matches Some(d) && d.order_id == order_id && d.solver_pubkey == Some(
        key,
    ))
}

/// What a dispute handler comes to: the order and the dispute as they leave
/// the handler, and the effects or the fault.
pub struct Ruling {
    pub order: Order,
    pub dispute: Option<Dispute>,
    pub result: Result<Seq<Effect>, Fault>,
}

/// Order and dispute stay as they are and `effects` are carried out.
pub open spec fn standing(order: Order, dispute: Option<Dispute>, effects: Seq<Effect>) -> Ruling {
    Ruling { order, dispute, result: Ok(effects) }
}

/// True when an executed handler left `order` and `dispute` and returned `r`
/// as `expected` says.
pub open spec fn ruled(
    order: Order,
    dispute: Option<Dispute>,
    r: Result<Vec<Effect>, Fault>,
    expected: Ruling,
) -> bool {
    order == expected.order && dispute == expected.dispute && view_of(r) == expected.result
}

/// The refusal that answers a request which names no order.
pub open spec fn refuse_plain(to: PubKey, reason: Option<CantDoReason>, request_id: Option<u64>) -> Effect {
    Effect::CantDo { to, reason, request_id, order_id: None }
}

/// The other party of a trade, seen from the participant `sender`.
pub open spec fn peer_of(order: Order, sender: PubKey) -> PubKey {
    if order.spec_is_buyer(sender) {
        order.seller_pubkey->0
    } else {
        order.buyer_pubkey->0
    }
}

/// A `Dispute` request from `sender`, to be recorded under `dispute_id` at
/// time `now`.
///
/// A stranger is told nothing. Only a trade in `Active` or `FiatSent` that
/// has no dispute yet can be disputed; otherwise the request is refused
/// without a reason. A dispute that is opened moves the order to `Dispute`,
/// is recorded as `Initiated`, and is announced to the admin pool and to both
/// parties.
pub open spec fn dispute_ruling(
    order: Order,
    dispute: Option<Dispute>,
    sender: PubKey,
    request_id: Option<u64>,
    dispute_id: u128,
    now: u64,
) -> Ruling {
    if !order.spec_is_participant(sender) {
        standing(order, dispute, Seq::empty())
    } else if !(order.status == Status::Active || order.status == Status::FiatSent)
        || dispute is Some {
        standing(order, dispute, seq![refuse(sender, None, request_id, order.id)])
    } else if order.seller_pubkey is None {
        Ruling { order, dispute, result: Err(Fault::MissingSellerPubkey) }
    } else if order.buyer_pubkey is None {
        Ruling { order, dispute, result: Err(Fault::MissingBuyerPubkey) }
    } else {
        Ruling {
            order: Order { status: Status::Dispute, ..order },
            dispute: Some(
                Dispute {
                    id: dispute_id,
                    order_id: order.id,
                    status: DisputeStatus::Initiated,
                    solver_pubkey: None,
                    created_at: now,
                },
            ),
            result: Ok(
                seq![
                    Effect::PublishOrder,
                    Effect::PublishDispute,
                    answer(sender, Notice::DisputeInitiatedByYou, request_id),
                    tell(peer_of(order, sender), Notice::DisputeInitiatedByPeer),
                ],
            ),
        }
    }
}

/// An `AdminTakeDispute` request from `sender`.
///
/// Only a registered solver can take a dispute, and only one that nobody has
/// taken yet: anyone else is refused with `NotAuthorized`, a dispute that is
/// missing or no longer `Initiated` without a reason. The solver is recorded,
/// the dispute is `InProgress`, and solver and parties are told.
pub open spec fn admin_take_dispute_ruling(
    order: Order,
    dispute: Option<Dispute>,
    solvers: Set<PubKey>,
    sender: PubKey,
    request_id: Option<u64>,
) -> Ruling {
    if !solvers.contains(sender) {
        standing(
            order,
            dispute,
            seq![refuse(sender, Some(CantDoReason::NotAuthorized), request_id, order.id)],
        )
    } else if !(dispute matches Some(d) && d.order_id == order.id && d.status
        == DisputeStatus::Initiated) {
        standing(order, dispute, seq![refuse(sender, None, request_id, order.id)])
    } else if order.seller_pubkey is None {
        Ruling { order, dispute, result: Err(Fault::MissingSellerPubkey) }
    } else if order.buyer_pubkey is None {
        Ruling { order, dispute, result: Err(Fault::MissingBuyerPubkey) }
    } else {
        Ruling {
            order,
            dispute: Some(
                Dispute {
                    status: DisputeStatus::InProgress,
                    solver_pubkey: Some(sender),
                    ..dispute->0
                },
            ),
            result: Ok(
                seq![
                    answer(sender, Notice::AdminTookDispute, request_id),
                    tell(order.buyer_pubkey->0, Notice::AdminTookDispute),
                    tell(order.seller_pubkey->0, Notice::AdminTookDispute),
                ],
            ),
        }
    }
}

/// True when an `AdminSettle` from an authorised sender is in order: the
/// order is in `Dispute`, the dispute is its own, and parties and hold
/// invoice are known.
pub open spec fn admin_settle_ready(order: Order, dispute: Option<Dispute>) -> bool {
    &&& order.status == Status::Dispute
    &&& dispute matches Some(d) && d.order_id == order.id
    &&& order.hash is Some
    &&& order.buyer_pubkey is Some
    &&& order.seller_pubkey is Some
}

/// The payout that follows a settlement to the buyer, where the buyer has
/// named an invoice.
pub open spec fn payout(order: Order) -> Seq<Effect> {
    if order.buyer_invoice is Some {
        seq![Effect::PayBuyerInvoice]
    } else {
        Seq::empty()
    }
}

/// An `AdminSettle` request: the dispute is decided for the buyer.
///
/// Only the admin and the solver assigned to the dispute may decide; anyone
/// else is refused with `NotAuthorized`, and a request that is not in order
/// without a reason. A request in order first has the hold invoice settled;
/// handed the preimage, it records it, moves the order to `SettledByAdmin`
/// and the dispute to `Settled`, tells everyone and has the buyer paid.
pub open spec fn admin_settle_ruling(
    order: Order,
    dispute: Option<Dispute>,
    admin: PubKey,
    sender: PubKey,
    request_id: Option<u64>,
    settled: Option<Bits256>,
) -> Ruling {
    if !may_decide(admin, dispute, order.id, sender) {
        standing(
            order,
            dispute,
            seq![refuse(sender, Some(CantDoReason::NotAuthorized), request_id, order.id)],
        )
    } else if !admin_settle_ready(order, dispute) {
        standing(order, dispute, seq![refuse(sender, None, request_id, order.id)])
    } else if settled is None {
        standing(order, dispute, seq![Effect::SettleHoldInvoice])
    } else {
        Ruling {
            order: Order { status: Status::SettledByAdmin, preimage: settled, ..order },
            dispute: Some(Dispute { status: DisputeStatus::Settled, ..dispute->0 }),
            result: Ok(
                seq![
                    Effect::PublishOrder,
                    answer(sender, Notice::AdminSettled, request_id),
                    tell(order.buyer_pubkey->0, Notice::AdminSettled),
                    tell(order.seller_pubkey->0, Notice::AdminSettled),
                ] + payout(order),
            ),
        }
    }
}

/// The notices of an admin's cancellation to the parties that the order has.
pub open spec fn tell_parties(order: Order, notice: Notice) -> Seq<Effect> {
    (if order.buyer_pubkey is Some {
        seq![tell(order.buyer_pubkey->0, notice)]
    } else {
        Seq::empty()
    }) + (if order.seller_pubkey is Some {
        seq![tell(order.seller_pubkey->0, notice)]
    } else {
        Seq::empty()
    })
}

/// The dispute after the escrow went back to the seller.
pub open spec fn refunded(dispute: Option<Dispute>, order_id: u128) -> Option<Dispute> {
    match dispute {
        Some(d) => if d.order_id == order_id {
            Some(Dispute { status: DisputeStatus::SellerRefunded, ..d })
        } else {
            dispute
        },
        None => None,
    }
}

/// An `AdminCancel` request: the order is cancelled over the parties' heads
/// and the escrow goes back to the seller.
///
/// Only the admin and the solver assigned to the order's dispute may cancel;
/// anyone else is refused with `NotAuthorized`. An order that is already
/// cancelled refuses with `OrderAlreadyCanceled`. An order whose escrow has
/// been settled or has run out is refused without a reason: that holds of a
/// `Settled` order too, though its payout is still to come, because settling
/// has captured the hold invoice for good and there is nothing left that a
/// cancel could return to the seller. Otherwise the hold invoice is cancelled
/// first (see `escrow_bar`), then the order ends as `CanceledByAdmin`, its
/// dispute as `SellerRefunded`, and everyone is told.
pub open spec fn admin_cancel_ruling(
    order: Order,
    dispute: Option<Dispute>,
    admin: PubKey,
    sender: PubKey,
    request_id: Option<u64>,
    released: Option<bool>,
) -> Ruling {
    if !may_decide(admin, dispute, order.id, sender) {
        standing(
            order,
            dispute,
            seq![refuse(sender, Some(CantDoReason::NotAuthorized), request_id, order.id)],
        )
    } else if order.status.spec_is_canceled() {
        standing(
            order,
            dispute,
            seq![refuse(sender, Some(CantDoReason::OrderAlreadyCanceled), request_id, order.id)],
        )
    } else if order.status.spec_is_closed() {
        standing(order, dispute, seq![refuse(sender, None, request_id, order.id)])
    } else if escrow_bar(order, released) is Some {
        Ruling { order, dispute, result: escrow_bar(order, released)->0 }
    } else {
        Ruling {
            order: Order { status: Status::CanceledByAdmin, ..order },
            dispute: refunded(dispute, order.id),
            result: Ok(
                seq![Effect::PublishOrder, answer(sender, Notice::AdminCanceled, request_id)]
                    + tell_parties(order, Notice::AdminCanceled),
            ),
        }
    }
}

/// The one refusal of `sender`'s request about the order `order_id`.
fn refusal(sender: PubKey, reason: Option<CantDoReason>, request_id: Option<u64>, order_id: u128) -> (r:
    Result<Vec<Effect>, Fault>)
    ensures
        view_of(r) == Ok::<Seq<Effect>, Fault>(seq![refuse(sender, reason, request_id, order_id)]),
{
    let mut effects: Vec<Effect> = Vec::new();
    effects.push(Effect::CantDo { to: sender, reason, request_id, order_id: Some(order_id) });
    Ok(effects)
}

/// The one effect `effect`.
fn only(effect: Effect) -> (r: Result<Vec<Effect>, Fault>)
    ensures
        view_of(r) == Ok::<Seq<Effect>, Fault>(seq![effect]),
{
    let mut effects: Vec<Effect> = Vec::new();
    effects.push(effect);
    Ok(effects)
}

/// Whether `sender` is the admin or the solver assigned to the order's dispute.
fn may_resolve(
    order: &Order,
    dispute: &Option<Dispute>,
    admin: PubKey,
    sender: PubKey,
) -> (r: bool)
    ensures
        r == may_decide(admin, *dispute, order.id, sender),
{
    if sender == admin {
        return true;
    }
    match dispute {
        Some(d) => match d.solver_pubkey {
            Some(solver) => d.order_id == order.id && solver == sender,
            None => false,
        },
        None => false,
    }
}

/// Handles a `Dispute` request. See `dispute_ruling`.
pub fn dispute_action(
    order: &mut Order,
    dispute: &mut Option<Dispute>,
    sender: PubKey,
    request_id: Option<u64>,
    dispute_id: u128,
    now: u64,
) -> (r: Result<Vec<Effect>, Fault>)
    ensures
        ruled(
            *final(order),
            *final(dispute),
            r,
            dispute_ruling(*old(order), *old(dispute), sender, request_id, dispute_id, now),
        ),
        old(order).wf() ==> final(order).wf(),
{
    if !order.is_participant(sender) {
        return Ok(Vec::new());
    }
    let open = order.status == Status::Active || order.status == Status::FiatSent;
    if !open || dispute.is_some() {
        return refusal(sender, None, request_id, order.id);
    }
    let seller = match order.seller_pubkey {
        Some(seller) => seller,
        None => { return Err(Fault::MissingSellerPubkey); },
    };
    let buyer = match order.buyer_pubkey {
        Some(buyer) => buyer,
        None => { return Err(Fault::MissingBuyerPubkey); },
    };
    let peer = if order.is_buyer(sender) { seller } else { buyer };
    order.status = Status::Dispute;
    *dispute = Some(
        Dispute {
            id: dispute_id,
            order_id: order.id,
            status: DisputeStatus::Initiated,
            solver_pubkey: None,
            created_at: now,
        },
    );
    let mut effects: Vec<Effect> = Vec::new();
    effects.push(Effect::PublishOrder);
    effects.push(Effect::PublishDispute);
    effects.push(Effect::Notify { to: sender, notice: Notice::DisputeInitiatedByYou, request_id });
    effects.push(
        Effect::Notify { to: peer, notice: Notice::DisputeInitiatedByPeer, request_id: None },
    );
    assert(effects@ =~= seq![
        Effect::PublishOrder,
        Effect::PublishDispute,
        answer(sender, Notice::DisputeInitiatedByYou, request_id),
        tell(peer, Notice::DisputeInitiatedByPeer),
    ]);
    Ok(effects)
}

/// Handles an `AdminTakeDispute` request. See `admin_take_dispute_ruling`.
pub fn admin_take_dispute_action(
    order: &Order,
    dispute: &mut Option<Dispute>,
    registry: &SolverRegistry,
    sender: PubKey,
    request_id: Option<u64>,
) -> (r: Result<Vec<Effect>, Fault>)
    ensures
        ruled(
            *order,
            *final(dispute),
            r,
            admin_take_dispute_ruling(*order, *old(dispute), registry@.solvers, sender, request_id),
        ),
{
    if !registry.contains(sender) {
        return refusal(sender, Some(CantDoReason::NotAuthorized), request_id, order.id);
    }
    let found = match dispute {
        Some(d) => *d,
        None => { return refusal(sender, None, request_id, order.id); },
    };
    if found.order_id != order.id || found.status != DisputeStatus::Initiated {
        return refusal(sender, None, request_id, order.id);
    }
    let seller = match order.seller_pubkey {
        Some(seller) => seller,
        None => { return Err(Fault::MissingSellerPubkey); },
    };
    let buyer = match order.buyer_pubkey {
        Some(buyer) => buyer,
        None => { return Err(Fault::MissingBuyerPubkey); },
    };
    *dispute = Some(
        Dispute {
            id: found.id,
            order_id: found.order_id,
            status: DisputeStatus::InProgress,
            solver_pubkey: Some(sender),
            created_at: found.created_at,
        },
    );
    let mut effects: Vec<Effect> = Vec::new();
    effects.push(Effect::Notify { to: sender, notice: Notice::AdminTookDispute, request_id });
    effects.push(Effect::Notify { to: buyer, notice: Notice::AdminTookDispute, request_id: None });
    effects.push(Effect::Notify { to: seller, notice: Notice::AdminTookDispute, request_id: None });
    assert(effects@ =~= seq![
        answer(sender, Notice::AdminTookDispute, request_id),
        tell(buyer, Notice::AdminTookDispute),
        tell(seller, Notice::AdminTookDispute),
    ]);
    Ok(effects)
}

/// Handles an `AdminSettle` request. See `admin_settle_ruling`.
///
/// While the result is the single effect `SettleHoldInvoice`, the caller has
/// the hold invoice settled and calls again with the preimage in `settled`.
pub fn admin_settle_action(
    order: &mut Order,
    dispute: &mut Option<Dispute>,
    registry: &SolverRegistry,
    sender: PubKey,
    request_id: Option<u64>,
    settled: Option<Bits256>,
) -> (r: Result<Vec<Effect>, Fault>)
    ensures
        ruled(
            *final(order),
            *final(dispute),
            r,
            admin_settle_ruling(
                *old(order),
                *old(dispute),
                registry.admin,
                sender,
                request_id,
                settled,
            ),
        ),
        old(order).wf() ==> final(order).wf(),
{
    if !may_resolve(order, dispute, registry.admin, sender) {
        return refusal(sender, Some(CantDoReason::NotAuthorized), request_id, order.id);
    }
    let found = match dispute {
        Some(d) => *d,
        None => { return refusal(sender, None, request_id, order.id); },
    };
    let (buyer, seller) = match (order.buyer_pubkey, order.seller_pubkey) {
        (Some(buyer), Some(seller)) => (buyer, seller),
        _ => { return refusal(sender, None, request_id, order.id); },
    };
    if order.status != Status::Dispute || found.order_id != order.id || order.hash.is_none() {
        return refusal(sender, None, request_id, order.id);
    }
    if settled.is_none() {
        return only(Effect::SettleHoldInvoice);
    }
    order.status = Status::SettledByAdmin;
    order.preimage = settled;
    *dispute = Some(
        Dispute {
            id: found.id,
            order_id: found.order_id,
            status: DisputeStatus::Settled,
            solver_pubkey: found.solver_pubkey,
            created_at: found.created_at,
        },
    );
    let mut effects: Vec<Effect> = Vec::new();
    effects.push(Effect::PublishOrder);
    effects.push(Effect::Notify { to: sender, notice: Notice::AdminSettled, request_id });
    effects.push(Effect::Notify { to: buyer, notice: Notice::AdminSettled, request_id: None });
    effects.push(Effect::Notify { to: seller, notice: Notice::AdminSettled, request_id: None });
    if order.buyer_invoice.is_some() {
        effects.push(Effect::PayBuyerInvoice);
    }
    assert(effects@ =~= seq![
        Effect::PublishOrder,
        answer(sender, Notice::AdminSettled, request_id),
        tell(buyer, Notice::AdminSettled),
        tell(seller, Notice::AdminSettled),
    ] + payout(*old(order)));
    Ok(effects)
}

/// Handles an `AdminCancel` request. See `admin_cancel_ruling`.
///
/// While the result is the single effect `CancelHoldInvoice`, the caller has
/// the hold invoice cancelled and calls again with the result in `released`.
pub fn admin_cancel_action(
    order: &mut Order,
    dispute: &mut Option<Dispute>,
    registry: &SolverRegistry,
    sender: PubKey,
    request_id: Option<u64>,
    released: Option<bool>,
) -> (r: Result<Vec<Effect>, Fault>)
    ensures
        ruled(
            *final(order),
            *final(dispute),
            r,
            admin_cancel_ruling(
                *old(order),
                *old(dispute),
                registry.admin,
                sender,
                request_id,
                released,
            ),
        ),
        old(order).wf() ==> final(order).wf(),
{
    if !may_resolve(order, dispute, registry.admin, sender) {
        return refusal(sender, Some(CantDoReason::NotAuthorized), request_id, order.id);
    }
    if order.status.is_canceled() {
        return refusal(sender, Some(CantDoReason::OrderAlreadyCanceled), request_id, order.id);
    }
    if order.status.is_closed() {
        return refusal(sender, None, request_id, order.id);
    }
    if let Some(stop) = check_escrow(order, released) {
        return stop;
    }
    let mut effects: Vec<Effect> = Vec::new();
    effects.push(Effect::PublishOrder);
    effects.push(Effect::Notify { to: sender, notice: Notice::AdminCanceled, request_id });
    if let Some(buyer) = order.buyer_pubkey {
        effects.push(Effect::Notify { to: buyer, notice: Notice::AdminCanceled, request_id: None });
    }
    if let Some(seller) = order.seller_pubkey {
        effects.push(
            Effect::Notify { to: seller, notice: Notice::AdminCanceled, request_id: None },
        );
    }
    assert(effects@ =~= seq![
        Effect::PublishOrder,
        answer(sender, Notice::AdminCanceled, request_id),
    ] + tell_parties(*old(order), Notice::AdminCanceled));
    order.status = Status::CanceledByAdmin;
    if let Some(d) = *dispute {
        if d.order_id == order.id {
            *dispute = Some(
                Dispute {
                    id: d.id,
                    order_id: d.order_id,
                    status: DisputeStatus::SellerRefunded,
                    solver_pubkey: d.solver_pubkey,
                    created_at: d.created_at,
                },
            );
        }
    }
    Ok(effects)
}

/// An `AdminAddSolver` request: the admin, and no one else, adds `solver` to
/// the registry. Adding a solver who is registered changes nothing.
pub fn admin_add_solver_action(
    registry: &mut SolverRegistry,
    sender: PubKey,
    request_id: Option<u64>,
    solver: PubKey,
) -> (effects: Vec<Effect>)
    ensures
        final(registry).admin == old(registry).admin,
        sender == old(registry).admin ==> final(registry)@.solvers == old(
            registry,
        )@.solvers.insert(solver) && final(registry).solvers@ == (if old(registry)@.solvers.contains(solver) {
            old(registry).solvers@
        } else {
            old(registry).solvers@.push(solver)
        }) && effects@ == seq![answer(sender, Notice::AdminAddSolver, request_id)],
        sender != old(registry).admin ==> final(registry).solvers@ == old(registry).solvers@
            && effects@ == seq![
            refuse_plain(sender, Some(CantDoReason::NotAuthorized), request_id),
        ],
        old(registry).solvers@.no_duplicates() ==> final(registry).solvers@.no_duplicates(),
{
    let mut effects: Vec<Effect> = Vec::new();
    if sender != registry.admin {
        effects.push(
            Effect::CantDo {
                to: sender,
                reason: Some(CantDoReason::NotAuthorized),
                request_id,
                order_id: None,
            },
        );
        return effects;
    }
    if !registry.contains(solver) {
        registry.solvers.push(solver);
        proof {
            let before = old(registry).solvers@;
            assert(registry.solvers@ == before.push(solver));
            assert(before.push(solver).to_set() =~= before.to_set().insert(solver)) by {
                assert forall|k: PubKey| #[trigger]
                    before.push(solver).to_set().contains(k) <==> before.to_set().insert(
                        solver,
                    ).contains(k) by {
                    if before.push(solver).contains(k) {
                        let i = choose|i: int|
                            0 <= i < before.push(solver).len() && before.push(solver)[i] == k;
                        if i < before.len() {
                            assert(before[i] == k);
                            assert(before.contains(k));
                        }
                    }
                    if before.contains(k) {
                        let i = choose|i: int| 0 <= i < before.len() && before[i] == k;
                        assert(before.push(solver)[i] == k);
                    }
                    if k == solver {
                        assert(before.push(solver)[before.len() as int] == k);
                    }
                }
            }
            if before.no_duplicates() {
                assert(!before.contains(solver));
                assert forall|i: int, j: int|
                    0 <= i < before.push(solver).len() && 0 <= j < before.push(solver).len() && i
                        != j implies before.push(solver)[i] != before.push(solver)[j] by {
                    if i < before.len() && j < before.len() {
                    } else if i < before.len() {
                        assert(before.contains(before[i]));
                    } else if j < before.len() {
                        assert(before.contains(before[j]));
                    }
                }
            }
        }
    } else {
        assert(registry@.solvers.insert(solver) =~= registry@.solvers);
    }
    effects.push(Effect::Notify { to: sender, notice: Notice::AdminAddSolver, request_id });
    effects
}

} // verus!
