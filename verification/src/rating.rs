//! Reputation: ratings that the parties of a completed trade give each other
//! are gathered in a buffer and handed on in batches.

use vstd::prelude::*;
use crate::cancel::{came_to, unchanged, Outcome};
use crate::effect::{answer, refuse, CantDoReason, Effect, Fault, Notice};
use crate::order::{Order, PubKey, Status};

verus! {

/// One party's rating of the other after a trade.
#[derive(Clone, Copy, Debug, PartialEq, Eq, Hash)]
pub struct Rating {
    pub order_id: u128,
    /// Who rates: a trading key of the order.
    pub rater: PubKey,
    /// Who is rated: the long-lived identity of the other party, or its
    /// trading key where the order knows no other.
    pub rated: PubKey,
    /// One to five.
    pub stars: u8,
}

/// Ratings that wait to be published.
#[derive(Clone, Debug, PartialEq, Eq)]
pub struct RateBuffer {
    pub pending: Vec<Rating>,
}

/// How an identity was rated: how often, and the sum of the stars.
#[derive(Clone, Copy, Debug, PartialEq, Eq)]
pub struct Tally {
    pub count: u64,
    pub total: u128,
}

/// The identity under which the other party of `sender` is rated.
pub open spec fn rated_party(order: Order, sender: PubKey) -> PubKey {
    if order.spec_is_buyer(sender) {
        match order.master_seller_pubkey {
            Some(master) => master,
            None => order.seller_pubkey->0,
        }
    } else {
        match order.master_buyer_pubkey {
            Some(master) => master,
            None => order.buyer_pubkey->0,
        }
    }
}

/// Whether `sender`'s side has rated already.
pub open spec fn has_rated(order: Order, sender: PubKey) -> bool {
    if order.spec_is_buyer(sender) {
        order.buyer_sent_rate
    } else {
        order.seller_sent_rate
    }
}

/// Why `sender` cannot rate with `stars`, if that is so: the trade is not
/// completed or the sender has rated already (refused without a reason), or
/// the stars are not one to five (`InvalidParameters`).
pub open spec fn rating_flaw(order: Order, sender: PubKey, stars: u8) -> Option<Option<CantDoReason>> {
    if order.status != Status::Completed || has_rated(order, sender) {
        Some(None)
    } else if stars < 1 || stars > 5 {
        Some(Some(CantDoReason::InvalidParameters))
    } else {
        None
    }
}

/// The rating that `sender` gives with `stars`.
pub open spec fn rating_of(order: Order, sender: PubKey, stars: u8) -> Rating {
    Rating { order_id: order.id, rater: sender, rated: rated_party(order, sender), stars }
}

/// True when the request of `sender` adds a rating to the buffer.
pub open spec fn rates(order: Order, sender: PubKey, stars: u8) -> bool {
    &&& order.spec_is_participant(sender)
    &&& order.buyer_pubkey is Some
    &&& order.seller_pubkey is Some
    &&& rating_flaw(order, sender, stars) is None
}

/// A `RateUser` request: a party of a completed trade rates the other, once.
///
/// A stranger is told nothing; a request with a flaw is refused. A rating that
/// is taken is marked on the order and acknowledged to its sender.
pub open spec fn rate_user_outcome(
    order: Order,
    sender: PubKey,
    request_id: Option<u64>,
    stars: u8,
) -> Outcome {
    if !order.spec_is_participant(sender) {
        unchanged(order, Seq::empty())
    } else if order.seller_pubkey is None {
        Outcome { order, result: Err(Fault::MissingSellerPubkey) }
    } else if order.buyer_pubkey is None {
        Outcome { order, result: Err(Fault::MissingBuyerPubkey) }
    } else if rating_flaw(order, sender, stars) is Some {
        unchanged(
            order,
            seq![refuse(sender, rating_flaw(order, sender, stars)->0, request_id, order.id)],
        )
    } else {
        Outcome {
            order: if order.spec_is_buyer(sender) {
                Order { buyer_sent_rate: true, ..order }
            } else {
                Order { seller_sent_rate: true, ..order }
            },
            result: Ok(seq![answer(sender, Notice::RateReceived, request_id)]),
        }
    }
}

/// How often `who` is rated in `ratings`.
pub open spec fn times_rated(ratings: Seq<Rating>, who: PubKey) -> nat
    decreases ratings.len(),
{
    if ratings.len() == 0 {
        0
    } else {
        times_rated(ratings.drop_last(), who) + if ratings.last().rated == who {
            1nat
        } else {
            0nat
        }
    }
}

/// The sum of the stars that `who` was given in `ratings`.
pub open spec fn stars_given(ratings: Seq<Rating>, who: PubKey) -> nat
    decreases ratings.len(),
{
    if ratings.len() == 0 {
        0
    } else {
        stars_given(ratings.drop_last(), who) + if ratings.last().rated == who {
            ratings.last().stars as nat
        } else {
            0nat
        }
    }
}

impl RateBuffer {
    /// An empty buffer.
    pub fn new() -> (buffer: RateBuffer)
        ensures
            buffer.pending@ == Seq::<Rating>::empty(),
    {
        RateBuffer { pending: Vec::new() }
    }

    /// Hands out the ratings that wait, oldest first, and empties the buffer.
    pub fn flush(&mut self) -> (batch: Vec<Rating>)
        ensures
            batch@ == old(self).pending@,
            final(self).pending@ == Seq::<Rating>::empty(),
    {
        let mut batch: Vec<Rating> = Vec::new();
        std::mem::swap(&mut self.pending, &mut batch);
        batch
    }
}

/// Handles a `RateUser` request. See `rate_user_outcome`; a rating that is
/// taken is appended to the buffer.
pub fn rate_user_action(
    order: &mut Order,
    buffer: &mut RateBuffer,
    sender: PubKey,
    request_id: Option<u64>,
    stars: u8,
) -> (r: Result<Vec<Effect>, Fault>)
    ensures
        came_to(*final(order), r, rate_user_outcome(*old(order), sender, request_id, stars)),
        final(buffer).pending@ == if rates(*old(order), sender, stars) {
            old(buffer).pending@.push(rating_of(*old(order), sender, stars))
        } else {
            old(buffer).pending@
        },
        old(order).wf() ==> final(order).wf(),
{
    if !order.is_participant(sender) {
        return Ok(Vec::new());
    }
    let seller = match order.seller_pubkey {
        Some(seller) => seller,
        None => { return Err(Fault::MissingSellerPubkey); },
    };
    let buyer = match order.buyer_pubkey {
        Some(buyer) => buyer,
        None => { return Err(Fault::MissingBuyerPubkey); },
    };
    let by_buyer = order.is_buyer(sender);
    let rated_already = if by_buyer { order.buyer_sent_rate } else { order.seller_sent_rate };
    let mut effects: Vec<Effect> = Vec::new();
    if order.status != Status::Completed || rated_already {
        effects.push(
            Effect::CantDo { to: sender, reason: None, request_id, order_id: Some(order.id) },
        );
        return Ok(effects);
    }
    if stars < 1 || stars > 5 {
        effects.push(
            Effect::CantDo {
                to: sender,
                reason: Some(CantDoReason::InvalidParameters),
                request_id,
                order_id: Some(order.id),
            },
        );
        return Ok(effects);
    }
    let rated = if by_buyer {
        match order.master_seller_pubkey {
            Some(master) => master,
            None => seller,
        }
    } else {
        match order.master_buyer_pubkey {
            Some(master) => master,
            None => buyer,
        }
    };
    buffer.pending.push(Rating { order_id: order.id, rater: sender, rated, stars });
    if by_buyer {
        order.buyer_sent_rate = true;
    } else {
        order.seller_sent_rate = true;
    }
    effects.push(Effect::Notify { to: sender, notice: Notice::RateReceived, request_id });
    Ok(effects)
}

/// Sums up how `who` was rated in a batch of ratings.
pub fn tally(ratings: &Vec<Rating>, who: PubKey) -> (t: Tally)
    ensures
        t.count as nat == times_rated(ratings@, who),
        t.total as nat == stars_given(ratings@, who),
{
    let mut count: u64 = 0;
    let mut total: u128 = 0;
    let mut i: usize = 0;
    while i < ratings.len()
        invariant
            i <= ratings.len(),
            count as nat == times_rated(ratings@.take(i as int), who),
            total as nat == stars_given(ratings@.take(i as int), who),
            count <= i,
            total <= 255 * i,
        decreases ratings.len() - i,
    {
        proof {
            let grown = ratings@.take(i as int + 1);
            assert(grown.drop_last() =~= ratings@.take(i as int));
            assert(grown.last() == ratings@[i as int]);
        }
        if ratings[i].rated == who {
            count = count + 1;
            total = total + ratings[i].stars as u128;
        }
        i += 1;
    }
    proof {
        assert(ratings@.take(ratings.len() as int) =~= ratings@);
    }
    Tally { count, total }
}

} // verus!
