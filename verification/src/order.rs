//! The order: the central record of a trade, its well-formedness, and the
//! roles that an identity key can have in it.

use vstd::prelude::*;

verus! {

/// Identity key of a party: the 32 bytes of an x-only public key, read as two
/// 128-bit halves, most significant first.
#[derive(Clone, Copy, Debug, PartialEq, Eq, Structural, Hash)]
pub struct PubKey {
    pub hi: u128,
    pub lo: u128,
}

/// A 32-byte correlator (payment hash, preimage, event id), read as two
/// 128-bit halves, most significant first.
#[derive(Clone, Copy, Debug, PartialEq, Eq, Structural, Hash)]
pub struct Bits256 {
    pub hi: u128,
    pub lo: u128,
}

/// The number that `bytes` spell, most significant byte first.
pub open spec fn be_value(bytes: Seq<u8>) -> nat
    decreases bytes.len(),
{
    if bytes.len() == 0 {
        0
    } else {
        be_value(bytes.drop_last()) * 256 + bytes.last() as nat
    }
}

/// 256 to the power of `len`.
spec fn radix(len: nat) -> nat
    decreases len,
{
    if len == 0 {
        1
    } else {
        256 * radix((len - 1) as nat)
    }
}

proof fn lemma_be_value_fits(bytes: Seq<u8>)
    ensures
        be_value(bytes) < radix(bytes.len()),
    decreases bytes.len(),
{
    if bytes.len() > 0 {
        lemma_be_value_fits(bytes.drop_last());
    }
}

proof fn lemma_radix_grows(a: nat, b: nat)
    requires
        a <= b,
    ensures
        radix(a) <= radix(b),
        radix(a) >= 1,
    decreases b,
{
    if a < b {
        lemma_radix_grows(a, (b - 1) as nat);
    } else if a > 0 {
        lemma_radix_grows((a - 1) as nat, (a - 1) as nat);
    }
}

/// The 16 bytes of `bytes` from `from` on, read as one number.
fn read_half(bytes: &[u8; 32], from: usize) -> (r: u128)
    requires
        from == 0 || from == 16,
    ensures
        r as nat == be_value(bytes@.subrange(from as int, from + 16)),
{
    let mut acc: u128 = 0;
    let mut i: usize = 0;
    while i < 16
        invariant
            i <= 16,
            from == 0 || from == 16,
            acc as nat == be_value(bytes@.subrange(from as int, from + i)),
        decreases 16 - i,
    {
        proof {
            let so_far = bytes@.subrange(from as int, from + i);
            let grown = bytes@.subrange(from as int, from + i + 1);
            assert(grown.drop_last() =~= so_far);
            assert(grown.last() == bytes@[from + i]);
            lemma_be_value_fits(so_far);
            lemma_radix_grows(i as nat, 15);
            assert(radix(15) == 0x1_00_0000_0000_0000_0000_0000_0000_0000) by {
                reveal_with_fuel(radix, 16);
            }
        }
        acc = acc * 256 + bytes[from + i] as u128;
        i += 1;
    }
    acc
}

impl PubKey {
    /// The key that 32 bytes spell.
    pub open spec fn spelled(bytes: Seq<u8>) -> PubKey {
        PubKey {
            hi: be_value(bytes.subrange(0, 16)) as u128,
            lo: be_value(bytes.subrange(16, 32)) as u128,
        }
    }

    /// Reads a key from the 32 bytes of an x-only public key.
    pub fn from_bytes(bytes: &[u8; 32]) -> (key: PubKey)
        ensures
            key == PubKey::spelled(bytes@),
    {
        PubKey { hi: read_half(bytes, 0), lo: read_half(bytes, 16) }
    }
}

impl Bits256 {
    /// The value that 32 bytes spell.
    pub open spec fn spelled(bytes: Seq<u8>) -> Bits256 {
        Bits256 {
            hi: be_value(bytes.subrange(0, 16)) as u128,
            lo: be_value(bytes.subrange(16, 32)) as u128,
        }
    }

    /// Reads a value from 32 bytes.
    pub fn from_bytes(bytes: &[u8; 32]) -> (value: Bits256)
        ensures
            value == Bits256::spelled(bytes@),
    {
        Bits256 { hi: read_half(bytes, 0), lo: read_half(bytes, 16) }
    }
}

/// From whose side the creator of an order speaks.
#[derive(Clone, Copy, Debug, PartialEq, Eq, Structural, Hash)]
pub enum Kind {
    Buy,
    Sell,
}

/// Where an order stands in its life.
#[derive(Clone, Copy, Debug, PartialEq, Eq, Structural, Hash)]
pub enum Status {
    Pending,
    WaitingPayment,
    WaitingBuyerInvoice,
    Active,
    FiatSent,
    Settled,
    Completed,
    Dispute,
    Canceled,
    CooperativelyCanceled,
    CanceledByAdmin,
    SettledByAdmin,
    Expired,
}

impl Status {
    /// The three ways an order ends by cancellation.
    pub open spec fn spec_is_canceled(self) -> bool {
        self == Status::Canceled || self == Status::CooperativelyCanceled || self
            == Status::CanceledByAdmin
    }

    /// The states in which both parties are bound and a cooperative cancel is
    /// the only way out for them.
    pub open spec fn spec_is_live(self) -> bool {
        self == Status::Active || self == Status::FiatSent || self == Status::Dispute
    }

    /// The states in which the escrow has been decided or given up: the hold
    /// invoice is settled, cancelled or run out, so that no cancel can return
    /// it any more. Nothing moves an order out of these but the payout that
    /// completes a settled one.
    pub open spec fn spec_is_closed(self) -> bool {
        self.spec_is_canceled() || self == Status::Settled || self == Status::Completed || self
            == Status::SettledByAdmin || self == Status::Expired
    }

    /// The states reached only once a taker has joined and has not walked away.
    pub open spec fn spec_is_taken(self) -> bool {
        self == Status::WaitingPayment || self == Status::WaitingBuyerInvoice || self.spec_is_live()
            || self == Status::Settled || self == Status::Completed || self
            == Status::SettledByAdmin || self == Status::CooperativelyCanceled
    }

    /// The states in which the seller's hold invoice has been accepted.
    pub open spec fn spec_is_funded(self) -> bool {
        self.spec_is_live() || self == Status::Settled || self == Status::Completed || self
            == Status::SettledByAdmin
    }

    #[verifier::when_used_as_spec(spec_is_canceled)]
    pub fn is_canceled(self) -> (r: bool)
        ensures
            r == self.spec_is_canceled(),
    {
        match self {
            Status::Canceled | Status::CooperativelyCanceled | Status::CanceledByAdmin => true,
            _ => false,
        }
    }

    #[verifier::when_used_as_spec(spec_is_live)]
    pub fn is_live(self) -> (r: bool)
        ensures
            r == self.spec_is_live(),
    {
        match self {
            Status::Active | Status::FiatSent | Status::Dispute => true,
            _ => false,
        }
    }

    #[verifier::when_used_as_spec(spec_is_closed)]
    pub fn is_closed(self) -> (r: bool)
        ensures
            r == self.spec_is_closed(),
    {
        match self {
            Status::Canceled
            | Status::CooperativelyCanceled
            | Status::CanceledByAdmin
            | Status::Settled
            | Status::Completed
            | Status::SettledByAdmin
            | Status::Expired => true,
            _ => false,
        }
    }
}

/// The central record of a trade.
#[derive(Clone, Debug, PartialEq, Eq)]
pub struct Order {
    /// Unique identifier.
    pub id: u128,
    pub kind: Kind,
    pub status: Status,
    /// Identity that created the order; never changes.
    pub creator_pubkey: PubKey,
    /// Trading keys of the two sides; the taker's is unset until the take.
    pub buyer_pubkey: Option<PubKey>,
    pub seller_pubkey: Option<PubKey>,
    /// Long-lived identities of the two sides, for reputation.
    pub master_buyer_pubkey: Option<PubKey>,
    pub master_seller_pubkey: Option<PubKey>,
    pub fiat_code: String,
    /// Fixed fiat amount; 0 on a range order.
    pub fiat_amount: i64,
    /// Bounds of a range order.
    pub min_amount: Option<i64>,
    pub max_amount: Option<i64>,
    /// Satoshis traded and the fee on them; 0 while the price is still open.
    pub amount: i64,
    pub fee: i64,
    /// Percentage applied when the price comes from the oracle.
    pub premium: i64,
    pub payment_method: String,
    /// True while the satoshi amount is fixed only at take time.
    pub price_from_api: bool,
    /// Hold-invoice correlator, set when the seller's hold invoice is issued.
    pub hash: Option<Bits256>,
    /// Revealed when the hold invoice is settled.
    pub preimage: Option<Bits256>,
    /// Where the buyer is paid: a bolt11 invoice or a lightning address.
    pub buyer_invoice: Option<String>,
    /// Who asked first for a cooperative cancel; set at most once.
    pub cancel_initiator_pubkey: Option<PubKey>,
    pub buyer_cooperativecancel: bool,
    pub seller_cooperativecancel: bool,
    /// Counters that the two sides prove with each message.
    pub trade_index_buyer: Option<i64>,
    pub trade_index_seller: Option<i64>,
    /// Id of the most recently published event that describes this order.
    pub event_id: Option<Bits256>,
    /// Whether each side has rated the other once the trade was completed.
    pub buyer_sent_rate: bool,
    pub seller_sent_rate: bool,
}

impl Order {
    pub open spec fn spec_is_buyer(&self, key: PubKey) -> bool {
        self.buyer_pubkey == Some(key)
    }

    pub open spec fn spec_is_seller(&self, key: PubKey) -> bool {
        self.seller_pubkey == Some(key)
    }

    pub open spec fn spec_is_creator(&self, key: PubKey) -> bool {
        self.creator_pubkey == key
    }

    /// A participant is the buyer or the seller; everyone else is a stranger
    /// to the order.
    pub open spec fn spec_is_participant(&self, key: PubKey) -> bool {
        self.spec_is_buyer(key) || self.spec_is_seller(key)
    }

    /// A range order offers any fiat amount between two bounds.
    pub open spec fn spec_is_range(&self) -> bool {
        self.min_amount is Some && self.max_amount is Some
    }

    /// The key of the side that the creator does not hold.
    pub open spec fn taker(&self) -> Option<PubKey> {
        match self.kind {
            Kind::Sell => self.buyer_pubkey,
            Kind::Buy => self.seller_pubkey,
        }
    }

    /// The key of the side that the creator holds.
    pub open spec fn maker(&self) -> Option<PubKey> {
        match self.kind {
            Kind::Sell => self.seller_pubkey,
            Kind::Buy => self.buyer_pubkey,
        }
    }

    /// What holds of every order that the state machine has produced.
    pub open spec fn wf(&self) -> bool {
        // The creator holds the side that the kind names.
        &&& self.maker() == Some(self.creator_pubkey)
        // After a take, exactly one of buyer and seller is the creator.
        &&& self.taker() != Some(self.creator_pubkey)
        // A taker is there in exactly the states that need one.
        &&& self.status.spec_is_taken() ==> self.taker() is Some
        &&& self.status == Status::Pending ==> self.taker() is None
        // The hold invoice is known from the moment it is waited for.
        &&& self.status == Status::WaitingPayment || self.status.spec_is_funded() ==> self.hash is Some
        &&& self.status == Status::Settled || self.status == Status::Completed
            || self.status == Status::SettledByAdmin ==> self.preimage is Some
        // A range order carries no amounts of its own and is never itself taken.
        &&& self.spec_is_range() ==> self.amount == 0 && self.fiat_amount == 0
            && self.min_amount->0 < self.max_amount->0
            && !self.status.spec_is_taken()
        // Cooperative-cancel bookkeeping.
        &&& self.cancel_initiator_pubkey matches Some(k) ==> self.spec_is_participant(k)
        &&& self.cancel_initiator_pubkey is Some ==> self.status.spec_is_live()
            || self.status.spec_is_closed()
        &&& self.cancel_initiator_pubkey is None ==> !self.buyer_cooperativecancel
            && !self.seller_cooperativecancel
        &&& self.cancel_initiator_pubkey matches Some(k) ==> (self.spec_is_buyer(k)
            ==> self.buyer_cooperativecancel) && (!self.spec_is_buyer(k)
            ==> self.seller_cooperativecancel)
        &&& self.status == Status::CooperativelyCanceled ==> self.cancel_initiator_pubkey is Some
            && self.buyer_cooperativecancel && self.seller_cooperativecancel
    }

    #[verifier::when_used_as_spec(spec_is_buyer)]
    pub fn is_buyer(&self, key: PubKey) -> (r: bool)
        ensures
            r == self.spec_is_buyer(key),
    {
        match self.buyer_pubkey {
            Some(k) => k == key,
            None => false,
        }
    }

    #[verifier::when_used_as_spec(spec_is_seller)]
    pub fn is_seller(&self, key: PubKey) -> (r: bool)
        ensures
            r == self.spec_is_seller(key),
    {
        match self.seller_pubkey {
            Some(k) => k == key,
            None => false,
        }
    }

    #[verifier::when_used_as_spec(spec_is_creator)]
    pub fn is_creator(&self, key: PubKey) -> (r: bool)
        ensures
            r == self.spec_is_creator(key),
    {
        self.creator_pubkey == key
    }

    #[verifier::when_used_as_spec(spec_is_participant)]
    pub fn is_participant(&self, key: PubKey) -> (r: bool)
        ensures
            r == self.spec_is_participant(key),
    {
        self.is_buyer(key) || self.is_seller(key)
    }

    #[verifier::when_used_as_spec(spec_is_range)]
    pub fn is_range(&self) -> (r: bool)
        ensures
            r == self.spec_is_range(),
    {
        self.min_amount.is_some() && self.max_amount.is_some()
    }

    /// Checks an order that comes from outside the state machine, such as a
    /// row read from storage, for well-formedness. See `wf`.
    pub fn is_well_formed(&self) -> (r: bool)
        ensures
            r == self.wf(),
    {
        let (maker, taker) = match self.kind {
            Kind::Sell => (self.seller_pubkey, self.buyer_pubkey),
            Kind::Buy => (self.buyer_pubkey, self.seller_pubkey),
        };
        let made_by_creator = match maker {
            Some(key) => key == self.creator_pubkey,
            None => false,
        };
        let taken_by_creator = match taker {
            Some(key) => key == self.creator_pubkey,
            None => false,
        };
        let live = self.status.is_live();
        let funded = live || match self.status {
            Status::Settled | Status::Completed | Status::SettledByAdmin => true,
            _ => false,
        };
        let taken = funded || match self.status {
            Status::WaitingPayment | Status::WaitingBuyerInvoice | Status::CooperativelyCanceled => true,
            _ => false,
        };
        let settled = match self.status {
            Status::Settled | Status::Completed | Status::SettledByAdmin => true,
            _ => false,
        };
        let range_in_order = match (self.min_amount, self.max_amount) {
            (Some(min), Some(max)) => self.amount == 0 && self.fiat_amount == 0 && min < max
                && !taken,
            _ => true,
        };
        let books_in_order = match self.cancel_initiator_pubkey {
            Some(key) => {
                let by_buyer = self.is_buyer(key);
                self.is_participant(key) && (live || self.status.is_closed()) && (if by_buyer {
                    self.buyer_cooperativecancel
                } else {
                    self.seller_cooperativecancel
                })
            },
            None => !self.buyer_cooperativecancel && !self.seller_cooperativecancel,
        };
        let cancelled_by_both = self.status != Status::CooperativelyCanceled || (
        self.cancel_initiator_pubkey.is_some() && self.buyer_cooperativecancel
            && self.seller_cooperativecancel);
        made_by_creator && !taken_by_creator && (!taken || taker.is_some()) && (self.status
            != Status::Pending || taker.is_none()) && (!(self.status == Status::WaitingPayment
            || funded) || self.hash.is_some()) && (!settled || self.preimage.is_some())
            && range_in_order && books_in_order && cancelled_by_both
    }
}

} // verus!
