//! The way in: what is checked of a notification from the bus before a
//! handler sees the message in it.

use vstd::prelude::*;
use crate::effect::Fault;
use crate::new_order::NewOrder;
use crate::order::{Kind, PubKey};

verus! {

/// Seconds that a message may lag behind the clock at ingress.
pub const FRESHNESS_WINDOW: i64 = 10;

/// The kind of event that carries a gift wrap.
pub const GIFT_WRAP: u16 = 1059;

/// What the state machine is asked to do: the recognised actions.
#[derive(Clone, Copy, Debug, PartialEq, Eq, Structural, Hash)]
pub enum Action {
    NewOrder,
    TakeSell,
    TakeBuy,
    AddInvoice,
    PayInvoice,
    FiatSent,
    Release,
    Cancel,
    Dispute,
    RateUser,
    AdminCancel,
    AdminSettle,
    AdminAddSolver,
    AdminTakeDispute,
}

/// The recognised action that goes by `name`, if there is one.
pub open spec fn action_named(name: Seq<char>) -> Option<Action> {
    if name == "NewOrder"@ {
        Some(Action::NewOrder)
    } else if name == "TakeSell"@ {
        Some(Action::TakeSell)
    } else if name == "TakeBuy"@ {
        Some(Action::TakeBuy)
    } else if name == "AddInvoice"@ {
        Some(Action::AddInvoice)
    } else if name == "PayInvoice"@ {
        Some(Action::PayInvoice)
    } else if name == "FiatSent"@ {
        Some(Action::FiatSent)
    } else if name == "Release"@ {
        Some(Action::Release)
    } else if name == "Cancel"@ {
        Some(Action::Cancel)
    } else if name == "Dispute"@ {
        Some(Action::Dispute)
    } else if name == "RateUser"@ {
        Some(Action::RateUser)
    } else if name == "AdminCancel"@ {
        Some(Action::AdminCancel)
    } else if name == "AdminSettle"@ {
        Some(Action::AdminSettle)
    } else if name == "AdminAddSolver"@ {
        Some(Action::AdminAddSolver)
    } else if name == "AdminTakeDispute"@ {
        Some(Action::AdminTakeDispute)
    } else {
        None
    }
}

/// Whether `name` is the text `literal`.
fn is(name: &String, literal: &str) -> (r: bool)
    ensures
        r == (name@ == literal@),
{
    let other = String::from_str(literal);
    *name == other
}

impl Action {
    /// The recognised action that goes by `name`. Any other name is unknown.
    pub fn from_name(name: &String) -> (r: Option<Action>)
        ensures
            r == action_named(name@),
    {
        if is(name, "NewOrder") {
            Some(Action::NewOrder)
        } else if is(name, "TakeSell") {
            Some(Action::TakeSell)
        } else if is(name, "TakeBuy") {
            Some(Action::TakeBuy)
        } else if is(name, "AddInvoice") {
            Some(Action::AddInvoice)
        } else if is(name, "PayInvoice") {
            Some(Action::PayInvoice)
        } else if is(name, "FiatSent") {
            Some(Action::FiatSent)
        } else if is(name, "Release") {
            Some(Action::Release)
        } else if is(name, "Cancel") {
            Some(Action::Cancel)
        } else if is(name, "Dispute") {
            Some(Action::Dispute)
        } else if is(name, "RateUser") {
            Some(Action::RateUser)
        } else if is(name, "AdminCancel") {
            Some(Action::AdminCancel)
        } else if is(name, "AdminSettle") {
            Some(Action::AdminSettle)
        } else if is(name, "AdminAddSolver") {
            Some(Action::AdminAddSolver)
        } else if is(name, "AdminTakeDispute") {
            Some(Action::AdminTakeDispute)
        } else {
            None
        }
    }
}

/// The leading zero bits of one byte.
pub open spec fn byte_leading_zeros(b: u8) -> nat {
    if b >= 128 {
        0
    } else if b >= 64 {
        1
    } else if b >= 32 {
        2
    } else if b >= 16 {
        3
    } else if b >= 8 {
        4
    } else if b >= 4 {
        5
    } else if b >= 2 {
        6
    } else if b >= 1 {
        7
    } else {
        8
    }
}

/// The number of zero bits before the first set bit of `bytes`, read from
/// the first byte on.
pub open spec fn leading_zeros(bytes: Seq<u8>) -> nat
    decreases bytes.len(),
{
    if bytes.len() == 0 {
        0
    } else if bytes[0] == 0 {
        8 + leading_zeros(bytes.skip(1))
    } else {
        byte_leading_zeros(bytes[0])
    }
}

/// The proof of work of an event id: its leading zero bits, with the 256 of
/// the all-zero id counted as 255.
pub open spec fn work(id: Seq<u8>) -> nat {
    if leading_zeros(id) > 255 {
        255
    } else {
        leading_zeros(id)
    }
}

/// Counts the leading zero bits of an event id with
/// `nostr::nips::nip13::get_leading_zero_bits`. Trusted: on 32 bytes that
/// function returns the number of zero bits before the first set bit, and
/// 255 where all 256 bits are zero.
#[verifier::external_body]
fn leading_zero_bits(id: &[u8; 32]) -> (bits: u8)
    ensures
        bits as nat == work(id@),
{
    nostr::nips::nip13::get_leading_zero_bits(id)
}

/// Reads the clock with `chrono::Utc::now` and gives the seconds since the
/// Unix epoch. Trusted: the result is not negative, since chrono measures
/// from the epoch and refuses (by panicking) a clock set before it.
#[verifier::external_body]
fn unix_now() -> (now: i64)
    ensures
        now >= 0,
{
    chrono::Utc::now().timestamp()
}

/// What is known of a notification before it is unwrapped.
#[derive(Clone, Debug, PartialEq, Eq)]
pub struct Envelope {
    /// The id of the event.
    pub id: [u8; 32],
    /// The kind of the event.
    pub kind: u16,
    /// Whether id and signature of the event were found to be right.
    pub signature_valid: bool,
}

/// The inner message of a gift wrap, as its recipient reads it.
#[derive(Clone, Debug, PartialEq, Eq)]
pub struct Rumor {
    /// The identity that sealed the message: the true sender, not the passing
    /// key that signed the wrap.
    pub sender: PubKey,
    /// The key under which the message was written, by which the handlers
    /// know who asks.
    pub author: PubKey,
    /// When the sender says the message was made, in seconds since the epoch.
    pub created_at: u64,
    pub content: String,
}

/// How far the unwrapping of a gift wrap has come.
#[derive(Clone, Debug, PartialEq, Eq)]
pub enum Gift {
    /// Not tried yet.
    Sealed,
    /// Tried in vain: the wrap is not for this node, or is broken.
    Unreadable,
    Open(Rumor),
}

/// Why a notification is dropped. The sender is told nothing.
#[derive(Clone, Copy, Debug, PartialEq, Eq, Structural, Hash)]
pub enum Discard {
    /// The event id shows less work than is asked for.
    NotEnoughWork,
    /// The event is no gift wrap.
    NotGiftWrap,
    BadSignature,
    Unreadable,
    /// The message is older than the freshness window.
    Stale,
    /// The content is no message.
    Malformed,
    /// The message does not fit its action.
    Inconsistent,
    /// The action is not one of the recognised set.
    UnknownAction,
    /// The action is recognised but kept for later use.
    Reserved,
}

/// True when a message made at `created_at` is older than the freshness
/// window allows at time `now`.
pub open spec fn stale(created_at: u64, now: i64) -> bool {
    (created_at as int) < (now as int) - (FRESHNESS_WINDOW as int)
}

/// What the checks before decoding come to.
#[derive(Clone, Copy, Debug, PartialEq, Eq, Structural, Hash)]
pub enum Screening {
    Discard(Discard),
    /// Unwrap the gift wrap and screen again.
    Unwrap,
    /// Go on to decode the content of the rumor.
    Decode,
}

/// The two checks that cost next to nothing and come first: the event id
/// must show at least `pow` bits of work, and the event must be a gift wrap.
pub open spec fn gated(id: Seq<u8>, kind: u16, pow: u8) -> Option<Discard> {
    if work(id) < pow {
        Some(Discard::NotEnoughWork)
    } else if kind != GIFT_WRAP {
        Some(Discard::NotGiftWrap)
    } else {
        None
    }
}

/// The checks before decoding, in their order: proof of work, kind,
/// signature, unwrapping, freshness.
pub open spec fn screening(envelope: Envelope, gift: Gift, pow: u8, now: i64) -> Screening {
    if gated(envelope.id@, envelope.kind, pow) is Some {
        Screening::Discard(gated(envelope.id@, envelope.kind, pow)->0)
    } else if !envelope.signature_valid {
        Screening::Discard(Discard::BadSignature)
    } else {
        match gift {
            Gift::Sealed => Screening::Unwrap,
            Gift::Unreadable => Screening::Discard(Discard::Unreadable),
            Gift::Open(rumor) => if stale(rumor.created_at, now) {
                Screening::Discard(Discard::Stale)
            } else {
                Screening::Decode
            },
        }
    }
}

/// Decides whether a message is too old. See `stale`.
pub fn is_stale(created_at: u64, now: i64) -> (r: bool)
    ensures
        r == stale(created_at, now),
{
    if now < FRESHNESS_WINDOW {
        false
    } else if created_at > 0x7fff_ffff_ffff_ffff {
        false
    } else {
        (created_at as i64) < now - FRESHNESS_WINDOW
    }
}

/// Checks proof of work and kind. See `gated`.
pub fn gate(id: &[u8; 32], kind: u16, pow: u8) -> (r: Option<Discard>)
    ensures
        r == gated(id@, kind, pow),
{
    if leading_zero_bits(id) < pow {
        Some(Discard::NotEnoughWork)
    } else if kind != GIFT_WRAP {
        Some(Discard::NotGiftWrap)
    } else {
        None
    }
}

/// Screens a notification at time `now`. See `screening`.
pub fn screen(envelope: &Envelope, gift: &Gift, pow: u8, now: i64) -> (r: Screening)
    ensures
        r == screening(*envelope, *gift, pow, now),
{
    if let Some(why) = gate(&envelope.id, envelope.kind, pow) {
        return Screening::Discard(why);
    }
    if !envelope.signature_valid {
        return Screening::Discard(Discard::BadSignature);
    }
    match gift {
        Gift::Sealed => Screening::Unwrap,
        Gift::Unreadable => Screening::Discard(Discard::Unreadable),
        Gift::Open(rumor) => {
            if is_stale(rumor.created_at, now) {
                Screening::Discard(Discard::Stale)
            } else {
                Screening::Decode
            }
        },
    }
}

/// Whatever else holds of a notification, a message older than the freshness
/// window is dropped before it is decoded.
pub proof fn theorem_stale_messages_are_dropped(envelope: Envelope, rumor: Rumor, pow: u8, now: i64)
    requires
        stale(rumor.created_at, now),
    ensures
        screening(envelope, Gift::Open(rumor), pow, now) is Discard,
{
}

/// The fields that every message carries beside its action.
#[derive(Clone, Copy, Debug, PartialEq, Eq)]
pub struct Header {
    /// The order, or the dispute, that the message is about.
    pub order_id: Option<u128>,
    /// The id by which the sender tells the answers apart.
    pub request_id: Option<u64>,
    /// The counter that the sender proves with the message.
    pub trade_index: Option<i64>,
}

/// What is read out of every message, whatever its action.
#[derive(Clone, Debug, PartialEq, Eq)]
pub struct Outline {
    /// Whether id and payload fit the action.
    pub consistent: bool,
    /// The name of the action.
    pub action: Option<String>,
    pub header: Header,
    pub payment_request: Option<String>,
    pub amount: Option<i64>,
    pub rating: Option<u8>,
    pub text: Option<String>,
}

/// What the decoder of the trade protocol reads out of a content: `None`
/// where the content is no message.
pub uninterp spec fn message_read(content: Seq<char>) -> Option<Outline>;

/// The order that the decoder of the trade protocol finds in a content:
/// `None` where the content is no message, or a message that brings no new
/// order.
pub uninterp spec fn order_read(content: Seq<char>) -> Option<NewOrder>;

/// What holds of an outline, whatever the content: the message names its
/// action, and a rating in it is one to five stars.
pub open spec fn outline_in_order(outline: Option<Outline>) -> bool {
    match outline {
        None => true,
        Some(o) => o.action is Some && match o.rating {
            Some(stars) => 1 <= stars <= 5,
            None => true,
        },
    }
}

/// Parses `content` with `mostro_core::message::Message::from_json` and reads
/// out, through the methods of `mostro_core::message::MessageKind`, whether
/// the message is consistent (`verify`), the name of its action
/// (`Message::inner_action`), its header fields, its invoice
/// (`get_payment_request`), amount (`get_amount`), rating (`get_rating`) and
/// text (`get_payload`). Trusted: the result is a function of the content
/// alone, named `message_read`; an action is given for every message, and a
/// rating only between 1 and 5.
#[verifier::external_body]
fn read_message(content: &str) -> (outline: Option<Outline>)
    ensures
        outline == message_read(content@),
        outline_in_order(outline),
{
    let msg = mostro_core::message::Message::from_json(content).ok()?;
    let kind = msg.get_inner_message_kind();
    let header = Header { order_id: kind.id.map(|id| id.as_u128()), request_id: kind.request_id, trade_index: kind.trade_index };
    let text = match kind.get_payload() {
        Some(mostro_core::message::Payload::TextMessage(text)) => Some(text.clone()),
        _ => None,
    };
    let (payment_request, amount, rating) = (kind.get_payment_request(), kind.get_amount(), kind.get_rating().ok());
    let (consistent, action) = (kind.verify(), msg.inner_action().map(|action| action.to_string()));
    Some(Outline { consistent, action, header, payment_request, amount, rating, text })
}

/// Parses `content` with `mostro_core::message::Message::from_json` and gives
/// the order that `mostro_core::message::MessageKind::get_order` finds in it,
/// field by field. Trusted: the result is a function of the content alone,
/// named `order_read`.
#[verifier::external_body]
fn read_order(content: &str) -> (order: Option<NewOrder>)
    ensures
        order == order_read(content@),
{
    let msg = mostro_core::message::Message::from_json(content).ok()?;
    let o = msg.get_inner_message_kind().get_order()?;
    let kind = o.kind.map(|kind| match kind {
        mostro_core::order::Kind::Buy => Kind::Buy,
        mostro_core::order::Kind::Sell => Kind::Sell,
    });
    let (id, amount, premium) = (o.id.map(|id| id.as_u128()), o.amount, o.premium);
    let (min_amount, max_amount, fiat_amount) = (o.min_amount, o.max_amount, o.fiat_amount);
    let (fiat_code, payment_method) = (o.fiat_code.clone(), o.payment_method.clone());
    let buyer_invoice = o.buyer_invoice.clone();
    Some(NewOrder { id, kind, amount, fiat_code, min_amount, max_amount, fiat_amount, payment_method, premium, buyer_invoice })
}

/// What was read out of a decoded message.
#[derive(Clone, Debug, PartialEq, Eq)]
pub struct Decoded {
    /// Whether id and payload fit the action.
    pub consistent: bool,
    /// The name of the action.
    pub action: Option<String>,
    pub header: Header,
    pub order: Option<NewOrder>,
    pub payment_request: Option<String>,
    pub amount: Option<i64>,
    pub rating: Option<u8>,
    pub text: Option<String>,
}

/// A request on its way to its handler.
#[derive(Clone, Debug, PartialEq, Eq)]
pub struct Request {
    pub action: Action,
    /// The key under which the sender trades.
    pub sender: PubKey,
    /// The identity that sealed the message.
    pub identity: PubKey,
    pub header: Header,
    pub order: Option<NewOrder>,
    pub payment_request: Option<String>,
    pub amount: Option<i64>,
    pub rating: Option<u8>,
    pub text: Option<String>,
}

impl Request {
    /// The order that the request is about. A request that names none cannot
    /// be handled.
    pub fn order_id(&self) -> (r: Result<u128, Fault>)
        ensures
            r == match self.header.order_id {
                Some(id) => Ok::<u128, Fault>(id),
                None => Err::<u128, Fault>(Fault::NoOrderId),
            },
    {
        match self.header.order_id {
            Some(id) => Ok(id),
            None => Err(Fault::NoOrderId),
        }
    }
}

/// What becomes of a notification.
#[derive(Clone, Debug, PartialEq, Eq)]
pub enum Ingress {
    /// Drop it without a word.
    Discard(Discard),
    /// Unwrap the gift wrap and hand the notification in again.
    Unwrap,
    /// Hand the request to the handler of its action.
    Dispatch(Request),
}

/// The last steps of the way in, on what decoding gave: a content that is no
/// message, a message that does not fit its action and an action outside the
/// recognised set are dropped; `PayInvoice` is kept for later use and
/// dropped too; every other request goes to its handler.
pub open spec fn dispatching(sender: PubKey, identity: PubKey, decoded: Option<Decoded>) -> Ingress {
    match decoded {
        None => Ingress::Discard(Discard::Malformed),
        Some(d) => if !d.consistent {
            Ingress::Discard(Discard::Inconsistent)
        } else if d.action is None || action_named(d.action->0@) is None {
            Ingress::Discard(Discard::UnknownAction)
        } else if action_named(d.action->0@) == Some(Action::PayInvoice) {
            Ingress::Discard(Discard::Reserved)
        } else {
            Ingress::Dispatch(
                Request {
                    action: action_named(d.action->0@)->0,
                    sender,
                    identity,
                    header: d.header,
                    order: d.order,
                    payment_request: d.payment_request,
                    amount: d.amount,
                    rating: d.rating,
                    text: d.text,
                },
            )
        },
    }
}

/// Decides what becomes of a decoded message. See `dispatching`.
pub fn dispatch(sender: PubKey, identity: PubKey, decoded: Option<Decoded>) -> (r: Ingress)
    ensures
        r == dispatching(sender, identity, decoded),
{
    let d = match decoded {
        None => { return Ingress::Discard(Discard::Malformed); },
        Some(d) => d,
    };
    if !d.consistent {
        return Ingress::Discard(Discard::Inconsistent);
    }
    let action = match &d.action {
        None => { return Ingress::Discard(Discard::UnknownAction); },
        Some(name) => match Action::from_name(name) {
            None => { return Ingress::Discard(Discard::UnknownAction); },
            Some(action) => action,
        },
    };
    if action == Action::PayInvoice {
        return Ingress::Discard(Discard::Reserved);
    }
    Ingress::Dispatch(
        Request {
            action,
            sender,
            identity,
            header: d.header,
            order: d.order,
            payment_request: d.payment_request,
            amount: d.amount,
            rating: d.rating,
            text: d.text,
        },
    )
}

/// What decoding makes of a content: `None` where the content is no message;
/// otherwise the outline of the message, and the order that it brings where
/// its action is `NewOrder`.
pub open spec fn decoding(content: Seq<char>) -> Option<Decoded> {
    match message_read(content) {
        None => None,
        Some(outline) => Some(
            Decoded {
                consistent: outline.consistent,
                action: outline.action,
                header: outline.header,
                order: if outline.action is Some && action_named(outline.action->0@) == Some(
                    Action::NewOrder,
                ) {
                    order_read(content)
                } else {
                    None
                },
                payment_request: outline.payment_request,
                amount: outline.amount,
                rating: outline.rating,
                text: outline.text,
            },
        ),
    }
}

/// What holds of whatever is read out of a content: where it is a message,
/// the message names its action, and a rating in it is one to five stars.
pub open spec fn read_in_order(decoded: Option<Decoded>) -> bool {
    match decoded {
        None => true,
        Some(d) => d.action is Some && match d.rating {
            Some(stars) => 1 <= stars <= 5,
            None => true,
        },
    }
}

/// Decodes the content of a rumor and reads out what the handlers need. See
/// `decoding`.
fn decode(content: &str) -> (decoded: Option<Decoded>)
    ensures
        decoded == decoding(content@),
        read_in_order(decoded),
{
    let outline = read_message(content)?;
    let brings_order = match &outline.action {
        Some(name) => match Action::from_name(name) {
            Some(Action::NewOrder) => true,
            _ => false,
        },
        None => false,
    };
    let order = if brings_order { read_order(content) } else { None };
    Some(
        Decoded {
            consistent: outline.consistent,
            action: outline.action,
            header: outline.header,
            order,
            payment_request: outline.payment_request,
            amount: outline.amount,
            rating: outline.rating,
            text: outline.text,
        },
    )
}

/// True when `r` is what becomes of a notification at time `now`: what the
/// screening says where that drops it or asks for unwrapping, and otherwise
/// what `dispatching` makes of the decoded content of the rumor.
pub open spec fn admitted(r: Ingress, envelope: Envelope, gift: Gift, pow: u8, now: i64) -> bool {
    match screening(envelope, gift, pow, now) {
        Screening::Discard(why) => r == Ingress::Discard(why),
        Screening::Unwrap => r == Ingress::Unwrap,
        Screening::Decode => r == dispatching(
            gift->Open_0.author,
            gift->Open_0.sender,
            decoding(gift->Open_0.content@),
        ),
    }
}

/// True of a result that carries a rating only of one to five stars.
pub open spec fn rating_in_range(r: Ingress) -> bool {
    match r {
        Ingress::Dispatch(request) => match request.rating {
            Some(stars) => 1 <= stars <= 5,
            None => true,
        },
        _ => true,
    }
}

/// Takes a notification as far as its handler at time `now`: screens it,
/// decodes the content of a fresh rumor and decides on it. See `admitted`.
pub fn run_at(envelope: &Envelope, gift: &Gift, pow: u8, now: i64) -> (r: Ingress)
    ensures
        admitted(r, *envelope, *gift, pow, now),
        rating_in_range(r),
{
    match screen(envelope, gift, pow, now) {
        Screening::Discard(why) => Ingress::Discard(why),
        Screening::Unwrap => Ingress::Unwrap,
        Screening::Decode => {
            match gift {
                Gift::Open(rumor) => {
                    let decoded = decode(rumor.content.as_str());
                    dispatch(rumor.author, rumor.sender, decoded)
                },
                _ => Ingress::Unwrap,
            }
        },
    }
}

/// An event of the bus as `nostr` holds it. Nothing of its inside is known
/// here; it is read through the functions below.
#[verifier::external_type_specification]
#[verifier::external_body]
pub struct ExEvent(nostr::event::Event);

/// The keys of this node as `nostr` holds them.
#[verifier::external_type_specification]
#[verifier::external_body]
pub struct ExKeys(nostr::key::Keys);

/// What `nostr` finds inside a gift wrap, in bytes and text.
#[derive(Clone, Debug, PartialEq, Eq)]
pub struct Unwrapped {
    /// The key that signed the seal.
    pub sender: [u8; 32],
    /// The key that the rumor names as its author.
    pub author: [u8; 32],
    pub created_at: u64,
    pub content: String,
}

/// The 32 bytes of the id of an event.
pub uninterp spec fn event_id_bytes(event: nostr::event::Event) -> Seq<u8>;

/// The kind of an event, as a number.
pub uninterp spec fn event_kind_number(event: nostr::event::Event) -> u16;

/// Whether id and signature of an event are right.
pub uninterp spec fn event_signature_valid(event: nostr::event::Event) -> bool;

/// What unwrapping a gift wrap with the given keys finds: `None` where the
/// wrap cannot be read with them.
pub uninterp spec fn gift_unwrapped(keys: nostr::key::Keys, event: nostr::event::Event) -> Option<
    Unwrapped,
>;

/// The gift that unwrapping leaves: unreadable where nothing was found, and
/// otherwise the rumor with its keys read from their bytes.
pub open spec fn gift_of(found: Option<Unwrapped>) -> Gift {
    match found {
        None => Gift::Unreadable,
        Some(inside) => Gift::Open(
            Rumor {
                sender: PubKey::spelled(inside.sender@),
                author: PubKey::spelled(inside.author@),
                created_at: inside.created_at,
                content: inside.content,
            },
        ),
    }
}

/// The bytes of the field `id` of a `nostr::event::Event`, from
/// `nostr::event::EventId::to_bytes`. Trusted: they are a function of the
/// event alone, named `event_id_bytes`.
#[verifier::external_body]
fn event_id(event: &nostr::event::Event) -> (id: [u8; 32])
    ensures
        id@ == event_id_bytes(*event),
{
    event.id.to_bytes()
}

/// The field `kind` of a `nostr::event::Event` as a number, from
/// `nostr::event::Kind::as_u16`. Trusted: it is a function of the event
/// alone, named `event_kind_number`.
#[verifier::external_body]
fn event_kind(event: &nostr::event::Event) -> (kind: u16)
    ensures
        kind == event_kind_number(*event),
{
    event.kind.as_u16()
}

/// Whether `nostr::event::Event::verify` finds id and signature of the event
/// right. Trusted: the answer is a function of the event alone, named
/// `event_signature_valid`.
#[verifier::external_body]
fn event_verified(event: &nostr::event::Event) -> (ok: bool)
    ensures
        ok == event_signature_valid(*event),
{
    event.verify().is_ok()
}

/// Unwraps a gift wrap with `nostr::nips::nip59::UnwrappedGift::from_gift_wrap`:
/// `None` where the wrap cannot be read with these keys. Trusted: what is
/// found is a function of keys and event alone, named `gift_unwrapped`, and
/// that function gives no rumor whose author is not the key that signed the
/// seal.
#[verifier::external_body]
fn unwrap_gift(keys: &nostr::key::Keys, event: &nostr::event::Event) -> (found: Option<Unwrapped>)
    ensures
        found == gift_unwrapped(*keys, *event),
        found matches Some(inside) ==> inside.author == inside.sender,
{
    let gift = nostr::nips::nip59::UnwrappedGift::from_gift_wrap(keys, event).ok()?;
    Some(Unwrapped {
        sender: gift.sender.to_bytes(),
        author: gift.rumor.pubkey.to_bytes(),
        created_at: gift.rumor.created_at.as_secs(),
        content: gift.rumor.content,
    })
}

/// True of the envelope that an event gives: its id, its kind, and whether id
/// and signature are right.
pub open spec fn envelope_of(envelope: Envelope, event: nostr::event::Event) -> bool {
    &&& envelope.id@ == event_id_bytes(event)
    &&& envelope.kind == event_kind_number(event)
    &&& envelope.signature_valid == event_signature_valid(event)
}

/// Takes an event of the bus as far as the handler of the message in it: the
/// proof of work and the kind are checked first, then the signature; the
/// gift wrap is unwrapped with the node's keys; the rumor must be fresh by
/// the clock of this machine; its content is decoded and the request goes to
/// its handler.
///
/// What comes of it is what `admitted` says of the event's own envelope and
/// of what unwrapping it with the node's keys finds, at the time that the
/// clock showed: only that time is for the machine to say.
pub fn run(keys: &nostr::key::Keys, event: &nostr::event::Event, pow: u8) -> (r: Ingress)
    ensures
        exists|envelope: Envelope, now: i64|
            envelope_of(envelope, *event) && now >= 0 && #[trigger] admitted(
                r,
                envelope,
                gift_of(gift_unwrapped(*keys, *event)),
                pow,
                now,
            ),
        !(r is Unwrap),
        r matches Ingress::Dispatch(request) ==> request.sender == request.identity,
        rating_in_range(r),
{
    let id = event_id(event);
    let kind = event_kind(event);
    let ghost found = gift_of(gift_unwrapped(*keys, *event));
    if let Some(why) = gate(&id, kind, pow) {
        let r = Ingress::Discard(why);
        let ghost envelope = Envelope {
            id,
            kind,
            signature_valid: event_signature_valid(*event),
        };
        assert(envelope_of(envelope, *event) && admitted(r, envelope, found, pow, 0));
        return r;
    }
    let signature_valid = event_verified(event);
    let envelope = Envelope { id, kind, signature_valid };
    if !signature_valid {
        let r = Ingress::Discard(Discard::BadSignature);
        assert(envelope_of(envelope, *event) && admitted(r, envelope, found, pow, 0));
        return r;
    }
    let gift = match unwrap_gift(keys, event) {
        None => Gift::Unreadable,
        Some(inside) => Gift::Open(
            Rumor {
                sender: PubKey::from_bytes(&inside.sender),
                author: PubKey::from_bytes(&inside.author),
                created_at: inside.created_at,
                content: inside.content,
            },
        ),
    };
    assert(gift == found);
    let now = unix_now();
    let r = run_at(&envelope, &gift, pow, now);
    assert(envelope_of(envelope, *event) && admitted(r, envelope, found, pow, now));
    r
}

} // verus!
