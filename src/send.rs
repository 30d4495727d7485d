//! Builders for a message sent to a program or a user.
use vstd::prelude::*;

use crate::common::{call_of, resolve_call, Call, DecodableW, Draft, Payload};
use crate::gear;
use core::ops::Range;
use gstd::errors::CoreError;
use gstd::msg::{CodecMessageFuture, MessageFuture};
use gstd::{ActorId, Decode, Encode, MessageId, ReservationId};

verus! {

/// A message to a program or user, being configured. `E` is the type of an
/// encodable payload.
pub struct SendBuilder<E = ()> {
    draft: Draft<ActorId, E>,
}

impl<E> View for SendBuilder<E> {
    type V = Draft<ActorId, E>;

    closed spec fn view(&self) -> Draft<ActorId, E> {
        self.draft
    }
}

impl SendBuilder<()> {
    /// Starts a message whose payload is a byte buffer.
    pub fn bytes(program: ActorId, payload: Vec<u8>) -> (r: Self)
        ensures
            r@ == Draft::<ActorId, ()>::fresh(program, Payload::Bytes(payload)),
    {
        SendBuilder { draft: Draft::new(program, Payload::Bytes(payload)) }
    }

    /// Starts a message whose payload is a range of the message being processed.
    pub fn input(program: ActorId, payload: Range<usize>) -> (r: Self)
        ensures
            r@ == Draft::<ActorId, ()>::fresh(program, Payload::Input(payload)),
    {
        SendBuilder { draft: Draft::new(program, Payload::Input(payload)) }
    }
}

impl<E> SendBuilder<E> {
    #[verifier::type_invariant]
    spec fn inv(self) -> bool {
        &&& self.draft.fields.reply_deposit is None
        &&& self.draft.fields.gas is Reservation ==> self.draft.payload.supports_reservation()
    }

    /// Starts a message whose payload is a value encoded when it is sent.
    pub fn encode(program: ActorId, payload: E) -> (r: Self)
        ensures
            r@ == Draft::fresh(program, Payload::Encoded(payload)),
    {
        SendBuilder { draft: Draft::new(program, Payload::Encoded(payload)) }
    }

    /// Attaches a value to the message.
    pub fn with_value(self, value: u128) -> (r: Self)
        requires
            self@.fields.value is None,
        ensures
            r@ == self@.with_value(value),
    {
        proof {
            use_type_invariant(&self);
        }
        SendBuilder { draft: self.draft.set_value(value) }
    }

    /// Sends the message after `delay` blocks.
    pub fn with_delay(self, delay: u32) -> (r: Self)
        requires
            self@.fields.delay is None,
        ensures
            r@ == self@.with_delay(delay),
    {
        proof {
            use_type_invariant(&self);
        }
        SendBuilder { draft: self.draft.set_delay(delay) }
    }

    /// Gives the message an explicit gas limit.
    pub fn with_gas_limit(self, gas_limit: u64) -> (r: Self)
        requires
            self@.gas_open(),
        ensures
            r@ == self@.with_gas_limit(gas_limit),
    {
        proof {
            use_type_invariant(&self);
        }
        SendBuilder { draft: self.draft.set_gas_limit(gas_limit) }
    }

    /// Takes the gas of the message from a reservation.
    pub fn with_gas_from_reservation(self, reservation_id: ReservationId) -> (r: Self)
        requires
            self@.reservation_open(),
        ensures
            r@ == self@.with_gas_from_reservation(reservation_id),
    {
        proof {
            use_type_invariant(&self);
        }
        SendBuilder { draft: self.draft.set_gas_from_reservation(reservation_id) }
    }

    /// Waits for the reply to the message, as raw bytes.
    pub fn for_reply(self) -> (r: SendBuilderForReply<E, ()>)
        requires
            self@.fields.delay is None,
        ensures
            r@ == self@,
            r@.fields.reply_deposit is None,
    {
        proof {
            use_type_invariant(&self);
        }
        SendBuilderForReply { draft: self.draft, decode: () }
    }

    /// Waits for the reply to the message, decoded as `D`.
    pub fn for_reply_as<D>(self) -> (r: SendBuilderForReply<E, DecodableW<D>>)
        requires
            self@.fields.delay is None,
        ensures
            r@ == self@,
            r@.fields.reply_deposit is None,
    {
        proof {
            use_type_invariant(&self);
        }
        SendBuilderForReply { draft: self.draft, decode: DecodableW::new() }
    }

    /// The value attached to the message: the one set, or zero.
    pub fn value(&self) -> (r: u128)
        ensures
            r == self@.fields.value_or_zero(),
    {
        match self.draft.fields.value {
            Some(v) => v,
            None => 0,
        }
    }

    /// The destination of the message.
    pub fn program(&self) -> (r: ActorId)
        ensures
            r == self@.target,
    {
        self.draft.target
    }

    /// The payload of the message.
    pub fn payload(&self) -> (r: &Payload<E>)
        ensures
            *r == self@.payload,
    {
        &self.draft.payload
    }

    /// The call that `execute` makes; with an input payload it never draws on a
    /// reservation.
    pub fn plan(&self) -> (r: Call)
        ensures
            r == call_of(self@.fields),
            self@.payload is Input ==> !(r.gas() is Reservation),
    {
        proof {
            use_type_invariant(self);
        }
        resolve_call(&self.draft.fields)
    }
}

/// A message to a program or user that waits for a reply. `R` is `()` for a raw
/// reply and `DecodableW<D>` for a reply decoded as `D`.
pub struct SendBuilderForReply<E = (), R = ()> {
    draft: Draft<ActorId, E>,
    decode: R,
}

impl<E, R> View for SendBuilderForReply<E, R> {
    type V = Draft<ActorId, E>;

    closed spec fn view(&self) -> Draft<ActorId, E> {
        self.draft
    }
}

impl<E, R> SendBuilderForReply<E, R> {
    #[verifier::type_invariant]
    spec fn inv(self) -> bool {
        &&& self.draft.fields.delay is None
        &&& self.draft.fields.gas is Reservation ==> self.draft.payload.supports_reservation()
    }

    /// Deposits gas for handling the reply.
    pub fn with_reply_deposit(self, reply_deposit: u64) -> (r: Self)
        requires
            self@.fields.reply_deposit is None,
        ensures
            r@ == self@.with_reply_deposit(reply_deposit),
    {
        proof {
            use_type_invariant(&self);
        }
        SendBuilderForReply { draft: self.draft.set_reply_deposit(reply_deposit), decode: self.decode }
    }

    /// The value attached to the message: the one set, or zero.
    pub fn value(&self) -> (r: u128)
        ensures
            r == self@.fields.value_or_zero(),
    {
        match self.draft.fields.value {
            Some(v) => v,
            None => 0,
        }
    }

    /// The call that `execute` makes, and the reply deposit it passes. The call
    /// is never delayed, and with an input payload it never draws on a reservation.
    pub fn plan(&self) -> (r: (Call, u64))
        ensures
            r == (call_of(self@.fields), self@.fields.reply_deposit_or_zero()),
            r.0.delay() is None,
            self@.payload is Input ==> !(r.0.gas() is Reservation),
    {
        proof {
            use_type_invariant(self);
        }
        let reply_deposit = match self.draft.fields.reply_deposit {
            Some(d) => d,
            None => 0,
        };
        (resolve_call(&self.draft.fields), reply_deposit)
    }
}

/// The `gstd::msg` primitive that a message is sent through, one variant per
/// primitive, with the arguments it is called with in the primitive's order.
#[derive(Debug, PartialEq, Eq)]
pub enum SendRoute<E> {
    SendBytes { program: ActorId, payload: Vec<u8>, value: u128 },
    SendBytesDelayed { program: ActorId, payload: Vec<u8>, value: u128, delay: u32 },
    SendBytesWithGas { program: ActorId, payload: Vec<u8>, gas_limit: u64, value: u128 },
    SendBytesWithGasDelayed { program: ActorId, payload: Vec<u8>, gas_limit: u64, value: u128, delay: u32 },
    SendBytesFromReservation { reservation_id: ReservationId, program: ActorId, payload: Vec<u8>, value: u128 },
    SendBytesDelayedFromReservation { reservation_id: ReservationId, program: ActorId, payload: Vec<u8>, value: u128, delay: u32 },
    Send { program: ActorId, payload: E, value: u128 },
    SendDelayed { program: ActorId, payload: E, value: u128, delay: u32 },
    SendWithGas { program: ActorId, payload: E, gas_limit: u64, value: u128 },
    SendWithGasDelayed { program: ActorId, payload: E, gas_limit: u64, value: u128, delay: u32 },
    SendFromReservation { reservation_id: ReservationId, program: ActorId, payload: E, value: u128 },
    SendDelayedFromReservation { reservation_id: ReservationId, program: ActorId, payload: E, value: u128, delay: u32 },
    SendInput { program: ActorId, value: u128, range: Range<usize> },
    SendInputDelayed { program: ActorId, value: u128, range: Range<usize>, delay: u32 },
    SendInputWithGas { program: ActorId, gas_limit: u64, value: u128, range: Range<usize> },
    SendInputWithGasDelayed { program: ActorId, gas_limit: u64, value: u128, range: Range<usize>, delay: u32 },
}

/// The routing table of `SendBuilder`: the primitive and the arguments for a draft.
/// The payload picks the family (`send_bytes*`, `send*`, `send_input*`) and the
/// fields pick the member through `call_of`. An input payload with a reservation
/// is never reached: the builder's invariant rules it out.
pub open spec fn send_route_of<E>(d: Draft<ActorId, E>) -> SendRoute<E> {
    let program = d.target;
    match d.payload {
        Payload::Bytes(payload) => match call_of(d.fields) {
            Call::Plain { value } => SendRoute::SendBytes { program, payload, value },
            Call::Delayed { value, delay } => SendRoute::SendBytesDelayed { program, payload, value, delay },
            Call::WithGas { gas_limit, value } => SendRoute::SendBytesWithGas { program, payload, gas_limit, value },
            Call::WithGasDelayed { gas_limit, value, delay } => SendRoute::SendBytesWithGasDelayed { program, payload, gas_limit, value, delay },
            Call::FromReservation { reservation_id, value } => SendRoute::SendBytesFromReservation { reservation_id, program, payload, value },
            Call::DelayedFromReservation { reservation_id, value, delay } => SendRoute::SendBytesDelayedFromReservation { reservation_id, program, payload, value, delay },
        },
        Payload::Encoded(payload) => match call_of(d.fields) {
            Call::Plain { value } => SendRoute::Send { program, payload, value },
            Call::Delayed { value, delay } => SendRoute::SendDelayed { program, payload, value, delay },
            Call::WithGas { gas_limit, value } => SendRoute::SendWithGas { program, payload, gas_limit, value },
            Call::WithGasDelayed { gas_limit, value, delay } => SendRoute::SendWithGasDelayed { program, payload, gas_limit, value, delay },
            Call::FromReservation { reservation_id, value } => SendRoute::SendFromReservation { reservation_id, program, payload, value },
            Call::DelayedFromReservation { reservation_id, value, delay } => SendRoute::SendDelayedFromReservation { reservation_id, program, payload, value, delay },
        },
        Payload::Input(range) => match call_of(d.fields) {
            Call::Plain { value } => SendRoute::SendInput { program, value, range },
            Call::Delayed { value, delay } => SendRoute::SendInputDelayed { program, value, range, delay },
            Call::WithGas { gas_limit, value } => SendRoute::SendInputWithGas { program, gas_limit, value, range },
            Call::WithGasDelayed { gas_limit, value, delay } => SendRoute::SendInputWithGasDelayed { program, gas_limit, value, range, delay },
            _ => arbitrary(),
        },
    }
}

/// What `SendBuilder::execute` may return: an outcome of the one primitive that the
/// route names, called with exactly the route's arguments.
pub closed spec fn send_outcome<E: Encode>(route: SendRoute<E>, r: Result<MessageId, CoreError>) -> bool {
    match route {
        SendRoute::SendBytes { program, payload, value } => call_ensures(
            gear::send_bytes,
            (program, payload, value),
            r,
        ),
        SendRoute::SendBytesDelayed { program, payload, value, delay } => call_ensures(
            gear::send_bytes_delayed,
            (program, payload, value, delay),
            r,
        ),
        SendRoute::SendBytesWithGas { program, payload, gas_limit, value } => call_ensures(
            gear::send_bytes_with_gas,
            (program, payload, gas_limit, value),
            r,
        ),
        SendRoute::SendBytesWithGasDelayed { program, payload, gas_limit, value, delay } => call_ensures(
            gear::send_bytes_with_gas_delayed,
            (program, payload, gas_limit, value, delay),
            r,
        ),
        SendRoute::SendBytesFromReservation { reservation_id, program, payload, value } => call_ensures(
            gear::send_bytes_from_reservation,
            (reservation_id, program, payload, value),
            r,
        ),
        SendRoute::SendBytesDelayedFromReservation { reservation_id, program, payload, value, delay } => call_ensures(
            gear::send_bytes_delayed_from_reservation,
            (reservation_id, program, payload, value, delay),
            r,
        ),
        SendRoute::Send { program, payload, value } => call_ensures(
            gear::send::<E>,
            (program, payload, value),
            r,
        ),
        SendRoute::SendDelayed { program, payload, value, delay } => call_ensures(
            gear::send_delayed::<E>,
            (program, payload, value, delay),
            r,
        ),
        SendRoute::SendWithGas { program, payload, gas_limit, value } => call_ensures(
            gear::send_with_gas::<E>,
            (program, payload, gas_limit, value),
            r,
        ),
        SendRoute::SendWithGasDelayed { program, payload, gas_limit, value, delay } => call_ensures(
            gear::send_with_gas_delayed::<E>,
            (program, payload, gas_limit, value, delay),
            r,
        ),
        SendRoute::SendFromReservation { reservation_id, program, payload, value } => call_ensures(
            gear::send_from_reservation::<E>,
            (reservation_id, program, payload, value),
            r,
        ),
        SendRoute::SendDelayedFromReservation { reservation_id, program, payload, value, delay } => call_ensures(
            gear::send_delayed_from_reservation::<E>,
            (reservation_id, program, payload, value, delay),
            r,
        ),
        SendRoute::SendInput { program, value, range } => call_ensures(
            gear::send_input,
            (program, value, range),
            r,
        ),
        SendRoute::SendInputDelayed { program, value, range, delay } => call_ensures(
            gear::send_input_delayed,
            (program, value, range, delay),
            r,
        ),
        SendRoute::SendInputWithGas { program, gas_limit, value, range } => call_ensures(
            gear::send_input_with_gas,
            (program, gas_limit, value, range),
            r,
        ),
        SendRoute::SendInputWithGasDelayed { program, gas_limit, value, range, delay } => call_ensures(
            gear::send_input_with_gas_delayed,
            (program, gas_limit, value, range, delay),
            r,
        ),
    }
}

impl<E> SendBuilder<E> {
    /// The primitive that `execute` calls, with its arguments.
    pub fn into_route(self) -> (r: SendRoute<E>)
        ensures
            r == send_route_of(self@),
    {
        proof {
            use_type_invariant(&self);
        }
        let call = resolve_call(&self.draft.fields);
        let program = self.draft.target;
        match self.draft.payload {
            Payload::Bytes(payload) => match call {
                Call::Plain { value } => SendRoute::SendBytes { program, payload, value },
                Call::Delayed { value, delay } => SendRoute::SendBytesDelayed { program, payload, value, delay },
                Call::WithGas { gas_limit, value } => SendRoute::SendBytesWithGas { program, payload, gas_limit, value },
                Call::WithGasDelayed { gas_limit, value, delay } => SendRoute::SendBytesWithGasDelayed { program, payload, gas_limit, value, delay },
                Call::FromReservation { reservation_id, value } => SendRoute::SendBytesFromReservation { reservation_id, program, payload, value },
                Call::DelayedFromReservation { reservation_id, value, delay } => SendRoute::SendBytesDelayedFromReservation { reservation_id, program, payload, value, delay },
            },
            Payload::Encoded(payload) => match call {
                Call::Plain { value } => SendRoute::Send { program, payload, value },
                Call::Delayed { value, delay } => SendRoute::SendDelayed { program, payload, value, delay },
                Call::WithGas { gas_limit, value } => SendRoute::SendWithGas { program, payload, gas_limit, value },
                Call::WithGasDelayed { gas_limit, value, delay } => SendRoute::SendWithGasDelayed { program, payload, gas_limit, value, delay },
                Call::FromReservation { reservation_id, value } => SendRoute::SendFromReservation { reservation_id, program, payload, value },
                Call::DelayedFromReservation { reservation_id, value, delay } => SendRoute::SendDelayedFromReservation { reservation_id, program, payload, value, delay },
            },
            Payload::Input(range) => match call {
                Call::Plain { value } => SendRoute::SendInput { program, value, range },
                Call::Delayed { value, delay } => SendRoute::SendInputDelayed { program, value, range, delay },
                Call::WithGas { gas_limit, value } => SendRoute::SendInputWithGas { program, gas_limit, value, range },
                Call::WithGasDelayed { gas_limit, value, delay } => SendRoute::SendInputWithGasDelayed { program, gas_limit, value, range, delay },
                _ => {
                    // an input payload never holds a reservation (type invariant)
                    unreached()
                },
            },
        }
    }
}

impl<E: Encode> SendBuilder<E> {
    /// Sends the message through the one primitive that its fields select, and
    /// returns that primitive's result unchanged.
    pub fn execute(self) -> (r: Result<MessageId, CoreError>)
        ensures
            send_outcome(send_route_of(self@), r),
    {
        match self.into_route() {
            SendRoute::SendBytes { program, payload, value } => gear::send_bytes(program, payload, value),
            SendRoute::SendBytesDelayed { program, payload, value, delay } => gear::send_bytes_delayed(program, payload, value, delay),
            SendRoute::SendBytesWithGas { program, payload, gas_limit, value } => gear::send_bytes_with_gas(program, payload, gas_limit, value),
            SendRoute::SendBytesWithGasDelayed { program, payload, gas_limit, value, delay } => gear::send_bytes_with_gas_delayed(program, payload, gas_limit, value, delay),
            SendRoute::SendBytesFromReservation { reservation_id, program, payload, value } => gear::send_bytes_from_reservation(reservation_id, program, payload, value),
            SendRoute::SendBytesDelayedFromReservation { reservation_id, program, payload, value, delay } => gear::send_bytes_delayed_from_reservation(reservation_id, program, payload, value, delay),
            SendRoute::Send { program, payload, value } => gear::send(program, payload, value),
            SendRoute::SendDelayed { program, payload, value, delay } => gear::send_delayed(program, payload, value, delay),
            SendRoute::SendWithGas { program, payload, gas_limit, value } => gear::send_with_gas(program, payload, gas_limit, value),
            SendRoute::SendWithGasDelayed { program, payload, gas_limit, value, delay } => gear::send_with_gas_delayed(program, payload, gas_limit, value, delay),
            SendRoute::SendFromReservation { reservation_id, program, payload, value } => gear::send_from_reservation(reservation_id, program, payload, value),
            SendRoute::SendDelayedFromReservation { reservation_id, program, payload, value, delay } => gear::send_delayed_from_reservation(reservation_id, program, payload, value, delay),
            SendRoute::SendInput { program, value, range } => gear::send_input(program, value, range),
            SendRoute::SendInputDelayed { program, value, range, delay } => gear::send_input_delayed(program, value, range, delay),
            SendRoute::SendInputWithGas { program, gas_limit, value, range } => gear::send_input_with_gas(program, gas_limit, value, range),
            SendRoute::SendInputWithGasDelayed { program, gas_limit, value, range, delay } => gear::send_input_with_gas_delayed(program, gas_limit, value, range, delay),
        }
    }
}

/// The `gstd::msg` primitive that a message waiting for a reply is sent through,
/// named after the primitive whose `_for_reply` (or `_for_reply_as`) counterpart is
/// called, with the arguments in the primitive's order, the reply deposit last.
#[derive(Debug, PartialEq, Eq)]
pub enum SendForReplyRoute<E> {
    SendBytes { program: ActorId, payload: Vec<u8>, value: u128, reply_deposit: u64 },
    SendBytesWithGas { program: ActorId, payload: Vec<u8>, gas_limit: u64, value: u128, reply_deposit: u64 },
    SendBytesFromReservation { reservation_id: ReservationId, program: ActorId, payload: Vec<u8>, value: u128, reply_deposit: u64 },
    Send { program: ActorId, payload: E, value: u128, reply_deposit: u64 },
    SendWithGas { program: ActorId, payload: E, gas_limit: u64, value: u128, reply_deposit: u64 },
    SendFromReservation { reservation_id: ReservationId, program: ActorId, payload: E, value: u128, reply_deposit: u64 },
    SendInput { program: ActorId, value: u128, range: Range<usize>, reply_deposit: u64 },
    SendInputWithGas { program: ActorId, gas_limit: u64, value: u128, range: Range<usize>, reply_deposit: u64 },
}

/// The routing table of `SendBuilderForReply`. A builder waiting for a reply has no
/// delay, and an input payload never holds a reservation: those drafts are never
/// reached.
pub open spec fn send_for_reply_route_of<E>(d: Draft<ActorId, E>) -> SendForReplyRoute<E> {
    let program = d.target;
    let reply_deposit = d.fields.reply_deposit_or_zero();
    match d.payload {
        Payload::Bytes(payload) => match call_of(d.fields) {
            Call::Plain { value } => SendForReplyRoute::SendBytes { program, payload, value, reply_deposit },
            Call::WithGas { gas_limit, value } => SendForReplyRoute::SendBytesWithGas { program, payload, gas_limit, value, reply_deposit },
            Call::FromReservation { reservation_id, value } => SendForReplyRoute::SendBytesFromReservation { reservation_id, program, payload, value, reply_deposit },
            _ => arbitrary(),
        },
        Payload::Encoded(payload) => match call_of(d.fields) {
            Call::Plain { value } => SendForReplyRoute::Send { program, payload, value, reply_deposit },
            Call::WithGas { gas_limit, value } => SendForReplyRoute::SendWithGas { program, payload, gas_limit, value, reply_deposit },
            Call::FromReservation { reservation_id, value } => SendForReplyRoute::SendFromReservation { reservation_id, program, payload, value, reply_deposit },
            _ => arbitrary(),
        },
        Payload::Input(range) => match call_of(d.fields) {
            Call::Plain { value } => SendForReplyRoute::SendInput { program, value, range, reply_deposit },
            Call::WithGas { gas_limit, value } => SendForReplyRoute::SendInputWithGas { program, gas_limit, value, range, reply_deposit },
            _ => arbitrary(),
        },
    }
}

/// What `SendBuilderForReply::execute` may return for a raw reply: an outcome of
/// the `_for_reply` primitive that the route names, called with exactly the route's
/// arguments.
pub closed spec fn send_for_reply_outcome<E: Encode>(route: SendForReplyRoute<E>, r: Result<MessageFuture, CoreError>) -> bool {
    match route {
        SendForReplyRoute::SendBytes { program, payload, value, reply_deposit } => call_ensures(
            gear::send_bytes_for_reply,
            (program, payload, value, reply_deposit),
            r,
        ),
        SendForReplyRoute::SendBytesWithGas { program, payload, gas_limit, value, reply_deposit } => call_ensures(
            gear::send_bytes_with_gas_for_reply,
            (program, payload, gas_limit, value, reply_deposit),
            r,
        ),
        SendForReplyRoute::SendBytesFromReservation { reservation_id, program, payload, value, reply_deposit } => call_ensures(
            gear::send_bytes_from_reservation_for_reply,
            (reservation_id, program, payload, value, reply_deposit),
            r,
        ),
        SendForReplyRoute::Send { program, payload, value, reply_deposit } => call_ensures(
            gear::send_for_reply::<E>,
            (program, payload, value, reply_deposit),
            r,
        ),
        SendForReplyRoute::SendWithGas { program, payload, gas_limit, value, reply_deposit } => call_ensures(
            gear::send_with_gas_for_reply::<E>,
            (program, payload, gas_limit, value, reply_deposit),
            r,
        ),
        SendForReplyRoute::SendFromReservation { reservation_id, program, payload, value, reply_deposit } => call_ensures(
            gear::send_from_reservation_for_reply::<E>,
            (reservation_id, program, payload, value, reply_deposit),
            r,
        ),
        SendForReplyRoute::SendInput { program, value, range, reply_deposit } => call_ensures(
            gear::send_input_for_reply,
            (program, value, range, reply_deposit),
            r,
        ),
        SendForReplyRoute::SendInputWithGas { program, gas_limit, value, range, reply_deposit } => call_ensures(
            gear::send_input_with_gas_for_reply,
            (program, gas_limit, value, range, reply_deposit),
            r,
        ),
    }
}

/// What `SendBuilderForReply::execute` may return for a reply decoded as `D`: an
/// outcome of the `_for_reply_as` primitive that the route names, called with
/// exactly the route's arguments.
pub closed spec fn send_for_reply_as_outcome<E: Encode, D: Decode>(route: SendForReplyRoute<E>, r: Result<CodecMessageFuture<D>, CoreError>) -> bool {
    match route {
        SendForReplyRoute::SendBytes { program, payload, value, reply_deposit } => call_ensures(
            gear::send_bytes_for_reply_as::<D>,
            (program, payload, value, reply_deposit),
            r,
        ),
        SendForReplyRoute::SendBytesWithGas { program, payload, gas_limit, value, reply_deposit } => call_ensures(
            gear::send_bytes_with_gas_for_reply_as::<D>,
            (program, payload, gas_limit, value, reply_deposit),
            r,
        ),
        SendForReplyRoute::SendBytesFromReservation { reservation_id, program, payload, value, reply_deposit } => call_ensures(
            gear::send_bytes_from_reservation_for_reply_as::<D>,
            (reservation_id, program, payload, value, reply_deposit),
            r,
        ),
        SendForReplyRoute::Send { program, payload, value, reply_deposit } => call_ensures(
            gear::send_for_reply_as::<E, D>,
            (program, payload, value, reply_deposit),
            r,
        ),
        SendForReplyRoute::SendWithGas { program, payload, gas_limit, value, reply_deposit } => call_ensures(
            gear::send_with_gas_for_reply_as::<E, D>,
            (program, payload, gas_limit, value, reply_deposit),
            r,
        ),
        SendForReplyRoute::SendFromReservation { reservation_id, program, payload, value, reply_deposit } => call_ensures(
            gear::send_from_reservation_for_reply_as::<E, D>,
            (reservation_id, program, payload, value, reply_deposit),
            r,
        ),
        SendForReplyRoute::SendInput { program, value, range, reply_deposit } => call_ensures(
            gear::send_input_for_reply_as::<D>,
            (program, value, range, reply_deposit),
            r,
        ),
        SendForReplyRoute::SendInputWithGas { program, gas_limit, value, range, reply_deposit } => call_ensures(
            gear::send_input_with_gas_for_reply_as::<D>,
            (program, gas_limit, value, range, reply_deposit),
            r,
        ),
    }
}

impl<E, R> SendBuilderForReply<E, R> {
    /// The primitive that `execute` calls (its `_for_reply` or `_for_reply_as`
    /// counterpart), with its arguments.
    pub fn into_route(self) -> (r: SendForReplyRoute<E>)
        ensures
            r == send_for_reply_route_of(self@),
    {
        proof {
            use_type_invariant(&self);
        }
        let call = resolve_call(&self.draft.fields);
        let reply_deposit = match self.draft.fields.reply_deposit {
            Some(d) => d,
            None => 0,
        };
        let program = self.draft.target;
        match self.draft.payload {
            Payload::Bytes(payload) => match call {
                Call::Plain { value } => SendForReplyRoute::SendBytes { program, payload, value, reply_deposit },
                Call::WithGas { gas_limit, value } => SendForReplyRoute::SendBytesWithGas { program, payload, gas_limit, value, reply_deposit },
                Call::FromReservation { reservation_id, value } => SendForReplyRoute::SendBytesFromReservation { reservation_id, program, payload, value, reply_deposit },
                _ => {
                    // a builder waiting for a reply has no delay (type invariant)
                    unreached()
                },
            },
            Payload::Encoded(payload) => match call {
                Call::Plain { value } => SendForReplyRoute::Send { program, payload, value, reply_deposit },
                Call::WithGas { gas_limit, value } => SendForReplyRoute::SendWithGas { program, payload, gas_limit, value, reply_deposit },
                Call::FromReservation { reservation_id, value } => SendForReplyRoute::SendFromReservation { reservation_id, program, payload, value, reply_deposit },
                _ => {
                    // a builder waiting for a reply has no delay (type invariant)
                    unreached()
                },
            },
            Payload::Input(range) => match call {
                Call::Plain { value } => SendForReplyRoute::SendInput { program, value, range, reply_deposit },
                Call::WithGas { gas_limit, value } => SendForReplyRoute::SendInputWithGas { program, gas_limit, value, range, reply_deposit },
                _ => {
                    // no delay, and an input payload never holds a reservation (type invariant)
                    unreached()
                },
            },
        }
    }
}

impl<E: Encode> SendBuilderForReply<E, ()> {
    /// Sends the message through the one primitive that its fields select, and
    /// returns that primitive's result unchanged: a handle on the raw reply.
    pub fn execute(self) -> (r: Result<MessageFuture, CoreError>)
        ensures
            send_for_reply_outcome(send_for_reply_route_of(self@), r),
    {
        match self.into_route() {
            SendForReplyRoute::SendBytes { program, payload, value, reply_deposit } => gear::send_bytes_for_reply(program, payload, value, reply_deposit),
            SendForReplyRoute::SendBytesWithGas { program, payload, gas_limit, value, reply_deposit } => gear::send_bytes_with_gas_for_reply(program, payload, gas_limit, value, reply_deposit),
            SendForReplyRoute::SendBytesFromReservation { reservation_id, program, payload, value, reply_deposit } => gear::send_bytes_from_reservation_for_reply(reservation_id, program, payload, value, reply_deposit),
            SendForReplyRoute::Send { program, payload, value, reply_deposit } => gear::send_for_reply(program, payload, value, reply_deposit),
            SendForReplyRoute::SendWithGas { program, payload, gas_limit, value, reply_deposit } => gear::send_with_gas_for_reply(program, payload, gas_limit, value, reply_deposit),
            SendForReplyRoute::SendFromReservation { reservation_id, program, payload, value, reply_deposit } => gear::send_from_reservation_for_reply(reservation_id, program, payload, value, reply_deposit),
            SendForReplyRoute::SendInput { program, value, range, reply_deposit } => gear::send_input_for_reply(program, value, range, reply_deposit),
            SendForReplyRoute::SendInputWithGas { program, gas_limit, value, range, reply_deposit } => gear::send_input_with_gas_for_reply(program, gas_limit, value, range, reply_deposit),
        }
    }
}

impl<E: Encode, D: Decode> SendBuilderForReply<E, DecodableW<D>> {
    /// Sends the message through the one primitive that its fields select, and
    /// returns that primitive's result unchanged: a handle on the reply decoded as `D`.
    pub fn execute(self) -> (r: Result<CodecMessageFuture<D>, CoreError>)
        ensures
            send_for_reply_as_outcome(send_for_reply_route_of(self@), r),
    {
        match self.into_route() {
            SendForReplyRoute::SendBytes { program, payload, value, reply_deposit } => gear::send_bytes_for_reply_as(program, payload, value, reply_deposit),
            SendForReplyRoute::SendBytesWithGas { program, payload, gas_limit, value, reply_deposit } => gear::send_bytes_with_gas_for_reply_as(program, payload, gas_limit, value, reply_deposit),
            SendForReplyRoute::SendBytesFromReservation { reservation_id, program, payload, value, reply_deposit } => gear::send_bytes_from_reservation_for_reply_as(reservation_id, program, payload, value, reply_deposit),
            SendForReplyRoute::Send { program, payload, value, reply_deposit } => gear::send_for_reply_as(program, payload, value, reply_deposit),
            SendForReplyRoute::SendWithGas { program, payload, gas_limit, value, reply_deposit } => gear::send_with_gas_for_reply_as(program, payload, gas_limit, value, reply_deposit),
            SendForReplyRoute::SendFromReservation { reservation_id, program, payload, value, reply_deposit } => gear::send_from_reservation_for_reply_as(reservation_id, program, payload, value, reply_deposit),
            SendForReplyRoute::SendInput { program, value, range, reply_deposit } => gear::send_input_for_reply_as(program, value, range, reply_deposit),
            SendForReplyRoute::SendInputWithGas { program, gas_limit, value, range, reply_deposit } => gear::send_input_with_gas_for_reply_as(program, gas_limit, value, range, reply_deposit),
        }
    }
}
} // verus!
