//! The builder for a reply to the message being processed.
use vstd::prelude::*;

use crate::common::{call_of, resolve_call, Call, Draft, Payload};
use crate::gear;
use core::ops::Range;
use gstd::errors::CoreError;
use gstd::{Encode, MessageId, ReservationId};

verus! {

/// A reply to the message being processed, being configured. A reply goes to the
/// sender of that message at once, so it has no destination and no delay. `E` is
/// the type of an encodable payload.
pub struct ReplyBuilder<E = ()> {
    draft: Draft<(), E>,
}

impl<E> View for ReplyBuilder<E> {
    type V = Draft<(), E>;

    closed spec fn view(&self) -> Draft<(), E> {
        self.draft
    }
}

impl ReplyBuilder<()> {
    /// Starts a reply whose payload is a byte buffer.
    pub fn bytes(payload: Vec<u8>) -> (r: Self)
        ensures
            r@ == Draft::<(), ()>::fresh((), Payload::Bytes(payload)),
    {
        ReplyBuilder { draft: Draft::new((), Payload::Bytes(payload)) }
    }

    /// Starts a reply whose payload is a range of the message being processed.
    pub fn input(payload: Range<usize>) -> (r: Self)
        ensures
            r@ == Draft::<(), ()>::fresh((), Payload::Input(payload)),
    {
        ReplyBuilder { draft: Draft::new((), Payload::Input(payload)) }
    }
}

impl<E> ReplyBuilder<E> {
    #[verifier::type_invariant]
    spec fn inv(self) -> bool {
        &&& self.draft.fields.delay is None
        &&& self.draft.fields.reply_deposit is None
        &&& self.draft.fields.gas is Reservation ==> self.draft.payload.supports_reservation()
    }

    /// Starts a reply whose payload is a value encoded when it is sent.
    pub fn encode(payload: E) -> (r: Self)
        ensures
            r@ == Draft::fresh((), Payload::Encoded(payload)),
    {
        ReplyBuilder { draft: Draft::new((), Payload::Encoded(payload)) }
    }

    /// Attaches a value to the reply.
    pub fn with_value(self, value: u128) -> (r: Self)
        requires
            self@.fields.value is None,
        ensures
            r@ == self@.with_value(value),
    {
        proof {
            use_type_invariant(&self);
        }
        ReplyBuilder { draft: self.draft.set_value(value) }
    }

    /// Gives the reply an explicit gas limit.
    pub fn with_gas_limit(self, gas_limit: u64) -> (r: Self)
        requires
            self@.gas_open(),
        ensures
            r@ == self@.with_gas_limit(gas_limit),
    {
        proof {
            use_type_invariant(&self);
        }
        ReplyBuilder { draft: self.draft.set_gas_limit(gas_limit) }
    }

    /// Takes the gas of the reply from a reservation.
    pub fn with_gas_from_reservation(self, reservation_id: ReservationId) -> (r: Self)
        requires
            self@.reservation_open(),
        ensures
            r@ == self@.with_gas_from_reservation(reservation_id),
    {
        proof {
            use_type_invariant(&self);
        }
        ReplyBuilder { draft: self.draft.set_gas_from_reservation(reservation_id) }
    }

    /// The value attached to the reply: the one set, or zero.
    pub fn value(&self) -> (r: u128)
        ensures
            r == self@.fields.value_or_zero(),
    {
        match self.draft.fields.value {
            Some(v) => v,
            None => 0,
        }
    }

    /// The payload of the reply.
    pub fn payload(&self) -> (r: &Payload<E>)
        ensures
            *r == self@.payload,
    {
        &self.draft.payload
    }

    /// The call that `execute` makes; it is never delayed.
    pub fn plan(&self) -> (r: Call)
        ensures
            r == call_of(self@.fields),
            r.delay() is None,
    {
        proof {
            use_type_invariant(self);
        }
        resolve_call(&self.draft.fields)
    }
}

/// The `gstd::msg` primitive that a reply is sent through, one variant per
/// primitive, with the arguments it is called with in the primitive's order.
#[derive(Debug, PartialEq, Eq)]
pub enum ReplyRoute<E> {
    ReplyBytes { payload: Vec<u8>, value: u128 },
    ReplyBytesWithGas { payload: Vec<u8>, gas_limit: u64, value: u128 },
    ReplyBytesFromReservation { reservation_id: ReservationId, payload: Vec<u8>, value: u128 },
    Reply { payload: E, value: u128 },
    ReplyWithGas { payload: E, gas_limit: u64, value: u128 },
    ReplyFromReservation { reservation_id: ReservationId, payload: E, value: u128 },
    ReplyInput { value: u128, range: Range<usize> },
    ReplyInputWithGas { gas_limit: u64, value: u128, range: Range<usize> },
}

/// The routing table of `ReplyBuilder`. A reply has no delay, and an input payload
/// never holds a reservation: those drafts are never reached.
pub open spec fn reply_route_of<E>(d: Draft<(), E>) -> ReplyRoute<E> {
    match d.payload {
        Payload::Bytes(payload) => match call_of(d.fields) {
            Call::Plain { value } => ReplyRoute::ReplyBytes { payload, value },
            Call::WithGas { gas_limit, value } => ReplyRoute::ReplyBytesWithGas { payload, gas_limit, value },
            Call::FromReservation { reservation_id, value } => ReplyRoute::ReplyBytesFromReservation { reservation_id, payload, value },
            _ => arbitrary(),
        },
        Payload::Encoded(payload) => match call_of(d.fields) {
            Call::Plain { value } => ReplyRoute::Reply { payload, value },
            Call::WithGas { gas_limit, value } => ReplyRoute::ReplyWithGas { payload, gas_limit, value },
            Call::FromReservation { reservation_id, value } => ReplyRoute::ReplyFromReservation { reservation_id, payload, value },
            _ => arbitrary(),
        },
        Payload::Input(range) => match call_of(d.fields) {
            Call::Plain { value } => ReplyRoute::ReplyInput { value, range },
            Call::WithGas { gas_limit, value } => ReplyRoute::ReplyInputWithGas { gas_limit, value, range },
            _ => arbitrary(),
        },
    }
}

/// What `ReplyBuilder::execute` may return: an outcome of the one primitive that the
/// route names, called with exactly the route's arguments.
pub closed spec fn reply_outcome<E: Encode>(route: ReplyRoute<E>, r: Result<MessageId, CoreError>) -> bool {
    match route {
        ReplyRoute::ReplyBytes { payload, value } => call_ensures(
            gear::reply_bytes,
            (payload, value),
            r,
        ),
        ReplyRoute::ReplyBytesWithGas { payload, gas_limit, value } => call_ensures(
            gear::reply_bytes_with_gas,
            (payload, gas_limit, value),
            r,
        ),
        ReplyRoute::ReplyBytesFromReservation { reservation_id, payload, value } => call_ensures(
            gear::reply_bytes_from_reservation,
            (reservation_id, payload, value),
            r,
        ),
        ReplyRoute::Reply { payload, value } => call_ensures(
            gear::reply::<E>,
            (payload, value),
            r,
        ),
        ReplyRoute::ReplyWithGas { payload, gas_limit, value } => call_ensures(
            gear::reply_with_gas::<E>,
            (payload, gas_limit, value),
            r,
        ),
        ReplyRoute::ReplyFromReservation { reservation_id, payload, value } => call_ensures(
            gear::reply_from_reservation::<E>,
            (reservation_id, payload, value),
            r,
        ),
        ReplyRoute::ReplyInput { value, range } => call_ensures(
            gear::reply_input,
            (value, range),
            r,
        ),
        ReplyRoute::ReplyInputWithGas { gas_limit, value, range } => call_ensures(
            gear::reply_input_with_gas,
            (gas_limit, value, range),
            r,
        ),
    }
}

impl<E> ReplyBuilder<E> {
    /// The primitive that `execute` calls, with its arguments.
    pub fn into_route(self) -> (r: ReplyRoute<E>)
        ensures
            r == reply_route_of(self@),
    {
        proof {
            use_type_invariant(&self);
        }
        let call = resolve_call(&self.draft.fields);
        match self.draft.payload {
            Payload::Bytes(payload) => match call {
                Call::Plain { value } => ReplyRoute::ReplyBytes { payload, value },
                Call::WithGas { gas_limit, value } => ReplyRoute::ReplyBytesWithGas { payload, gas_limit, value },
                Call::FromReservation { reservation_id, value } => ReplyRoute::ReplyBytesFromReservation { reservation_id, payload, value },
                _ => {
                    // a reply has no delay (type invariant)
                    unreached()
                },
            },
            Payload::Encoded(payload) => match call {
                Call::Plain { value } => ReplyRoute::Reply { payload, value },
                Call::WithGas { gas_limit, value } => ReplyRoute::ReplyWithGas { payload, gas_limit, value },
                Call::FromReservation { reservation_id, value } => ReplyRoute::ReplyFromReservation { reservation_id, payload, value },
                _ => {
                    // a reply has no delay (type invariant)
                    unreached()
                },
            },
            Payload::Input(range) => match call {
                Call::Plain { value } => ReplyRoute::ReplyInput { value, range },
                Call::WithGas { gas_limit, value } => ReplyRoute::ReplyInputWithGas { gas_limit, value, range },
                _ => {
                    // no delay, and an input payload never holds a reservation (type invariant)
                    unreached()
                },
            },
        }
    }
}

impl<E: Encode> ReplyBuilder<E> {
    /// Sends the reply through the one primitive that its fields select, and
    /// returns that primitive's result unchanged.
    pub fn execute(self) -> (r: Result<MessageId, CoreError>)
        ensures
            reply_outcome(reply_route_of(self@), r),
    {
        match self.into_route() {
            ReplyRoute::ReplyBytes { payload, value } => gear::reply_bytes(payload, value),
            ReplyRoute::ReplyBytesWithGas { payload, gas_limit, value } => gear::reply_bytes_with_gas(payload, gas_limit, value),
            ReplyRoute::ReplyBytesFromReservation { reservation_id, payload, value } => gear::reply_bytes_from_reservation(reservation_id, payload, value),
            ReplyRoute::Reply { payload, value } => gear::reply(payload, value),
            ReplyRoute::ReplyWithGas { payload, gas_limit, value } => gear::reply_with_gas(payload, gas_limit, value),
            ReplyRoute::ReplyFromReservation { reservation_id, payload, value } => gear::reply_from_reservation(reservation_id, payload, value),
            ReplyRoute::ReplyInput { value, range } => gear::reply_input(value, range),
            ReplyRoute::ReplyInputWithGas { gas_limit, value, range } => gear::reply_input_with_gas(gas_limit, value, range),
        }
    }
}
} // verus!
