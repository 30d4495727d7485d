//! The optional fields that all builders share, and the table that turns a set of
//! configured fields into the one call shape that dispatch makes.
use vstd::prelude::*;

use core::marker::PhantomData;
use core::ops::Range;
use gstd::ReservationId;

verus! {

/// Where the payload of a message comes from.
#[derive(Debug, PartialEq, Eq)]
pub enum Payload<E> {
    /// A raw byte buffer, sent as it is.
    Bytes(Vec<u8>),
    /// A value that the primitive encodes before sending.
    Encoded(E),
    /// A range of the message being processed, forwarded without copying.
    Input(Range<usize>),
}

impl<E> Payload<E> {
    /// Whether the primitives for this payload can take gas from a reservation.
    pub open spec fn supports_reservation(self) -> bool {
        !(self is Input)
    }
}

/// Marks a builder that waits for a reply decoded as `D`.
pub struct DecodableW<D>(pub PhantomData<D>);

impl<D> DecodableW<D> {
    pub fn new() -> DecodableW<D> {
        DecodableW(PhantomData)
    }
}

/// How the gas of a call is provided.
#[derive(Clone, Copy, Debug, PartialEq, Eq)]
pub enum GasPolicy {
    /// Neither a gas limit nor a reservation was given.
    Unset,
    /// An explicit gas limit.
    Limit(u64),
    /// Gas drawn from a reservation made earlier.
    Reservation(ReservationId),
}

/// The optional fields of a builder. `None` (or `GasPolicy::Unset`) means the
/// field was never set.
#[derive(Clone, Copy, Debug, PartialEq, Eq)]
pub struct Fields {
    pub value: Option<u128>,
    pub delay: Option<u32>,
    pub gas: GasPolicy,
    pub reply_deposit: Option<u64>,
}

impl Fields {
    /// No field set.
    pub open spec fn initial() -> Fields {
        Fields { value: None, delay: None, gas: GasPolicy::Unset, reply_deposit: None }
    }

    /// The value forwarded to a primitive: the one set, or zero.
    pub open spec fn value_or_zero(self) -> u128 {
        match self.value {
            Some(v) => v,
            None => 0,
        }
    }

    /// The reply deposit forwarded to a primitive: the one set, or zero.
    pub open spec fn reply_deposit_or_zero(self) -> u64 {
        match self.reply_deposit {
            Some(d) => d,
            None => 0,
        }
    }

    /// Builds the fields of a fresh builder.
    pub fn new() -> (r: Fields)
        ensures
            r == Fields::initial(),
    {
        Fields { value: None, delay: None, gas: GasPolicy::Unset, reply_deposit: None }
    }
}

/// The shape of the primitive call that dispatch makes, with the arguments it
/// takes besides the destination and the payload. Each variant stands for one
/// family of primitives (`send_bytes_with_gas_delayed`, `send_with_gas_delayed`,
/// `send_input_with_gas_delayed`, ...), the payload picking the member.
#[derive(Clone, Copy, Debug, PartialEq, Eq)]
pub enum Call {
    Plain { value: u128 },
    Delayed { value: u128, delay: u32 },
    WithGas { gas_limit: u64, value: u128 },
    WithGasDelayed { gas_limit: u64, value: u128, delay: u32 },
    FromReservation { reservation_id: ReservationId, value: u128 },
    DelayedFromReservation { reservation_id: ReservationId, value: u128, delay: u32 },
}

impl Call {
    /// The value the call forwards.
    pub open spec fn value(self) -> u128 {
        match self {
            Call::Plain { value } => value,
            Call::Delayed { value, .. } => value,
            Call::WithGas { value, .. } => value,
            Call::WithGasDelayed { value, .. } => value,
            Call::FromReservation { value, .. } => value,
            Call::DelayedFromReservation { value, .. } => value,
        }
    }

    /// The delay of the call, `None` for a primitive that sends at once.
    pub open spec fn delay(self) -> Option<u32> {
        match self {
            Call::Delayed { delay, .. } => Some(delay),
            Call::WithGasDelayed { delay, .. } => Some(delay),
            Call::DelayedFromReservation { delay, .. } => Some(delay),
            _ => None,
        }
    }

    /// How the call provides gas.
    pub open spec fn gas(self) -> GasPolicy {
        match self {
            Call::WithGas { gas_limit, .. } => GasPolicy::Limit(gas_limit),
            Call::WithGasDelayed { gas_limit, .. } => GasPolicy::Limit(gas_limit),
            Call::FromReservation { reservation_id, .. } => GasPolicy::Reservation(reservation_id),
            Call::DelayedFromReservation { reservation_id, .. } => GasPolicy::Reservation(
                reservation_id,
            ),
            _ => GasPolicy::Unset,
        }
    }
}

/// The dispatch table: the call that a set of fields maps to.
pub open spec fn call_of(fields: Fields) -> Call {
    let value = fields.value_or_zero();
    match (fields.gas, fields.delay) {
        (GasPolicy::Unset, None) => Call::Plain { value },
        (GasPolicy::Unset, Some(delay)) => Call::Delayed { value, delay },
        (GasPolicy::Limit(gas_limit), None) => Call::WithGas { gas_limit, value },
        (GasPolicy::Limit(gas_limit), Some(delay)) => Call::WithGasDelayed { gas_limit, value, delay },
        (GasPolicy::Reservation(reservation_id), None) => Call::FromReservation {
            reservation_id,
            value,
        },
        (GasPolicy::Reservation(reservation_id), Some(delay)) => Call::DelayedFromReservation {
            reservation_id,
            value,
            delay,
        },
    }
}

/// Computes the call that a set of fields maps to.
pub fn resolve_call(fields: &Fields) -> (r: Call)
    ensures
        r == call_of(*fields),
{
    let value = match fields.value {
        Some(v) => v,
        None => 0,
    };
    match (fields.gas, fields.delay) {
        (GasPolicy::Unset, None) => Call::Plain { value },
        (GasPolicy::Unset, Some(delay)) => Call::Delayed { value, delay },
        (GasPolicy::Limit(gas_limit), None) => Call::WithGas { gas_limit, value },
        (GasPolicy::Limit(gas_limit), Some(delay)) => Call::WithGasDelayed { gas_limit, value, delay },
        (GasPolicy::Reservation(reservation_id), None) => Call::FromReservation {
            reservation_id,
            value,
        },
        (GasPolicy::Reservation(reservation_id), Some(delay)) => Call::DelayedFromReservation {
            reservation_id,
            value,
            delay,
        },
    }
}

/// Dispatch makes exactly one call, and it is the right one: among all calls, the
/// one that the fields map to is the only one that is delayed exactly when a delay
/// was set, uses an explicit gas limit or a reservation exactly when one was given,
/// and forwards the configured value (zero when none was set).
pub proof fn lemma_call_matches_fields(fields: Fields, call: Call)
    ensures
        call == call_of(fields) <==> {
            &&& call.delay() == fields.delay
            &&& call.gas() == fields.gas
            &&& call.value() == fields.value_or_zero()
        },
{
}

/// A builder's configuration: what it sends to, what it sends, and its fields.
pub struct Draft<T, E> {
    pub target: T,
    pub payload: Payload<E>,
    pub fields: Fields,
}

impl<T, E> Draft<T, E> {
    /// A draft with no optional field set.
    pub open spec fn fresh(target: T, payload: Payload<E>) -> Draft<T, E> {
        Draft { target, payload, fields: Fields::initial() }
    }

    pub open spec fn with_value(self, value: u128) -> Draft<T, E> {
        Draft { fields: Fields { value: Some(value), ..self.fields }, ..self }
    }

    pub open spec fn with_delay(self, delay: u32) -> Draft<T, E> {
        Draft { fields: Fields { delay: Some(delay), ..self.fields }, ..self }
    }

    pub open spec fn with_gas_limit(self, gas_limit: u64) -> Draft<T, E> {
        Draft { fields: Fields { gas: GasPolicy::Limit(gas_limit), ..self.fields }, ..self }
    }

    pub open spec fn with_gas_from_reservation(self, id: ReservationId) -> Draft<T, E> {
        Draft { fields: Fields { gas: GasPolicy::Reservation(id), ..self.fields }, ..self }
    }

    pub open spec fn with_reply_deposit(self, reply_deposit: u64) -> Draft<T, E> {
        Draft { fields: Fields { reply_deposit: Some(reply_deposit), ..self.fields }, ..self }
    }

    /// Whether a gas limit or a reservation may still be given.
    pub open spec fn gas_open(self) -> bool {
        self.fields.gas is Unset
    }

    /// Whether gas may still be drawn from a reservation.
    pub open spec fn reservation_open(self) -> bool {
        self.gas_open() && self.payload.supports_reservation()
    }

    pub fn new(target: T, payload: Payload<E>) -> (r: Draft<T, E>)
        ensures
            r == Draft::fresh(target, payload),
    {
        Draft { target, payload, fields: Fields::new() }
    }

    pub fn set_value(self, value: u128) -> (r: Draft<T, E>)
        ensures
            r == self.with_value(value),
    {
        let mut fields = self.fields;
        fields.value = Some(value);
        Draft { target: self.target, payload: self.payload, fields }
    }

    pub fn set_delay(self, delay: u32) -> (r: Draft<T, E>)
        ensures
            r == self.with_delay(delay),
    {
        let mut fields = self.fields;
        fields.delay = Some(delay);
        Draft { target: self.target, payload: self.payload, fields }
    }

    pub fn set_gas_limit(self, gas_limit: u64) -> (r: Draft<T, E>)
        ensures
            r == self.with_gas_limit(gas_limit),
    {
        let mut fields = self.fields;
        fields.gas = GasPolicy::Limit(gas_limit);
        Draft { target: self.target, payload: self.payload, fields }
    }

    pub fn set_gas_from_reservation(self, id: ReservationId) -> (r: Draft<T, E>)
        ensures
            r == self.with_gas_from_reservation(id),
    {
        let mut fields = self.fields;
        fields.gas = GasPolicy::Reservation(id);
        Draft { target: self.target, payload: self.payload, fields }
    }

    pub fn set_reply_deposit(self, reply_deposit: u64) -> (r: Draft<T, E>)
        ensures
            r == self.with_reply_deposit(reply_deposit),
    {
        let mut fields = self.fields;
        fields.reply_deposit = Some(reply_deposit);
        Draft { target: self.target, payload: self.payload, fields }
    }
}

/// A value set with `with_value` reads back as that value; a value never set
/// reads as zero.
pub proof fn lemma_value_read_back<T, E>(draft: Draft<T, E>, value: u128)
    requires
        draft.fields.value is None,
    ensures
        draft.fields.value_or_zero() == 0,
        draft.with_value(value).fields.value_or_zero() == value,
{
}

/// A gas limit and a reservation exclude each other: once either is given,
/// neither may be given any more.
pub proof fn lemma_gas_policies_exclusive<T, E>(draft: Draft<T, E>, gas_limit: u64, id: ReservationId)
    requires
        draft.gas_open(),
    ensures
        !draft.with_gas_limit(gas_limit).gas_open(),
        !draft.with_gas_limit(gas_limit).reservation_open(),
        !draft.with_gas_from_reservation(id).gas_open(),
        !draft.with_gas_from_reservation(id).reservation_open(),
{
}

/// A field, once set, cannot be set again: the modifier that would set it again
/// requires it unset, and it no longer is.
pub proof fn lemma_fields_set_once<T, E>(draft: Draft<T, E>, value: u128, delay: u32, reply_deposit: u64)
    ensures
        draft.with_value(value).fields.value is Some,
        draft.with_delay(delay).fields.delay is Some,
        draft.with_reply_deposit(reply_deposit).fields.reply_deposit is Some,
{
}

/// Dispatch does not depend on the order of the modifiers: setting two different
/// fields in either order gives the same draft, and so the same call.
pub proof fn lemma_modifiers_commute<T, E>(
    draft: Draft<T, E>,
    value: u128,
    delay: u32,
    gas_limit: u64,
    id: ReservationId,
    reply_deposit: u64,
)
    ensures
        draft.with_value(value).with_delay(delay) == draft.with_delay(delay).with_value(value),
        draft.with_value(value).with_gas_limit(gas_limit) == draft.with_gas_limit(gas_limit).with_value(
            value,
        ),
        draft.with_value(value).with_gas_from_reservation(id) == draft.with_gas_from_reservation(
            id,
        ).with_value(value),
        draft.with_delay(delay).with_gas_limit(gas_limit) == draft.with_gas_limit(gas_limit).with_delay(
            delay,
        ),
        draft.with_delay(delay).with_gas_from_reservation(id) == draft.with_gas_from_reservation(
            id,
        ).with_delay(delay),
        draft.with_value(value).with_reply_deposit(reply_deposit) == draft.with_reply_deposit(
            reply_deposit,
        ).with_value(value),
        draft.with_gas_limit(gas_limit).with_reply_deposit(reply_deposit)
            == draft.with_reply_deposit(reply_deposit).with_gas_limit(gas_limit),
        draft.with_gas_from_reservation(id).with_reply_deposit(reply_deposit)
            == draft.with_reply_deposit(reply_deposit).with_gas_from_reservation(id),
{
}

} // verus!
