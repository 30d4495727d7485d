//! Builders for the creation of a program from code already on chain.
use vstd::prelude::*;

use crate::common::{call_of, resolve_call, Call, DecodableW, Draft, Payload};
use crate::gear;
use gstd::errors::CoreError;
use gstd::msg::{CodecCreateProgramFuture, CreateProgramFuture};
use gstd::{ActorId, CodeId, Decode, Encode, MessageId};

verus! {

/// The creation of a program from the code `code_id`, being configured. `E` is
/// the type of an encodable payload.
pub struct CreateProgramBuilder<E = ()> {
    draft: Draft<CodeId, E>,
}

impl<E> View for CreateProgramBuilder<E> {
    type V = Draft<CodeId, E>;

    closed spec fn view(&self) -> Draft<CodeId, E> {
        self.draft
    }
}

impl CreateProgramBuilder<()> {
    /// Starts the creation of a program whose initialization payload is a byte buffer.
    pub fn bytes(code_id: CodeId, payload: Vec<u8>) -> (r: Self)
        ensures
            r@ == Draft::<CodeId, ()>::fresh(code_id, Payload::Bytes(payload)),
    {
        CreateProgramBuilder { draft: Draft::new(code_id, Payload::Bytes(payload)) }
    }
}

impl<E> CreateProgramBuilder<E> {
    #[verifier::type_invariant]
    spec fn inv(self) -> bool {
        &&& !(self.draft.payload is Input)
        &&& !(self.draft.fields.gas is Reservation)
        &&& self.draft.fields.reply_deposit is None
    }

    /// Starts the creation of a program whose initialization payload is a value
    /// encoded when it is sent.
    pub fn encode(code_id: CodeId, payload: E) -> (r: Self)
        ensures
            r@ == Draft::fresh(code_id, Payload::Encoded(payload)),
    {
        CreateProgramBuilder { draft: Draft::new(code_id, Payload::Encoded(payload)) }
    }

    /// Attaches a value to the initialization message.
    pub fn with_value(self, value: u128) -> (r: Self)
        requires
            self@.fields.value is None,
        ensures
            r@ == self@.with_value(value),
    {
        proof {
            use_type_invariant(&self);
        }
        CreateProgramBuilder { draft: self.draft.set_value(value) }
    }

    /// Creates the program after `delay` blocks.
    pub fn with_delay(self, delay: u32) -> (r: Self)
        requires
            self@.fields.delay is None,
        ensures
            r@ == self@.with_delay(delay),
    {
        proof {
            use_type_invariant(&self);
        }
        CreateProgramBuilder { draft: self.draft.set_delay(delay) }
    }

    /// Gives the initialization message an explicit gas limit.
    pub fn with_gas_limit(self, gas_limit: u64) -> (r: Self)
        requires
            self@.gas_open(),
        ensures
            r@ == self@.with_gas_limit(gas_limit),
    {
        proof {
            use_type_invariant(&self);
        }
        CreateProgramBuilder { draft: self.draft.set_gas_limit(gas_limit) }
    }

    /// Waits for the reply to the initialization, as raw bytes.
    pub fn for_reply(self) -> (r: CreateProgramBuilderForReply<E, ()>)
        requires
            self@.fields.delay is None,
        ensures
            r@ == self@,
            r@.fields.reply_deposit is None,
    {
        proof {
            use_type_invariant(&self);
        }
        CreateProgramBuilderForReply { draft: self.draft, decode: () }
    }

    /// Waits for the reply to the initialization, decoded as `D`.
    pub fn for_reply_as<D>(self) -> (r: CreateProgramBuilderForReply<E, DecodableW<D>>)
        requires
            self@.fields.delay is None,
        ensures
            r@ == self@,
            r@.fields.reply_deposit is None,
    {
        proof {
            use_type_invariant(&self);
        }
        CreateProgramBuilderForReply { draft: self.draft, decode: DecodableW::new() }
    }

    /// The value attached to the initialization message: the one set, or zero.
    pub fn value(&self) -> (r: u128)
        ensures
            r == self@.fields.value_or_zero(),
    {
        match self.draft.fields.value {
            Some(v) => v,
            None => 0,
        }
    }

    /// The code the program is created from.
    pub fn code_id(&self) -> (r: CodeId)
        ensures
            r == self@.target,
    {
        self.draft.target
    }

    /// The initialization payload.
    pub fn payload(&self) -> (r: &Payload<E>)
        ensures
            *r == self@.payload,
    {
        &self.draft.payload
    }

    /// The call that `execute` makes; it never draws on a reservation.
    pub fn plan(&self) -> (r: Call)
        ensures
            r == call_of(self@.fields),
            !(r.gas() is Reservation),
    {
        proof {
            use_type_invariant(self);
        }
        resolve_call(&self.draft.fields)
    }
}

/// The creation of a program that waits for the reply to its initialization. `R`
/// is `()` for a raw reply and `DecodableW<D>` for a reply decoded as `D`.
pub struct CreateProgramBuilderForReply<E = (), R = ()> {
    draft: Draft<CodeId, E>,
    decode: R,
}

impl<E, R> View for CreateProgramBuilderForReply<E, R> {
    type V = Draft<CodeId, E>;

    closed spec fn view(&self) -> Draft<CodeId, E> {
        self.draft
    }
}

impl<E, R> CreateProgramBuilderForReply<E, R> {
    #[verifier::type_invariant]
    spec fn inv(self) -> bool {
        &&& !(self.draft.payload is Input)
        &&& !(self.draft.fields.gas is Reservation)
        &&& self.draft.fields.delay is None
    }

    /// Deposits gas for handling the reply.
    pub fn with_reply_deposit(self, reply_deposit: u64) -> (r: Self)
        requires
            self@.fields.reply_deposit is None,
        ensures
            r@ == self@.with_reply_deposit(reply_deposit),
    {
        proof {
            use_type_invariant(&self);
        }
        CreateProgramBuilderForReply { draft: self.draft.set_reply_deposit(reply_deposit), decode: self.decode }
    }

    /// The value attached to the initialization message: the one set, or zero.
    pub fn value(&self) -> (r: u128)
        ensures
            r == self@.fields.value_or_zero(),
    {
        match self.draft.fields.value {
            Some(v) => v,
            None => 0,
        }
    }

    /// The call that `execute` makes, and the reply deposit it passes. The call
    /// is never delayed and never draws on a reservation.
    pub fn plan(&self) -> (r: (Call, u64))
        ensures
            r == (call_of(self@.fields), self@.fields.reply_deposit_or_zero()),
            r.0.delay() is None,
            !(r.0.gas() is Reservation),
    {
        proof {
            use_type_invariant(self);
        }
        let reply_deposit = match self.draft.fields.reply_deposit {
            Some(d) => d,
            None => 0,
        };
        (resolve_call(&self.draft.fields), reply_deposit)
    }
}

/// The `ProgramGenerator` primitive that a program is created through, one
/// variant per primitive, with the arguments it is called with in the primitive's
/// order.
#[derive(Debug, PartialEq, Eq)]
pub enum CreateProgramRoute<E> {
    CreateProgramBytes { code_id: CodeId, payload: Vec<u8>, value: u128 },
    CreateProgramBytesDelayed { code_id: CodeId, payload: Vec<u8>, value: u128, delay: u32 },
    CreateProgramBytesWithGas { code_id: CodeId, payload: Vec<u8>, gas_limit: u64, value: u128 },
    CreateProgramBytesWithGasDelayed { code_id: CodeId, payload: Vec<u8>, gas_limit: u64, value: u128, delay: u32 },
    CreateProgram { code_id: CodeId, payload: E, value: u128 },
    CreateProgramDelayed { code_id: CodeId, payload: E, value: u128, delay: u32 },
    CreateProgramWithGas { code_id: CodeId, payload: E, gas_limit: u64, value: u128 },
    CreateProgramWithGasDelayed { code_id: CodeId, payload: E, gas_limit: u64, value: u128, delay: u32 },
}

/// The routing table of `CreateProgramBuilder`. A program is never created from
/// an input range nor with gas from a reservation: those drafts are never reached.
pub open spec fn create_program_route_of<E>(d: Draft<CodeId, E>) -> CreateProgramRoute<E> {
    let code_id = d.target;
    match d.payload {
        Payload::Bytes(payload) => match call_of(d.fields) {
            Call::Plain { value } => CreateProgramRoute::CreateProgramBytes { code_id, payload, value },
            Call::Delayed { value, delay } => CreateProgramRoute::CreateProgramBytesDelayed { code_id, payload, value, delay },
            Call::WithGas { gas_limit, value } => CreateProgramRoute::CreateProgramBytesWithGas { code_id, payload, gas_limit, value },
            Call::WithGasDelayed { gas_limit, value, delay } => CreateProgramRoute::CreateProgramBytesWithGasDelayed { code_id, payload, gas_limit, value, delay },
            _ => arbitrary(),
        },
        Payload::Encoded(payload) => match call_of(d.fields) {
            Call::Plain { value } => CreateProgramRoute::CreateProgram { code_id, payload, value },
            Call::Delayed { value, delay } => CreateProgramRoute::CreateProgramDelayed { code_id, payload, value, delay },
            Call::WithGas { gas_limit, value } => CreateProgramRoute::CreateProgramWithGas { code_id, payload, gas_limit, value },
            Call::WithGasDelayed { gas_limit, value, delay } => CreateProgramRoute::CreateProgramWithGasDelayed { code_id, payload, gas_limit, value, delay },
            _ => arbitrary(),
        },
        Payload::Input(_) => arbitrary(),
    }
}

/// What `CreateProgramBuilder::execute` may return: an outcome of the one primitive that the
/// route names, called with exactly the route's arguments.
pub closed spec fn create_program_outcome<E: Encode>(route: CreateProgramRoute<E>, r: Result<(MessageId, ActorId), CoreError>) -> bool {
    match route {
        CreateProgramRoute::CreateProgramBytes { code_id, payload, value } => call_ensures(
            gear::create_program_bytes,
            (code_id, payload, value),
            r,
        ),
        CreateProgramRoute::CreateProgramBytesDelayed { code_id, payload, value, delay } => call_ensures(
            gear::create_program_bytes_delayed,
            (code_id, payload, value, delay),
            r,
        ),
        CreateProgramRoute::CreateProgramBytesWithGas { code_id, payload, gas_limit, value } => call_ensures(
            gear::create_program_bytes_with_gas,
            (code_id, payload, gas_limit, value),
            r,
        ),
        CreateProgramRoute::CreateProgramBytesWithGasDelayed { code_id, payload, gas_limit, value, delay } => call_ensures(
            gear::create_program_bytes_with_gas_delayed,
            (code_id, payload, gas_limit, value, delay),
            r,
        ),
        CreateProgramRoute::CreateProgram { code_id, payload, value } => call_ensures(
            gear::create_program::<E>,
            (code_id, payload, value),
            r,
        ),
        CreateProgramRoute::CreateProgramDelayed { code_id, payload, value, delay } => call_ensures(
            gear::create_program_delayed::<E>,
            (code_id, payload, value, delay),
            r,
        ),
        CreateProgramRoute::CreateProgramWithGas { code_id, payload, gas_limit, value } => call_ensures(
            gear::create_program_with_gas::<E>,
            (code_id, payload, gas_limit, value),
            r,
        ),
        CreateProgramRoute::CreateProgramWithGasDelayed { code_id, payload, gas_limit, value, delay } => call_ensures(
            gear::create_program_with_gas_delayed::<E>,
            (code_id, payload, gas_limit, value, delay),
            r,
        ),
    }
}

impl<E> CreateProgramBuilder<E> {
    /// The primitive that `execute` calls, with its arguments.
    pub fn into_route(self) -> (r: CreateProgramRoute<E>)
        ensures
            r == create_program_route_of(self@),
    {
        proof {
            use_type_invariant(&self);
        }
        let call = resolve_call(&self.draft.fields);
        let code_id = self.draft.target;
        match self.draft.payload {
            Payload::Bytes(payload) => match call {
                Call::Plain { value } => CreateProgramRoute::CreateProgramBytes { code_id, payload, value },
                Call::Delayed { value, delay } => CreateProgramRoute::CreateProgramBytesDelayed { code_id, payload, value, delay },
                Call::WithGas { gas_limit, value } => CreateProgramRoute::CreateProgramBytesWithGas { code_id, payload, gas_limit, value },
                Call::WithGasDelayed { gas_limit, value, delay } => CreateProgramRoute::CreateProgramBytesWithGasDelayed { code_id, payload, gas_limit, value, delay },
                _ => {
                    // program creation never draws on a reservation (type invariant)
                    unreached()
                },
            },
            Payload::Encoded(payload) => match call {
                Call::Plain { value } => CreateProgramRoute::CreateProgram { code_id, payload, value },
                Call::Delayed { value, delay } => CreateProgramRoute::CreateProgramDelayed { code_id, payload, value, delay },
                Call::WithGas { gas_limit, value } => CreateProgramRoute::CreateProgramWithGas { code_id, payload, gas_limit, value },
                Call::WithGasDelayed { gas_limit, value, delay } => CreateProgramRoute::CreateProgramWithGasDelayed { code_id, payload, gas_limit, value, delay },
                _ => {
                    // program creation never draws on a reservation (type invariant)
                    unreached()
                },
            },
            Payload::Input(_) => {
                // a program is never created from an input range (type invariant)
                unreached()
            },
        }
    }
}

impl<E: Encode> CreateProgramBuilder<E> {
    /// Creates the program through the one primitive that the fields select, and
    /// returns that primitive's result unchanged: the initialization message and
    /// the new program.
    pub fn execute(self) -> (r: Result<(MessageId, ActorId), CoreError>)
        ensures
            create_program_outcome(create_program_route_of(self@), r),
    {
        match self.into_route() {
            CreateProgramRoute::CreateProgramBytes { code_id, payload, value } => gear::create_program_bytes(code_id, payload, value),
            CreateProgramRoute::CreateProgramBytesDelayed { code_id, payload, value, delay } => gear::create_program_bytes_delayed(code_id, payload, value, delay),
            CreateProgramRoute::CreateProgramBytesWithGas { code_id, payload, gas_limit, value } => gear::create_program_bytes_with_gas(code_id, payload, gas_limit, value),
            CreateProgramRoute::CreateProgramBytesWithGasDelayed { code_id, payload, gas_limit, value, delay } => gear::create_program_bytes_with_gas_delayed(code_id, payload, gas_limit, value, delay),
            CreateProgramRoute::CreateProgram { code_id, payload, value } => gear::create_program(code_id, payload, value),
            CreateProgramRoute::CreateProgramDelayed { code_id, payload, value, delay } => gear::create_program_delayed(code_id, payload, value, delay),
            CreateProgramRoute::CreateProgramWithGas { code_id, payload, gas_limit, value } => gear::create_program_with_gas(code_id, payload, gas_limit, value),
            CreateProgramRoute::CreateProgramWithGasDelayed { code_id, payload, gas_limit, value, delay } => gear::create_program_with_gas_delayed(code_id, payload, gas_limit, value, delay),
        }
    }
}

/// The `ProgramGenerator` primitive that a program waiting for the reply to its
/// initialization is created through, named after the primitive whose
/// `_for_reply` (or `_for_reply_as`) counterpart is called, with the arguments in
/// the primitive's order, the reply deposit last.
#[derive(Debug, PartialEq, Eq)]
pub enum CreateProgramForReplyRoute<E> {
    CreateProgramBytes { code_id: CodeId, payload: Vec<u8>, value: u128, reply_deposit: u64 },
    CreateProgramBytesWithGas { code_id: CodeId, payload: Vec<u8>, gas_limit: u64, value: u128, reply_deposit: u64 },
    CreateProgram { code_id: CodeId, payload: E, value: u128, reply_deposit: u64 },
    CreateProgramWithGas { code_id: CodeId, payload: E, gas_limit: u64, value: u128, reply_deposit: u64 },
}

/// The routing table of `CreateProgramBuilderForReply`. There is no delay, no
/// reservation and no input range here: those drafts are never reached.
pub open spec fn create_program_for_reply_route_of<E>(d: Draft<CodeId, E>) -> CreateProgramForReplyRoute<E> {
    let code_id = d.target;
    let reply_deposit = d.fields.reply_deposit_or_zero();
    match d.payload {
        Payload::Bytes(payload) => match call_of(d.fields) {
            Call::Plain { value } => CreateProgramForReplyRoute::CreateProgramBytes { code_id, payload, value, reply_deposit },
            Call::WithGas { gas_limit, value } => CreateProgramForReplyRoute::CreateProgramBytesWithGas { code_id, payload, gas_limit, value, reply_deposit },
            _ => arbitrary(),
        },
        Payload::Encoded(payload) => match call_of(d.fields) {
            Call::Plain { value } => CreateProgramForReplyRoute::CreateProgram { code_id, payload, value, reply_deposit },
            Call::WithGas { gas_limit, value } => CreateProgramForReplyRoute::CreateProgramWithGas { code_id, payload, gas_limit, value, reply_deposit },
            _ => arbitrary(),
        },
        Payload::Input(_) => arbitrary(),
    }
}

/// What `CreateProgramBuilderForReply::execute` may return for a raw reply: an
/// outcome of the `_for_reply` primitive that the route names, called with exactly
/// the route's arguments.
pub closed spec fn create_program_for_reply_outcome<E: Encode>(route: CreateProgramForReplyRoute<E>, r: Result<CreateProgramFuture, CoreError>) -> bool {
    match route {
        CreateProgramForReplyRoute::CreateProgramBytes { code_id, payload, value, reply_deposit } => call_ensures(
            gear::create_program_bytes_for_reply,
            (code_id, payload, value, reply_deposit),
            r,
        ),
        CreateProgramForReplyRoute::CreateProgramBytesWithGas { code_id, payload, gas_limit, value, reply_deposit } => call_ensures(
            gear::create_program_bytes_with_gas_for_reply,
            (code_id, payload, gas_limit, value, reply_deposit),
            r,
        ),
        CreateProgramForReplyRoute::CreateProgram { code_id, payload, value, reply_deposit } => call_ensures(
            gear::create_program_for_reply::<E>,
            (code_id, payload, value, reply_deposit),
            r,
        ),
        CreateProgramForReplyRoute::CreateProgramWithGas { code_id, payload, gas_limit, value, reply_deposit } => call_ensures(
            gear::create_program_with_gas_for_reply::<E>,
            (code_id, payload, gas_limit, value, reply_deposit),
            r,
        ),
    }
}

/// What `CreateProgramBuilderForReply::execute` may return for a reply decoded as
/// `D`: an outcome of the `_for_reply_as` primitive that the route names, called
/// with exactly the route's arguments.
pub closed spec fn create_program_for_reply_as_outcome<E: Encode, D: Decode>(route: CreateProgramForReplyRoute<E>, r: Result<CodecCreateProgramFuture<D>, CoreError>) -> bool {
    match route {
        CreateProgramForReplyRoute::CreateProgramBytes { code_id, payload, value, reply_deposit } => call_ensures(
            gear::create_program_bytes_for_reply_as::<D>,
            (code_id, payload, value, reply_deposit),
            r,
        ),
        CreateProgramForReplyRoute::CreateProgramBytesWithGas { code_id, payload, gas_limit, value, reply_deposit } => call_ensures(
            gear::create_program_bytes_with_gas_for_reply_as::<D>,
            (code_id, payload, gas_limit, value, reply_deposit),
            r,
        ),
        CreateProgramForReplyRoute::CreateProgram { code_id, payload, value, reply_deposit } => call_ensures(
            gear::create_program_for_reply_as::<E, D>,
            (code_id, payload, value, reply_deposit),
            r,
        ),
        CreateProgramForReplyRoute::CreateProgramWithGas { code_id, payload, gas_limit, value, reply_deposit } => call_ensures(
            gear::create_program_with_gas_for_reply_as::<E, D>,
            (code_id, payload, gas_limit, value, reply_deposit),
            r,
        ),
    }
}

impl<E, R> CreateProgramBuilderForReply<E, R> {
    /// The primitive that `execute` calls (its `_for_reply` or `_for_reply_as`
    /// counterpart), with its arguments.
    pub fn into_route(self) -> (r: CreateProgramForReplyRoute<E>)
        ensures
            r == create_program_for_reply_route_of(self@),
    {
        proof {
            use_type_invariant(&self);
        }
        let call = resolve_call(&self.draft.fields);
        let reply_deposit = match self.draft.fields.reply_deposit {
            Some(d) => d,
            None => 0,
        };
        let code_id = self.draft.target;
        match self.draft.payload {
            Payload::Bytes(payload) => match call {
                Call::Plain { value } => CreateProgramForReplyRoute::CreateProgramBytes { code_id, payload, value, reply_deposit },
                Call::WithGas { gas_limit, value } => CreateProgramForReplyRoute::CreateProgramBytesWithGas { code_id, payload, gas_limit, value, reply_deposit },
                _ => {
                    // no delay and no reservation (type invariant)
                    unreached()
                },
            },
            Payload::Encoded(payload) => match call {
                Call::Plain { value } => CreateProgramForReplyRoute::CreateProgram { code_id, payload, value, reply_deposit },
                Call::WithGas { gas_limit, value } => CreateProgramForReplyRoute::CreateProgramWithGas { code_id, payload, gas_limit, value, reply_deposit },
                _ => {
                    // no delay and no reservation (type invariant)
                    unreached()
                },
            },
            Payload::Input(_) => {
                // a program is never created from an input range (type invariant)
                unreached()
            },
        }
    }
}

impl<E: Encode> CreateProgramBuilderForReply<E, ()> {
    /// Creates the program through the one primitive that the fields select, and
    /// returns that primitive's result unchanged: a handle on the raw reply to the
    /// initialization.
    pub fn execute(self) -> (r: Result<CreateProgramFuture, CoreError>)
        ensures
            create_program_for_reply_outcome(create_program_for_reply_route_of(self@), r),
    {
        match self.into_route() {
            CreateProgramForReplyRoute::CreateProgramBytes { code_id, payload, value, reply_deposit } => gear::create_program_bytes_for_reply(code_id, payload, value, reply_deposit),
            CreateProgramForReplyRoute::CreateProgramBytesWithGas { code_id, payload, gas_limit, value, reply_deposit } => gear::create_program_bytes_with_gas_for_reply(code_id, payload, gas_limit, value, reply_deposit),
            CreateProgramForReplyRoute::CreateProgram { code_id, payload, value, reply_deposit } => gear::create_program_for_reply(code_id, payload, value, reply_deposit),
            CreateProgramForReplyRoute::CreateProgramWithGas { code_id, payload, gas_limit, value, reply_deposit } => gear::create_program_with_gas_for_reply(code_id, payload, gas_limit, value, reply_deposit),
        }
    }
}

impl<E: Encode, D: Decode> CreateProgramBuilderForReply<E, DecodableW<D>> {
    /// Creates the program through the one primitive that the fields select, and
    /// returns that primitive's result unchanged: a handle on the reply to the
    /// initialization, decoded as `D`.
    pub fn execute(self) -> (r: Result<CodecCreateProgramFuture<D>, CoreError>)
        ensures
            create_program_for_reply_as_outcome(create_program_for_reply_route_of(self@), r),
    {
        match self.into_route() {
            CreateProgramForReplyRoute::CreateProgramBytes { code_id, payload, value, reply_deposit } => gear::create_program_bytes_for_reply_as(code_id, payload, value, reply_deposit),
            CreateProgramForReplyRoute::CreateProgramBytesWithGas { code_id, payload, gas_limit, value, reply_deposit } => gear::create_program_bytes_with_gas_for_reply_as(code_id, payload, gas_limit, value, reply_deposit),
            CreateProgramForReplyRoute::CreateProgram { code_id, payload, value, reply_deposit } => gear::create_program_for_reply_as(code_id, payload, value, reply_deposit),
            CreateProgramForReplyRoute::CreateProgramWithGas { code_id, payload, gas_limit, value, reply_deposit } => gear::create_program_with_gas_for_reply_as(code_id, payload, gas_limit, value, reply_deposit),
        }
    }
}
} // verus!
