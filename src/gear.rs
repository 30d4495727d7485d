//! The types and primitives this library takes from `gstd`. Each primitive has a
//! wrapper of the same name that hands its arguments over unchanged. The
//! primitives are calls into the Gear runtime: only a program running there (a
//! `wasm32` build) can make them, and elsewhere `gstd` stops with a panic.
use vstd::prelude::*;

use core::ops::Range;
use gstd::errors::CoreError;
use gstd::msg::{CodecCreateProgramFuture, CodecMessageFuture, CreateProgramFuture, MessageFuture};
use gstd::{ActorId, CodeId, Decode, Encode, MessageId, ReservationId};

verus! {

#[verifier::external_type_specification]
#[verifier::external_body]
pub struct ExActorId(gstd::ActorId);

#[verifier::external_type_specification]
#[verifier::external_body]
pub struct ExCodeId(gstd::CodeId);

#[verifier::external_type_specification]
#[verifier::external_body]
pub struct ExMessageId(gstd::MessageId);

#[verifier::external_type_specification]
#[verifier::external_body]
pub struct ExReservationId(gstd::ReservationId);

#[verifier::external_type_specification]
#[verifier::external_body]
pub struct ExCoreError(gstd::errors::CoreError);

/// Not used by the library itself: the `Future` impls of the reply handles below
/// name it as their output's error, so it has to be known for them to be.
#[verifier::external_type_specification]
#[verifier::external_body]
pub struct ExError(gstd::errors::Error);

#[verifier::external_type_specification]
#[verifier::external_body]
pub struct ExMessageFuture(gstd::msg::MessageFuture);

#[verifier::external_type_specification]
#[verifier::external_body]
pub struct ExCreateProgramFuture(gstd::msg::CreateProgramFuture);

#[verifier::external_type_specification]
#[verifier::external_body]
#[verifier::reject_recursive_types(T)]
pub struct ExCodecMessageFuture<T>(gstd::msg::CodecMessageFuture<T>);

#[verifier::external_type_specification]
#[verifier::external_body]
#[verifier::reject_recursive_types(T)]
pub struct ExCodecCreateProgramFuture<T>(gstd::msg::CodecCreateProgramFuture<T>);

/// Relies on `gstd::msg::send_bytes`, which sends a byte payload.
/// The outcome is decided by the runtime, so nothing is assumed of it.
#[verifier::external_body]
pub(crate) fn send_bytes(program: ActorId, payload: Vec<u8>, value: u128) -> Result<MessageId, CoreError> {
    gstd::msg::send_bytes(program, payload, value)
}

/// Relies on `gstd::msg::send_bytes_delayed`, which sends a byte payload after a delay.
/// The outcome is decided by the runtime, so nothing is assumed of it.
#[verifier::external_body]
pub(crate) fn send_bytes_delayed(program: ActorId, payload: Vec<u8>, value: u128, delay: u32) -> Result<MessageId, CoreError> {
    gstd::msg::send_bytes_delayed(program, payload, value, delay)
}

/// Relies on `gstd::msg::send_bytes_with_gas`, which sends a byte payload with an explicit gas limit.
/// The outcome is decided by the runtime, so nothing is assumed of it.
#[verifier::external_body]
pub(crate) fn send_bytes_with_gas(program: ActorId, payload: Vec<u8>, gas_limit: u64, value: u128) -> Result<MessageId, CoreError> {
    gstd::msg::send_bytes_with_gas(program, payload, gas_limit, value)
}

/// Relies on `gstd::msg::send_bytes_with_gas_delayed`, which sends a byte payload with an explicit gas limit after a delay.
/// The outcome is decided by the runtime, so nothing is assumed of it.
#[verifier::external_body]
pub(crate) fn send_bytes_with_gas_delayed(program: ActorId, payload: Vec<u8>, gas_limit: u64, value: u128, delay: u32) -> Result<MessageId, CoreError> {
    gstd::msg::send_bytes_with_gas_delayed(program, payload, gas_limit, value, delay)
}

/// Relies on `gstd::msg::send_bytes_from_reservation`, which sends a byte payload with gas from a reservation.
/// The outcome is decided by the runtime, so nothing is assumed of it.
#[verifier::external_body]
pub(crate) fn send_bytes_from_reservation(reservation_id: ReservationId, program: ActorId, payload: Vec<u8>, value: u128) -> Result<MessageId, CoreError> {
    gstd::msg::send_bytes_from_reservation(reservation_id, program, payload, value)
}

/// Relies on `gstd::msg::send_bytes_delayed_from_reservation`, which sends a byte payload with gas from a reservation after a delay.
/// The outcome is decided by the runtime, so nothing is assumed of it.
#[verifier::external_body]
pub(crate) fn send_bytes_delayed_from_reservation(reservation_id: ReservationId, program: ActorId, payload: Vec<u8>, value: u128, delay: u32) -> Result<MessageId, CoreError> {
    gstd::msg::send_bytes_delayed_from_reservation(reservation_id, program, payload, value, delay)
}

/// Relies on `gstd::msg::send`, which encodes and sends a payload.
/// The outcome is decided by the runtime, so nothing is assumed of it.
#[verifier::external_body]
pub(crate) fn send<E: Encode>(program: ActorId, payload: E, value: u128) -> Result<MessageId, CoreError> {
    gstd::msg::send(program, payload, value)
}

/// Relies on `gstd::msg::send_delayed`, which encodes and sends a payload after a delay.
/// The outcome is decided by the runtime, so nothing is assumed of it.
#[verifier::external_body]
pub(crate) fn send_delayed<E: Encode>(program: ActorId, payload: E, value: u128, delay: u32) -> Result<MessageId, CoreError> {
    gstd::msg::send_delayed(program, payload, value, delay)
}

/// Relies on `gstd::msg::send_with_gas`, which encodes and sends a payload with an explicit gas limit.
/// The outcome is decided by the runtime, so nothing is assumed of it.
#[verifier::external_body]
pub(crate) fn send_with_gas<E: Encode>(program: ActorId, payload: E, gas_limit: u64, value: u128) -> Result<MessageId, CoreError> {
    gstd::msg::send_with_gas(program, payload, gas_limit, value)
}

/// Relies on `gstd::msg::send_with_gas_delayed`, which encodes and sends a payload with an explicit gas limit after a delay.
/// The outcome is decided by the runtime, so nothing is assumed of it.
#[verifier::external_body]
pub(crate) fn send_with_gas_delayed<E: Encode>(program: ActorId, payload: E, gas_limit: u64, value: u128, delay: u32) -> Result<MessageId, CoreError> {
    gstd::msg::send_with_gas_delayed(program, payload, gas_limit, value, delay)
}

/// Relies on `gstd::msg::send_from_reservation`, which encodes and sends a payload with gas from a reservation.
/// The outcome is decided by the runtime, so nothing is assumed of it.
#[verifier::external_body]
pub(crate) fn send_from_reservation<E: Encode>(reservation_id: ReservationId, program: ActorId, payload: E, value: u128) -> Result<MessageId, CoreError> {
    gstd::msg::send_from_reservation(reservation_id, program, payload, value)
}

/// Relies on `gstd::msg::send_delayed_from_reservation`, which encodes and sends a payload with gas from a reservation after a delay.
/// The outcome is decided by the runtime, so nothing is assumed of it.
#[verifier::external_body]
pub(crate) fn send_delayed_from_reservation<E: Encode>(reservation_id: ReservationId, program: ActorId, payload: E, value: u128, delay: u32) -> Result<MessageId, CoreError> {
    gstd::msg::send_delayed_from_reservation(reservation_id, program, payload, value, delay)
}

/// Relies on `gstd::msg::send_input`, which forwards a range of the incoming message.
/// The outcome is decided by the runtime, so nothing is assumed of it.
#[verifier::external_body]
pub(crate) fn send_input(program: ActorId, value: u128, range: Range<usize>) -> Result<MessageId, CoreError> {
    gstd::msg::send_input(program, value, range)
}

/// Relies on `gstd::msg::send_input_delayed`, which forwards a range of the incoming message after a delay.
/// The outcome is decided by the runtime, so nothing is assumed of it.
#[verifier::external_body]
pub(crate) fn send_input_delayed(program: ActorId, value: u128, range: Range<usize>, delay: u32) -> Result<MessageId, CoreError> {
    gstd::msg::send_input_delayed(program, value, range, delay)
}

/// Relies on `gstd::msg::send_input_with_gas`, which forwards a range of the incoming message with an explicit gas limit.
/// The outcome is decided by the runtime, so nothing is assumed of it.
#[verifier::external_body]
pub(crate) fn send_input_with_gas(program: ActorId, gas_limit: u64, value: u128, range: Range<usize>) -> Result<MessageId, CoreError> {
    gstd::msg::send_input_with_gas(program, gas_limit, value, range)
}

/// Relies on `gstd::msg::send_input_with_gas_delayed`, which forwards a range of the incoming message with an explicit gas limit after a delay.
/// The outcome is decided by the runtime, so nothing is assumed of it.
#[verifier::external_body]
pub(crate) fn send_input_with_gas_delayed(program: ActorId, gas_limit: u64, value: u128, range: Range<usize>, delay: u32) -> Result<MessageId, CoreError> {
    gstd::msg::send_input_with_gas_delayed(program, gas_limit, value, range, delay)
}

/// Relies on `gstd::msg::send_bytes_for_reply`, which sends a byte payload and waits for the raw reply.
/// The outcome is decided by the runtime, so nothing is assumed of it.
#[verifier::external_body]
pub(crate) fn send_bytes_for_reply(program: ActorId, payload: Vec<u8>, value: u128, reply_deposit: u64) -> Result<MessageFuture, CoreError> {
    gstd::msg::send_bytes_for_reply(program, payload, value, reply_deposit)
}

/// Relies on `gstd::msg::send_bytes_with_gas_for_reply`, which sends a byte payload with an explicit gas limit and waits for the raw reply.
/// The outcome is decided by the runtime, so nothing is assumed of it.
#[verifier::external_body]
pub(crate) fn send_bytes_with_gas_for_reply(program: ActorId, payload: Vec<u8>, gas_limit: u64, value: u128, reply_deposit: u64) -> Result<MessageFuture, CoreError> {
    gstd::msg::send_bytes_with_gas_for_reply(program, payload, gas_limit, value, reply_deposit)
}

/// Relies on `gstd::msg::send_bytes_from_reservation_for_reply`, which sends a byte payload with gas from a reservation and waits for the raw reply.
/// The outcome is decided by the runtime, so nothing is assumed of it.
#[verifier::external_body]
pub(crate) fn send_bytes_from_reservation_for_reply(reservation_id: ReservationId, program: ActorId, payload: Vec<u8>, value: u128, reply_deposit: u64) -> Result<MessageFuture, CoreError> {
    gstd::msg::send_bytes_from_reservation_for_reply(reservation_id, program, payload, value, reply_deposit)
}

/// Relies on `gstd::msg::send_for_reply`, which encodes and sends a payload and waits for the raw reply.
/// The outcome is decided by the runtime, so nothing is assumed of it.
#[verifier::external_body]
pub(crate) fn send_for_reply<E: Encode>(program: ActorId, payload: E, value: u128, reply_deposit: u64) -> Result<MessageFuture, CoreError> {
    gstd::msg::send_for_reply(program, payload, value, reply_deposit)
}

/// Relies on `gstd::msg::send_with_gas_for_reply`, which encodes and sends a payload with an explicit gas limit and waits for the raw reply.
/// The outcome is decided by the runtime, so nothing is assumed of it.
#[verifier::external_body]
pub(crate) fn send_with_gas_for_reply<E: Encode>(program: ActorId, payload: E, gas_limit: u64, value: u128, reply_deposit: u64) -> Result<MessageFuture, CoreError> {
    gstd::msg::send_with_gas_for_reply(program, payload, gas_limit, value, reply_deposit)
}

/// Relies on `gstd::msg::send_from_reservation_for_reply`, which encodes and sends a payload with gas from a reservation and waits for the raw reply.
/// The outcome is decided by the runtime, so nothing is assumed of it.
#[verifier::external_body]
pub(crate) fn send_from_reservation_for_reply<E: Encode>(reservation_id: ReservationId, program: ActorId, payload: E, value: u128, reply_deposit: u64) -> Result<MessageFuture, CoreError> {
    gstd::msg::send_from_reservation_for_reply(reservation_id, program, payload, value, reply_deposit)
}

/// Relies on `gstd::msg::send_input_for_reply`, which forwards a range of the incoming message and waits for the raw reply.
/// The outcome is decided by the runtime, so nothing is assumed of it.
#[verifier::external_body]
pub(crate) fn send_input_for_reply(program: ActorId, value: u128, range: Range<usize>, reply_deposit: u64) -> Result<MessageFuture, CoreError> {
    gstd::msg::send_input_for_reply(program, value, range, reply_deposit)
}

/// Relies on `gstd::msg::send_input_with_gas_for_reply`, which forwards a range of the incoming message with an explicit gas limit and waits for the raw reply.
/// The outcome is decided by the runtime, so nothing is assumed of it.
#[verifier::external_body]
pub(crate) fn send_input_with_gas_for_reply(program: ActorId, gas_limit: u64, value: u128, range: Range<usize>, reply_deposit: u64) -> Result<MessageFuture, CoreError> {
    gstd::msg::send_input_with_gas_for_reply(program, gas_limit, value, range, reply_deposit)
}

/// Relies on `gstd::msg::send_bytes_for_reply_as`, which sends a byte payload and waits for a reply decoded as `D`.
/// The outcome is decided by the runtime, so nothing is assumed of it.
#[verifier::external_body]
pub(crate) fn send_bytes_for_reply_as<D: Decode>(program: ActorId, payload: Vec<u8>, value: u128, reply_deposit: u64) -> Result<CodecMessageFuture<D>, CoreError> {
    gstd::msg::send_bytes_for_reply_as(program, payload, value, reply_deposit)
}

/// Relies on `gstd::msg::send_bytes_with_gas_for_reply_as`, which sends a byte payload with an explicit gas limit and waits for a reply decoded as `D`.
/// The outcome is decided by the runtime, so nothing is assumed of it.
#[verifier::external_body]
pub(crate) fn send_bytes_with_gas_for_reply_as<D: Decode>(program: ActorId, payload: Vec<u8>, gas_limit: u64, value: u128, reply_deposit: u64) -> Result<CodecMessageFuture<D>, CoreError> {
    gstd::msg::send_bytes_with_gas_for_reply_as(program, payload, gas_limit, value, reply_deposit)
}

/// Relies on `gstd::msg::send_bytes_from_reservation_for_reply_as`, which sends a byte payload with gas from a reservation and waits for a reply decoded as `D`.
/// The outcome is decided by the runtime, so nothing is assumed of it.
#[verifier::external_body]
pub(crate) fn send_bytes_from_reservation_for_reply_as<D: Decode>(reservation_id: ReservationId, program: ActorId, payload: Vec<u8>, value: u128, reply_deposit: u64) -> Result<CodecMessageFuture<D>, CoreError> {
    gstd::msg::send_bytes_from_reservation_for_reply_as(reservation_id, program, payload, value, reply_deposit)
}

/// Relies on `gstd::msg::send_for_reply_as`, which encodes and sends a payload and waits for a reply decoded as `D`.
/// The outcome is decided by the runtime, so nothing is assumed of it.
#[verifier::external_body]
pub(crate) fn send_for_reply_as<E: Encode, D: Decode>(program: ActorId, payload: E, value: u128, reply_deposit: u64) -> Result<CodecMessageFuture<D>, CoreError> {
    gstd::msg::send_for_reply_as(program, payload, value, reply_deposit)
}

/// Relies on `gstd::msg::send_with_gas_for_reply_as`, which encodes and sends a payload with an explicit gas limit and waits for a reply decoded as `D`.
/// The outcome is decided by the runtime, so nothing is assumed of it.
#[verifier::external_body]
pub(crate) fn send_with_gas_for_reply_as<E: Encode, D: Decode>(program: ActorId, payload: E, gas_limit: u64, value: u128, reply_deposit: u64) -> Result<CodecMessageFuture<D>, CoreError> {
    gstd::msg::send_with_gas_for_reply_as(program, payload, gas_limit, value, reply_deposit)
}

/// Relies on `gstd::msg::send_from_reservation_for_reply_as`, which encodes and sends a payload with gas from a reservation and waits for a reply decoded as `D`.
/// The outcome is decided by the runtime, so nothing is assumed of it.
#[verifier::external_body]
pub(crate) fn send_from_reservation_for_reply_as<E: Encode, D: Decode>(reservation_id: ReservationId, program: ActorId, payload: E, value: u128, reply_deposit: u64) -> Result<CodecMessageFuture<D>, CoreError> {
    gstd::msg::send_from_reservation_for_reply_as(reservation_id, program, payload, value, reply_deposit)
}

/// Relies on `gstd::msg::send_input_for_reply_as`, which forwards a range of the incoming message and waits for a reply decoded as `D`.
/// The outcome is decided by the runtime, so nothing is assumed of it.
#[verifier::external_body]
pub(crate) fn send_input_for_reply_as<D: Decode>(program: ActorId, value: u128, range: Range<usize>, reply_deposit: u64) -> Result<CodecMessageFuture<D>, CoreError> {
    gstd::msg::send_input_for_reply_as(program, value, range, reply_deposit)
}

/// Relies on `gstd::msg::send_input_with_gas_for_reply_as`, which forwards a range of the incoming message with an explicit gas limit and waits for a reply decoded as `D`.
/// The outcome is decided by the runtime, so nothing is assumed of it.
#[verifier::external_body]
pub(crate) fn send_input_with_gas_for_reply_as<D: Decode>(program: ActorId, gas_limit: u64, value: u128, range: Range<usize>, reply_deposit: u64) -> Result<CodecMessageFuture<D>, CoreError> {
    gstd::msg::send_input_with_gas_for_reply_as(program, gas_limit, value, range, reply_deposit)
}

/// Relies on `gstd::msg::reply_bytes`, which replies with a byte payload.
/// The outcome is decided by the runtime, so nothing is assumed of it.
#[verifier::external_body]
pub(crate) fn reply_bytes(payload: Vec<u8>, value: u128) -> Result<MessageId, CoreError> {
    gstd::msg::reply_bytes(payload, value)
}

/// Relies on `gstd::msg::reply_bytes_with_gas`, which replies with a byte payload and an explicit gas limit.
/// The outcome is decided by the runtime, so nothing is assumed of it.
#[verifier::external_body]
pub(crate) fn reply_bytes_with_gas(payload: Vec<u8>, gas_limit: u64, value: u128) -> Result<MessageId, CoreError> {
    gstd::msg::reply_bytes_with_gas(payload, gas_limit, value)
}

/// Relies on `gstd::msg::reply_bytes_from_reservation`, which replies with a byte payload and gas from a reservation.
/// The outcome is decided by the runtime, so nothing is assumed of it.
#[verifier::external_body]
pub(crate) fn reply_bytes_from_reservation(reservation_id: ReservationId, payload: Vec<u8>, value: u128) -> Result<MessageId, CoreError> {
    gstd::msg::reply_bytes_from_reservation(reservation_id, payload, value)
}

/// Relies on `gstd::msg::reply`, which replies with an encoded payload.
/// The outcome is decided by the runtime, so nothing is assumed of it.
#[verifier::external_body]
pub(crate) fn reply<E: Encode>(payload: E, value: u128) -> Result<MessageId, CoreError> {
    gstd::msg::reply(payload, value)
}

/// Relies on `gstd::msg::reply_with_gas`, which replies with an encoded payload and an explicit gas limit.
/// The outcome is decided by the runtime, so nothing is assumed of it.
#[verifier::external_body]
pub(crate) fn reply_with_gas<E: Encode>(payload: E, gas_limit: u64, value: u128) -> Result<MessageId, CoreError> {
    gstd::msg::reply_with_gas(payload, gas_limit, value)
}

/// Relies on `gstd::msg::reply_from_reservation`, which replies with an encoded payload and gas from a reservation.
/// The outcome is decided by the runtime, so nothing is assumed of it.
#[verifier::external_body]
pub(crate) fn reply_from_reservation<E: Encode>(reservation_id: ReservationId, payload: E, value: u128) -> Result<MessageId, CoreError> {
    gstd::msg::reply_from_reservation(reservation_id, payload, value)
}

/// Relies on `gstd::msg::reply_input`, which replies with a range of the incoming message.
/// The outcome is decided by the runtime, so nothing is assumed of it.
#[verifier::external_body]
pub(crate) fn reply_input(value: u128, range: Range<usize>) -> Result<MessageId, CoreError> {
    gstd::msg::reply_input(value, range)
}

/// Relies on `gstd::msg::reply_input_with_gas`, which replies with a range of the incoming message and an explicit gas limit.
/// The outcome is decided by the runtime, so nothing is assumed of it.
#[verifier::external_body]
pub(crate) fn reply_input_with_gas(gas_limit: u64, value: u128, range: Range<usize>) -> Result<MessageId, CoreError> {
    gstd::msg::reply_input_with_gas(gas_limit, value, range)
}

/// Relies on `gstd::prog::ProgramGenerator::create_program_bytes`, which creates a program from a byte payload.
/// The outcome is decided by the runtime, so nothing is assumed of it.
#[verifier::external_body]
pub(crate) fn create_program_bytes(code_id: CodeId, payload: Vec<u8>, value: u128) -> Result<(MessageId, ActorId), CoreError> {
    gstd::prog::ProgramGenerator::create_program_bytes(code_id, payload, value)
}

/// Relies on `gstd::prog::ProgramGenerator::create_program_bytes_delayed`, which creates a program from a byte payload after a delay.
/// The outcome is decided by the runtime, so nothing is assumed of it.
#[verifier::external_body]
pub(crate) fn create_program_bytes_delayed(code_id: CodeId, payload: Vec<u8>, value: u128, delay: u32) -> Result<(MessageId, ActorId), CoreError> {
    gstd::prog::ProgramGenerator::create_program_bytes_delayed(code_id, payload, value, delay)
}

/// Relies on `gstd::prog::ProgramGenerator::create_program_bytes_with_gas`, which creates a program from a byte payload with an explicit gas limit.
/// The outcome is decided by the runtime, so nothing is assumed of it.
#[verifier::external_body]
pub(crate) fn create_program_bytes_with_gas(code_id: CodeId, payload: Vec<u8>, gas_limit: u64, value: u128) -> Result<(MessageId, ActorId), CoreError> {
    gstd::prog::ProgramGenerator::create_program_bytes_with_gas(code_id, payload, gas_limit, value)
}

/// Relies on `gstd::prog::ProgramGenerator::create_program_bytes_with_gas_delayed`, which creates a program from a byte payload with an explicit gas limit after a delay.
/// The outcome is decided by the runtime, so nothing is assumed of it.
#[verifier::external_body]
pub(crate) fn create_program_bytes_with_gas_delayed(code_id: CodeId, payload: Vec<u8>, gas_limit: u64, value: u128, delay: u32) -> Result<(MessageId, ActorId), CoreError> {
    gstd::prog::ProgramGenerator::create_program_bytes_with_gas_delayed(code_id, payload, gas_limit, value, delay)
}

/// Relies on `gstd::prog::ProgramGenerator::create_program`, which creates a program from an encoded payload.
/// The outcome is decided by the runtime, so nothing is assumed of it.
#[verifier::external_body]
pub(crate) fn create_program<E: Encode>(code_id: CodeId, payload: E, value: u128) -> Result<(MessageId, ActorId), CoreError> {
    gstd::prog::ProgramGenerator::create_program(code_id, payload, value)
}

/// Relies on `gstd::prog::ProgramGenerator::create_program_delayed`, which creates a program from an encoded payload after a delay.
/// The outcome is decided by the runtime, so nothing is assumed of it.
#[verifier::external_body]
pub(crate) fn create_program_delayed<E: Encode>(code_id: CodeId, payload: E, value: u128, delay: u32) -> Result<(MessageId, ActorId), CoreError> {
    gstd::prog::ProgramGenerator::create_program_delayed(code_id, payload, value, delay)
}

/// Relies on `gstd::prog::ProgramGenerator::create_program_with_gas`, which creates a program from an encoded payload with an explicit gas limit.
/// The outcome is decided by the runtime, so nothing is assumed of it.
#[verifier::external_body]
pub(crate) fn create_program_with_gas<E: Encode>(code_id: CodeId, payload: E, gas_limit: u64, value: u128) -> Result<(MessageId, ActorId), CoreError> {
    gstd::prog::ProgramGenerator::create_program_with_gas(code_id, payload, gas_limit, value)
}

/// Relies on `gstd::prog::ProgramGenerator::create_program_with_gas_delayed`, which creates a program from an encoded payload with an explicit gas limit after a delay.
/// The outcome is decided by the runtime, so nothing is assumed of it.
#[verifier::external_body]
pub(crate) fn create_program_with_gas_delayed<E: Encode>(code_id: CodeId, payload: E, gas_limit: u64, value: u128, delay: u32) -> Result<(MessageId, ActorId), CoreError> {
    gstd::prog::ProgramGenerator::create_program_with_gas_delayed(code_id, payload, gas_limit, value, delay)
}

/// Relies on `gstd::prog::ProgramGenerator::create_program_bytes_for_reply`, which creates a program from a byte payload and waits for the raw reply to its initialization.
/// The outcome is decided by the runtime, so nothing is assumed of it.
#[verifier::external_body]
pub(crate) fn create_program_bytes_for_reply(code_id: CodeId, payload: Vec<u8>, value: u128, reply_deposit: u64) -> Result<CreateProgramFuture, CoreError> {
    gstd::prog::ProgramGenerator::create_program_bytes_for_reply(code_id, payload, value, reply_deposit)
}

/// Relies on `gstd::prog::ProgramGenerator::create_program_bytes_with_gas_for_reply`, which creates a program from a byte payload with an explicit gas limit and waits for the raw reply to its initialization.
/// The outcome is decided by the runtime, so nothing is assumed of it.
#[verifier::external_body]
pub(crate) fn create_program_bytes_with_gas_for_reply(code_id: CodeId, payload: Vec<u8>, gas_limit: u64, value: u128, reply_deposit: u64) -> Result<CreateProgramFuture, CoreError> {
    gstd::prog::ProgramGenerator::create_program_bytes_with_gas_for_reply(code_id, payload, gas_limit, value, reply_deposit)
}

/// Relies on `gstd::prog::ProgramGenerator::create_program_for_reply`, which creates a program from an encoded payload and waits for the raw reply to its initialization.
/// The outcome is decided by the runtime, so nothing is assumed of it.
#[verifier::external_body]
pub(crate) fn create_program_for_reply<E: Encode>(code_id: CodeId, payload: E, value: u128, reply_deposit: u64) -> Result<CreateProgramFuture, CoreError> {
    gstd::prog::ProgramGenerator::create_program_for_reply(code_id, payload, value, reply_deposit)
}

/// Relies on `gstd::prog::ProgramGenerator::create_program_with_gas_for_reply`, which creates a program from an encoded payload with an explicit gas limit and waits for the raw reply to its initialization.
/// The outcome is decided by the runtime, so nothing is assumed of it.
#[verifier::external_body]
pub(crate) fn create_program_with_gas_for_reply<E: Encode>(code_id: CodeId, payload: E, gas_limit: u64, value: u128, reply_deposit: u64) -> Result<CreateProgramFuture, CoreError> {
    gstd::prog::ProgramGenerator::create_program_with_gas_for_reply(code_id, payload, gas_limit, value, reply_deposit)
}

/// Relies on `gstd::prog::ProgramGenerator::create_program_bytes_for_reply_as`, which creates a program from a byte payload and waits for the reply to its initialization decoded as `D`.
/// The outcome is decided by the runtime, so nothing is assumed of it.
#[verifier::external_body]
pub(crate) fn create_program_bytes_for_reply_as<D: Decode>(code_id: CodeId, payload: Vec<u8>, value: u128, reply_deposit: u64) -> Result<CodecCreateProgramFuture<D>, CoreError> {
    gstd::prog::ProgramGenerator::create_program_bytes_for_reply_as(code_id, payload, value, reply_deposit)
}

/// Relies on `gstd::prog::ProgramGenerator::create_program_bytes_with_gas_for_reply_as`, which creates a program from a byte payload with an explicit gas limit and waits for the reply to its initialization decoded as `D`.
/// The outcome is decided by the runtime, so nothing is assumed of it.
#[verifier::external_body]
pub(crate) fn create_program_bytes_with_gas_for_reply_as<D: Decode>(code_id: CodeId, payload: Vec<u8>, gas_limit: u64, value: u128, reply_deposit: u64) -> Result<CodecCreateProgramFuture<D>, CoreError> {
    gstd::prog::ProgramGenerator::create_program_bytes_with_gas_for_reply_as(code_id, payload, gas_limit, value, reply_deposit)
}

/// Relies on `gstd::prog::ProgramGenerator::create_program_for_reply_as`, which creates a program from an encoded payload and waits for the reply to its initialization decoded as `D`.
/// The outcome is decided by the runtime, so nothing is assumed of it.
#[verifier::external_body]
pub(crate) fn create_program_for_reply_as<E: Encode, D: Decode>(code_id: CodeId, payload: E, value: u128, reply_deposit: u64) -> Result<CodecCreateProgramFuture<D>, CoreError> {
    gstd::prog::ProgramGenerator::create_program_for_reply_as(code_id, payload, value, reply_deposit)
}

/// Relies on `gstd::prog::ProgramGenerator::create_program_with_gas_for_reply_as`, which creates a program from an encoded payload with an explicit gas limit and waits for the reply to its initialization decoded as `D`.
/// The outcome is decided by the runtime, so nothing is assumed of it.
#[verifier::external_body]
pub(crate) fn create_program_with_gas_for_reply_as<E: Encode, D: Decode>(code_id: CodeId, payload: E, gas_limit: u64, value: u128, reply_deposit: u64) -> Result<CodecCreateProgramFuture<D>, CoreError> {
    gstd::prog::ProgramGenerator::create_program_with_gas_for_reply_as(code_id, payload, gas_limit, value, reply_deposit)
}

} // verus!
