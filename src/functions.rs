//! The entry points: one per family and payload kind.
use vstd::prelude::*;

use crate::common::{Draft, Payload};
use crate::create_program::CreateProgramBuilder;
use crate::reply::ReplyBuilder;
use crate::send::SendBuilder;
use core::ops::Range;
use gstd::{ActorId, CodeId};

verus! {

/// Starts a reply to the message being processed, with a byte payload.
pub fn reply_bytes(payload: Vec<u8>) -> (r: ReplyBuilder)
    ensures
        r@ == Draft::<(), ()>::fresh((), Payload::Bytes(payload)),
{
    ReplyBuilder::bytes(payload)
}

/// Starts a reply to the message being processed, with an encodable payload.
pub fn reply<E>(payload: E) -> (r: ReplyBuilder<E>)
    ensures
        r@ == Draft::fresh((), Payload::Encoded(payload)),
{
    ReplyBuilder::encode(payload)
}

/// Starts a reply to the message being processed, forwarding a range of it.
pub fn reply_input(payload: Range<usize>) -> (r: ReplyBuilder)
    ensures
        r@ == Draft::<(), ()>::fresh((), Payload::Input(payload)),
{
    ReplyBuilder::input(payload)
}

/// Starts a message to a program or user, with a byte payload.
pub fn send_bytes(program: ActorId, payload: Vec<u8>) -> (r: SendBuilder)
    ensures
        r@ == Draft::<ActorId, ()>::fresh(program, Payload::Bytes(payload)),
{
    SendBuilder::bytes(program, payload)
}

/// Starts a message to a program or user, with an encodable payload.
pub fn send<E>(program: ActorId, payload: E) -> (r: SendBuilder<E>)
    ensures
        r@ == Draft::fresh(program, Payload::Encoded(payload)),
{
    SendBuilder::encode(program, payload)
}

/// Starts a message to a program or user, forwarding a range of the message
/// being processed.
pub fn send_input(program: ActorId, payload: Range<usize>) -> (r: SendBuilder)
    ensures
        r@ == Draft::<ActorId, ()>::fresh(program, Payload::Input(payload)),
{
    SendBuilder::input(program, payload)
}

/// Starts the creation of a program from code already on chain, with a byte
/// initialization payload.
pub fn create_program_bytes(code_id: CodeId, payload: Vec<u8>) -> (r: CreateProgramBuilder)
    ensures
        r@ == Draft::<CodeId, ()>::fresh(code_id, Payload::Bytes(payload)),
{
    CreateProgramBuilder::bytes(code_id, payload)
}

/// Starts the creation of a program from code already on chain, with an
/// encodable initialization payload.
pub fn create_program<E>(code_id: CodeId, payload: E) -> (r: CreateProgramBuilder<E>)
    ensures
        r@ == Draft::fresh(code_id, Payload::Encoded(payload)),
{
    CreateProgramBuilder::encode(code_id, payload)
}

} // verus!
