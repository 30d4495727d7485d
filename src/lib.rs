//! A fluent, verified front end to the messaging primitives of `gstd`.
//!
//! A builder is started from a payload (and a destination or a code identifier),
//! refined by optional modifiers, and dispatched once. `resolve_call` maps the
//! configured fields to the one call shape whose capabilities are exactly those
//! fields (`plan` shows it), and each family's routing table (`send_route_of`,
//! `reply_route_of`, ...) turns the payload and that shape into one `gstd`
//! primitive with its arguments (`into_route` shows it). The contract of each
//! `execute` states that its result is an outcome of exactly that primitive,
//! called with exactly those arguments.
//!
//! Misuse is ruled out by the contracts: a modifier requires that its field is
//! still unset, a gas limit and a reservation exclude each other, a reservation
//! is only offered for payloads whose primitives take one, and waiting for a
//! reply requires that no delay was set.

pub mod common;
pub mod create_program;
pub mod functions;
mod gear;
pub mod reply;
pub mod send;

pub use common::{Call, DecodableW, Draft, Fields, GasPolicy, Payload};
pub use create_program::{
    CreateProgramBuilder, CreateProgramBuilderForReply, CreateProgramForReplyRoute, CreateProgramRoute,
};
pub use functions::{
    create_program, create_program_bytes, reply, reply_bytes, reply_input, send, send_bytes,
    send_input,
};
pub use gstd;
pub use gstd::{ActorId, CodeId, MessageId, ReservationId};
pub use reply::{ReplyBuilder, ReplyRoute};
pub use send::{SendBuilder, SendBuilderForReply, SendForReplyRoute, SendRoute};
