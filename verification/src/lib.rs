//! Compiles the declaration of a channel protocol into the items that let two
//! execution contexts talk through function calls instead of hand-written
//! messages: a message enum, a client that sends it, and a handler trait that
//! dispatches it.
//!
//! The input is a [`channel_protocol::Protocol`]: a name, a visibility and an
//! ordered list of operations. The output is a [`tokens::TokenStream`]. Every
//! emitter states the exact stream it produces as a specification function of
//! its input, so the three artifacts provably agree on identifiers, on field
//! order and on the shape of every variant.
use vstd::prelude::*;

pub mod casing;
pub mod channel_protocol;
pub mod client;
pub mod enum_message;
pub mod handler;
pub mod laws;
pub mod render;
pub mod tokens;

verus! {

/// Compiles the protocol `item`: the same as [`channel_protocol::build`].
pub fn channel_protocol(item: &channel_protocol::Protocol) -> (result: Result<
    tokens::TokenStream,
    channel_protocol::BuildError,
>)
    ensures
        result is Ok <==> item@.well_formed(),
        item@.compiles_to(channel_protocol::result_view(result)),
        result matches Ok(stream) ==> tokens::well_nested(stream@),
{
    channel_protocol::build(item)
}

} // verus!
