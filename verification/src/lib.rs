//! STUN Binding usage: a client learns the transport address under which a
//! server sees it, and a server answers Binding Requests with that address.
//!
//! The wire format is left to the `stun_coder` crate. What surrounds it, from
//! the screening of inbound datagrams to the choice of a reply, is verified.

pub mod address;
pub mod codec;
pub mod frame;
pub mod message;
pub mod server;
pub mod client;
