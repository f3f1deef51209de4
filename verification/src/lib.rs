//! Protocol core of a SOCKS5 proxy that serves CONNECT requests to IPv4 and
//! IPv6 addresses without authentication.
//!
//! Nothing here touches a socket. Each stage of the protocol is a function
//! from the bytes that were read to the bytes to send and a result; a session
//! is a state machine that is told what happened and says what to do next; a
//! direction of the relay is a smaller one. A server reads, writes, connects
//! and closes as they say.
//!
//! - `wire`: the byte values that the protocol fixes.
//! - `error`: the failures that end a session.
//! - `endpoint`: addresses with ports, to and from their bytes.
//! - `outcome`: what a stage hands back.
//! - `negotiator`: the version byte and the choice of a method.
//! - `request`: the header of a request.
//! - `connector`: the reply that follows the connection attempt.
//! - `relay`: one copy loop, and the end of two.
//! - `session`: one connection from its first byte to its end.

pub mod connector;
pub mod endpoint;
pub mod error;
pub mod negotiator;
pub mod outcome;
pub mod relay;
pub mod request;
pub mod session;
pub mod wire;
