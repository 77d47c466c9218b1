//! Turns a one-shot "fetch the next event" exchange into a lazily pulled,
//! never-ending sequence of outcomes, with exactly one exchange in flight and
//! the next exchange started before the current outcome is handed out.
//!
//! The library holds the decisions: the stream driver's state machine, the
//! assembly of a response body from its chunks, and the rewriting of a request
//! target onto the client's fixed scheme and authority. The waiting itself
//! (futures, sockets) is done by the caller, who reports what happened.

pub mod body;
pub mod stream;
pub mod transport;
