use vstd::prelude::*;

use crate::input::{Modifier, MouseEdge};

verus! {

/// Names a callback of the configuration process.
#[derive(Debug, Clone, Copy, PartialEq, Eq, Hash, Structural)]
pub struct CallbackId(pub u32);

/// Names one request of the configuration process, and its response.
#[derive(Debug, Clone, Copy, PartialEq, Eq, Hash, Structural)]
pub struct RequestId(pub u32);

/// The next value of a `u32` id counter, wrapping.
pub open spec fn next_id(n: u32) -> u32 {
    if n == u32::MAX {
        0
    } else {
        (n + 1) as u32
    }
}

/// What a callback of the configuration process is called with.
#[derive(Debug, Clone, PartialEq, Eq)]
pub enum Args {
    /// A spawned process wrote to its standard streams or exited.
    Spawn {
        stdout: Option<String>,
        stderr: Option<String>,
        exit_code: Option<i32>,
        exit_msg: Option<String>,
    },
    /// An output was connected.
    ConnectForAllOutputs { output_name: String },
}

/// What the configuration process asks of the compositor.
#[derive(Debug, Clone, PartialEq, Eq)]
pub enum Request {
    /// Bind a key, with modifiers, to a new callback.
    RegisterKeybind { modifiers: Vec<Modifier>, key: u32 },
    /// Bind a mouse button, with modifiers and an edge, to a new callback.
    RegisterMousebind { modifiers: Vec<Modifier>, button: u32, edge: MouseEdge },
}

/// The compositor's answer to a [`Request`].
#[derive(Debug, Clone, Copy, PartialEq, Eq, Structural)]
pub enum RequestResponse {
    /// The binding was made; the callback goes by this id.
    CallbackRegistered(CallbackId),
}

/// A message from the configuration process to the compositor.
#[derive(Debug, Clone, PartialEq, Eq)]
pub enum Msg {
    Request { request_id: RequestId, request: Request },
    Quit,
}

/// A message from the compositor to the configuration process. The client
/// library reads these as its incoming messages.
#[derive(Debug, Clone, PartialEq, Eq)]
pub enum OutgoingMsg<A, R> {
    CallCallback { callback_id: CallbackId, args: Option<A> },
    RequestResponse { request_id: RequestId, response: R },
}

} // verus!
