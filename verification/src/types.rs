use crate::buffer::{mut_contents, new_buffer};
use bytes::BytesMut;
use vstd::prelude::*;

verus! {

/// A protocol-agnostic command: the carrier between the framing engine and
/// the typed events of a concrete protocol.
#[derive(Debug, PartialEq, Eq)]
pub struct Command {
    /// The command identifier. A valid command has exactly one byte here.
    pub cmd_type: BytesMut,
    /// The three-bit status code of a received frame; `None` on a command
    /// that this side builds before encoding.
    pub response_status: Option<u8>,
    /// The payload, if any.
    pub payload: Option<BytesMut>,
}

/// What a `Command` holds, as plain values.
pub struct CommandView {
    pub cmd_type: Seq<u8>,
    pub response_status: Option<u8>,
    pub payload: Option<Seq<u8>>,
}

impl View for Command {
    type V = CommandView;

    open spec fn view(&self) -> CommandView {
        CommandView {
            cmd_type: mut_contents(self.cmd_type),
            response_status: self.response_status,
            payload: match self.payload {
                Some(p) => Some(mut_contents(p)),
                None => None,
            },
        }
    }
}

impl CommandView {
    /// The payload bytes, an absent payload counting as empty.
    pub open spec fn payload_bytes(self) -> Seq<u8> {
        match self.payload {
            Some(p) => p,
            None => Seq::empty(),
        }
    }
}

/// The views of a list of commands.
pub open spec fn command_views(commands: Seq<Command>) -> Seq<CommandView> {
    commands.map_values(|c: Command| c@)
}

/// The outcome of decoding a receive buffer.
pub struct Decoded {
    /// The commands of the valid frames, in the order of their frames.
    pub commands: Seq<CommandView>,
    /// What stays in the buffer for the next call.
    pub rest: Seq<u8>,
}

impl Default for Command {
    fn default() -> (result: Self)
        ensures
            result@.cmd_type == Seq::<u8>::empty(),
            result@.response_status == None::<u8>,
            result@.payload == None::<Seq<u8>>,
    {
        Command { cmd_type: new_buffer(), response_status: None, payload: None }
    }
}

/// The errors of mapping between commands, typed events and frames.
#[derive(Debug, Clone, Copy, PartialEq, Eq, Structural)]
pub enum ProtocolError {
    /// The command does not apply to this protocol.
    CommandNotApplicable,
    /// The command identifier is not valid for this protocol.
    InvalidCommandType,
    /// The payload is not valid for this command.
    InvalidPayload,
}

} // verus!
