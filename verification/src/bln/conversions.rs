//! The mapping between generic commands and the typed events of the BLN
//! protocol.

use crate::bln::types::{BlnErrorCause, BlnProtocolType, BlnResponseStatus};
use crate::buffer::{
    as_slice, get_u32_le, get_u8, len, mut_contents, put_u32_le, put_u8, u32_from_le, u32_le,
    with_capacity,
};
use crate::types::{Command, CommandView, ProtocolError};
use vstd::prelude::*;
use vstd::std_specs::convert::TryFromSpecImpl;

verus! {

/// Identifier of a position request.
pub const CMD_SET_POSITION: u8 = 0x31;

/// Identifier of a position query.
pub const CMD_GET_POSITION: u8 = 0x33;

/// Identifier of the device's answers to a position request.
pub const CMD_SET_POSITION_RSP: u8 = 0x91;

/// Identifier of the device's answer to a position query.
pub const CMD_GET_POSITION_RSP: u8 = 0x93;

/// The typed event that a received command stands for.
///
/// A command without an identifier is refused first, then one without a
/// status. An error status is read the same way under every identifier: its
/// one payload byte names the cause. Otherwise the identifier and the status
/// together fix the payload length, and every other length is refused.
pub open spec fn event_of_command(c: CommandView) -> Result<BlnProtocolType, ProtocolError> {
    if c.cmd_type.len() == 0 {
        Err(ProtocolError::InvalidCommandType)
    } else if c.response_status is None {
        Err(ProtocolError::InvalidPayload)
    } else {
        let status = BlnResponseStatus::of_code(c.response_status->0);
        let p = c.payload_bytes();
        if status == BlnResponseStatus::Error {
            if p.len() == 1 {
                Ok(BlnProtocolType::ErrorRsp(BlnErrorCause::of_code(p[0])))
            } else {
                Err(ProtocolError::InvalidPayload)
            }
        } else if c.cmd_type[0] == 0x91u8 {
            if status == BlnResponseStatus::Okay && p.len() == 0 {
                Ok(BlnProtocolType::SetPositionRsp)
            } else if status == BlnResponseStatus::OkWithData && p.len() == 8 {
                Ok(BlnProtocolType::PositionReached(u32_from_le(p), u32_from_le(p.skip(4))))
            } else {
                Err(ProtocolError::InvalidPayload)
            }
        } else if c.cmd_type[0] == 0x93u8 {
            if status == BlnResponseStatus::OkWithData && p.len() == 9 {
                Ok(BlnProtocolType::GetPositionRsp(u32_from_le(p), u32_from_le(p.skip(4)), p[8]))
            } else {
                Err(ProtocolError::InvalidPayload)
            }
        } else {
            Err(ProtocolError::InvalidCommandType)
        }
    }
}

/// The command that carries an event to the device. Only the two requests
/// can be sent; every event that the device originates is refused.
pub open spec fn command_of_event(e: BlnProtocolType) -> Result<CommandView, ProtocolError> {
    match e {
        BlnProtocolType::SetPositionRsq(x, y) => Ok(
            CommandView {
                cmd_type: seq![0x31u8],
                response_status: None,
                payload: Some(u32_le(x) + u32_le(y)),
            },
        ),
        BlnProtocolType::GetPositionRsq => Ok(
            CommandView { cmd_type: seq![0x33u8], response_status: None, payload: None },
        ),
        _ => Err(ProtocolError::InvalidCommandType),
    }
}

impl TryFrom<Command> for BlnProtocolType {
    type Error = ProtocolError;

    fn try_from(value: Command) -> (result: Result<Self, Self::Error>)
        ensures
            result == event_of_command(value@),
    {
        if len(&value.cmd_type) == 0 {
            return Err(ProtocolError::InvalidCommandType);
        }
        let cmd_byte: u8 = as_slice(&value.cmd_type)[0];
        let status = match value.response_status {
            Some(code) => BlnResponseStatus::from(code),
            None => {
                return Err(ProtocolError::InvalidPayload);
            },
        };
        let ghost p = value@.payload_bytes();
        match status {
            BlnResponseStatus::Error => {
                match value.payload {
                    Some(mut payload) => {
                        if len(&payload) != 1 {
                            return Err(ProtocolError::InvalidPayload);
                        }
                        Ok(BlnProtocolType::ErrorRsp(BlnErrorCause::from(get_u8(&mut payload))))
                    },
                    None => Err(ProtocolError::InvalidPayload),
                }
            },
            _ => {
                match cmd_byte {
                    CMD_SET_POSITION_RSP => match status {
                        BlnResponseStatus::Okay => {
                            match value.payload {
                                Some(payload) => {
                                    if len(&payload) != 0 {
                                        return Err(ProtocolError::InvalidPayload);
                                    }
                                    Ok(BlnProtocolType::SetPositionRsp)
                                },
                                None => Ok(BlnProtocolType::SetPositionRsp),
                            }
                        },
                        BlnResponseStatus::OkWithData => {
                            match value.payload {
                                Some(mut payload) => {
                                    if len(&payload) != 8 {
                                        return Err(ProtocolError::InvalidPayload);
                                    }
                                    let x: u32 = get_u32_le(&mut payload);
                                    let y: u32 = get_u32_le(&mut payload);
                                    Ok(BlnProtocolType::PositionReached(x, y))
                                },
                                None => Err(ProtocolError::InvalidPayload),
                            }
                        },
                        _ => Err(ProtocolError::InvalidPayload),
                    },
                    CMD_GET_POSITION_RSP => {
                        match status {
                            BlnResponseStatus::OkWithData => {},
                            _ => {
                                return Err(ProtocolError::InvalidPayload);
                            },
                        }
                        match value.payload {
                            Some(mut payload) => {
                                if len(&payload) != 9 {
                                    return Err(ProtocolError::InvalidPayload);
                                }
                                let x: u32 = get_u32_le(&mut payload);
                                let y: u32 = get_u32_le(&mut payload);
                                proof {
                                    assert(mut_contents(payload) =~= p.skip(8));
                                }
                                let flag: u8 = get_u8(&mut payload);
                                Ok(BlnProtocolType::GetPositionRsp(x, y, flag))
                            },
                            None => Err(ProtocolError::InvalidPayload),
                        }
                    },
                    _ => Err(ProtocolError::InvalidCommandType),
                }
            },
        }
    }
}

impl TryFromSpecImpl<Command> for BlnProtocolType {
    open spec fn obeys_try_from_spec() -> bool {
        true
    }

    open spec fn try_from_spec(value: Command) -> Result<Self, Self::Error> {
        event_of_command(value@)
    }
}

impl TryFrom<BlnProtocolType> for Command {
    type Error = ProtocolError;

    fn try_from(value: BlnProtocolType) -> (result: Result<Self, Self::Error>)
        ensures
            match result {
                Ok(command) => command_of_event(value) == Ok::<CommandView, ProtocolError>(
                    command@,
                ),
                Err(e) => command_of_event(value) == Err::<CommandView, ProtocolError>(e),
            },
    {
        match value {
            BlnProtocolType::SetPositionRsq(pos1, pos2) => {
                let mut cmd_type = with_capacity(1);
                put_u8(&mut cmd_type, CMD_SET_POSITION);
                let mut load = with_capacity(8);
                put_u32_le(&mut load, pos1);
                put_u32_le(&mut load, pos2);
                proof {
                    assert(mut_contents(cmd_type) =~= seq![0x31u8]);
                    assert(mut_contents(load) =~= u32_le(pos1) + u32_le(pos2));
                }
                Ok(Command { cmd_type, response_status: None, payload: Some(load) })
            },
            BlnProtocolType::GetPositionRsq => {
                let mut cmd_type = with_capacity(1);
                put_u8(&mut cmd_type, CMD_GET_POSITION);
                proof {
                    assert(mut_contents(cmd_type) =~= seq![0x33u8]);
                }
                Ok(Command { cmd_type, response_status: None, payload: None })
            },
            _ => Err(ProtocolError::InvalidCommandType),
        }
    }
}

impl TryFromSpecImpl<BlnProtocolType> for Command {
    /// Two commands with the same bytes need not be the same value, so the
    /// conversion is specified by its own postcondition, over views.
    open spec fn obeys_try_from_spec() -> bool {
        false
    }

    open spec fn try_from_spec(value: BlnProtocolType) -> Result<Self, Self::Error> {
        match command_of_event(value) {
            Ok(view) => Ok(choose|command: Command| command@ == view),
            Err(e) => Err(e),
        }
    }
}

} // verus!
