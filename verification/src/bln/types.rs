use vstd::prelude::*;
use vstd::std_specs::convert::FromSpecImpl;

verus! {

/// A typed event of the BLN protocol. Coordinates are carried as the bit
/// patterns of IEEE 754 single-precision numbers, exactly as they travel on
/// the wire.
#[derive(Debug, Clone, Copy, PartialEq, Eq, Structural)]
pub enum BlnProtocolType {
    /// Request to move to a position (client to device).
    SetPositionRsq(u32, u32),
    /// The device has accepted a position request.
    SetPositionRsp,
    /// The device has reached the requested position.
    PositionReached(u32, u32),
    /// Request for the current position (client to device).
    GetPositionRsq,
    /// The current position and a flag byte.
    GetPositionRsp(u32, u32, u8),
    /// The device reports a failure, with its cause.
    ErrorRsp(BlnErrorCause),
}

/// The failure of a conversion into a typed event.
#[derive(Debug, Clone, Copy, PartialEq, Eq, Structural)]
pub struct InvalidProtocolType;

/// The status flag of a response, carried in the top three bits of the
/// length field.
#[derive(Debug, Clone, Copy, PartialEq, Eq, Structural)]
pub enum BlnResponseStatus {
    /// No status given.
    Unused,
    /// Success, without data.
    Okay,
    /// Success, with data.
    OkWithData,
    /// Failure; the payload names the cause.
    Error,
    /// A code without a meaning yet.
    Reserved,
}

impl BlnResponseStatus {
    /// The status that a raw code stands for. Codes without a meaning are
    /// all `Reserved`.
    pub open spec fn of_code(value: u8) -> BlnResponseStatus {
        if value == 0 {
            BlnResponseStatus::Unused
        } else if value == 1 {
            BlnResponseStatus::Okay
        } else if value == 2 {
            BlnResponseStatus::OkWithData
        } else if value == 3 {
            BlnResponseStatus::Error
        } else {
            BlnResponseStatus::Reserved
        }
    }

    /// The code of a status.
    pub open spec fn code(self) -> u8 {
        match self {
            BlnResponseStatus::Unused => 0,
            BlnResponseStatus::Okay => 1,
            BlnResponseStatus::OkWithData => 2,
            BlnResponseStatus::Error => 3,
            BlnResponseStatus::Reserved => 4,
        }
    }
}

impl From<u8> for BlnResponseStatus {
    fn from(value: u8) -> (result: Self)
        ensures
            result == BlnResponseStatus::of_code(value),
    {
        match value {
            0x00 => Self::Unused,
            0x01 => Self::Okay,
            0x02 => Self::OkWithData,
            0x03 => Self::Error,
            _ => Self::Reserved,
        }
    }
}

impl FromSpecImpl<u8> for BlnResponseStatus {
    open spec fn obeys_from_spec() -> bool {
        true
    }

    open spec fn from_spec(value: u8) -> Self {
        BlnResponseStatus::of_code(value)
    }
}

impl From<BlnResponseStatus> for u8 {
    fn from(value: BlnResponseStatus) -> (result: Self)
        ensures
            result == value.code(),
    {
        match value {
            BlnResponseStatus::Unused => 0x00,
            BlnResponseStatus::Okay => 0x01,
            BlnResponseStatus::OkWithData => 0x02,
            BlnResponseStatus::Error => 0x03,
            BlnResponseStatus::Reserved => 0x04,
        }
    }
}

impl FromSpecImpl<BlnResponseStatus> for u8 {
    open spec fn obeys_from_spec() -> bool {
        true
    }

    open spec fn from_spec(value: BlnResponseStatus) -> Self {
        value.code()
    }
}

/// The cause that an error response names in its one payload byte.
#[derive(Debug, Clone, Copy, PartialEq, Eq, Structural)]
pub enum BlnErrorCause {
    /// No error.
    Success,
    /// The checksum of a frame did not match.
    ChecksumError,
    /// An argument was invalid or out of range.
    InvalidArgument,
    /// The operation failed.
    OperationFailed,
    /// The configuration item does not exist.
    ConfigNotFound,
    /// The device failed internally.
    InternalError,
    /// The device is in a state that does not allow the operation.
    StateMismatch,
    /// No valid data is available.
    NoValidData,
    /// Any other cause.
    UnspecifiedError,
}

impl BlnErrorCause {
    /// The cause that a raw code stands for. Codes without a meaning are all
    /// `UnspecifiedError`.
    pub open spec fn of_code(value: u8) -> BlnErrorCause {
        if value == 0 {
            BlnErrorCause::Success
        } else if value == 1 {
            BlnErrorCause::ChecksumError
        } else if value == 2 {
            BlnErrorCause::InvalidArgument
        } else if value == 3 {
            BlnErrorCause::OperationFailed
        } else if value == 4 {
            BlnErrorCause::ConfigNotFound
        } else if value == 5 {
            BlnErrorCause::InternalError
        } else if value == 6 {
            BlnErrorCause::StateMismatch
        } else if value == 7 {
            BlnErrorCause::NoValidData
        } else {
            BlnErrorCause::UnspecifiedError
        }
    }

    /// The code of a cause.
    pub open spec fn code(self) -> u8 {
        match self {
            BlnErrorCause::Success => 0x00,
            BlnErrorCause::ChecksumError => 0x01,
            BlnErrorCause::InvalidArgument => 0x02,
            BlnErrorCause::OperationFailed => 0x03,
            BlnErrorCause::ConfigNotFound => 0x04,
            BlnErrorCause::InternalError => 0x05,
            BlnErrorCause::StateMismatch => 0x06,
            BlnErrorCause::NoValidData => 0x07,
            BlnErrorCause::UnspecifiedError => 0xFF,
        }
    }
}

impl From<u8> for BlnErrorCause {
    fn from(value: u8) -> (result: Self)
        ensures
            result == BlnErrorCause::of_code(value),
    {
        match value {
            0x00 => Self::Success,
            0x01 => Self::ChecksumError,
            0x02 => Self::InvalidArgument,
            0x03 => Self::OperationFailed,
            0x04 => Self::ConfigNotFound,
            0x05 => Self::InternalError,
            0x06 => Self::StateMismatch,
            0x07 => Self::NoValidData,
            _ => Self::UnspecifiedError,
        }
    }
}

impl FromSpecImpl<u8> for BlnErrorCause {
    open spec fn obeys_from_spec() -> bool {
        true
    }

    open spec fn from_spec(value: u8) -> Self {
        BlnErrorCause::of_code(value)
    }
}

impl From<BlnErrorCause> for u8 {
    fn from(value: BlnErrorCause) -> (result: Self)
        ensures
            result == value.code(),
    {
        match value {
            BlnErrorCause::Success => 0x00,
            BlnErrorCause::ChecksumError => 0x01,
            BlnErrorCause::InvalidArgument => 0x02,
            BlnErrorCause::OperationFailed => 0x03,
            BlnErrorCause::ConfigNotFound => 0x04,
            BlnErrorCause::InternalError => 0x05,
            BlnErrorCause::StateMismatch => 0x06,
            BlnErrorCause::NoValidData => 0x07,
            BlnErrorCause::UnspecifiedError => 0xFF,
        }
    }
}

impl FromSpecImpl<BlnErrorCause> for u8 {
    open spec fn obeys_from_spec() -> bool {
        true
    }

    open spec fn from_spec(value: BlnErrorCause) -> Self {
        value.code()
    }
}

/// Every status code that has a meaning is recovered from the status it
/// stands for.
pub proof fn status_code_round_trip(status: BlnResponseStatus)
    ensures
        BlnResponseStatus::of_code(status.code()) == status,
{
}

/// Every cause is recovered from its code.
pub proof fn cause_code_round_trip(cause: BlnErrorCause)
    ensures
        BlnErrorCause::of_code(cause.code()) == cause,
{
}

} // verus!
