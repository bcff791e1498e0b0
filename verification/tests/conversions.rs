use bytes::{BufMut, BytesMut};
use lazy_net::bln::types::{BlnErrorCause, BlnProtocolType, BlnResponseStatus};
use lazy_net::types::{Command, ProtocolError};

// Helper to create a BytesMut from a slice
fn b(s: &[u8]) -> BytesMut {
    let mut buf = BytesMut::new();
    buf.put_slice(s);
    buf
}

// --- Command to typed event ---

#[test]
fn test_parse_error_rsp_success() {
    let mut payload = BytesMut::new();
    payload.put_u8(0x01); // ChecksumError
    let command = Command {
        cmd_type: b(&[0x00]), // Dummy command type, doesn't matter for error
        response_status: Some(BlnResponseStatus::Error.into()),
        payload: Some(payload),
    };
    let result: Result<BlnProtocolType, ProtocolError> = command.try_into();
    assert_eq!(
        result,
        Ok(BlnProtocolType::ErrorRsp(BlnErrorCause::ChecksumError))
    );
}

#[test]
fn test_parse_error_rsp_invalid_payload_len() {
    let mut payload = BytesMut::new();
    payload.put_slice(&[0x01, 0x02]); // Too long
    let command = Command {
        cmd_type: b(&[0x00]),
        response_status: Some(BlnResponseStatus::Error.into()),
        payload: Some(payload),
    };
    let result: Result<BlnProtocolType, ProtocolError> = command.try_into();
    assert_eq!(result, Err(ProtocolError::InvalidPayload));
}

#[test]
fn test_parse_error_rsp_no_payload() {
    let command = Command {
        cmd_type: b(&[0x00]),
        response_status: Some(BlnResponseStatus::Error.into()),
        payload: None,
    };
    let result: Result<BlnProtocolType, ProtocolError> = command.try_into();
    assert_eq!(result, Err(ProtocolError::InvalidPayload));
}

#[test]
fn test_parse_set_position_rsp_ok() {
    let command = Command {
        cmd_type: b(&[0x91]),
        response_status: Some(BlnResponseStatus::Okay.into()),
        payload: None,
    };
    let result: Result<BlnProtocolType, ProtocolError> = command.try_into();
    assert_eq!(result, Ok(BlnProtocolType::SetPositionRsp));
}

#[test]
fn test_parse_set_position_rsp_ok_with_data_invalid_status() {
    let command = Command {
        cmd_type: b(&[0x91]),
        response_status: Some(BlnResponseStatus::Okay.into()), // Should be OkWithData
        payload: Some(b(&[0; 8])),
    };
    let result: Result<BlnProtocolType, ProtocolError> = command.try_into();
    assert_eq!(result, Err(ProtocolError::InvalidPayload)); // Status mismatch
}

#[test]
fn test_parse_set_position_rsp_ok_with_data_success() {
    let mut payload = BytesMut::new();
    payload.put_f32_le(10.5);
    payload.put_f32_le(20.5);
    let command = Command {
        cmd_type: b(&[0x91]),
        response_status: Some(BlnResponseStatus::OkWithData.into()),
        payload: Some(payload),
    };
    let result: Result<BlnProtocolType, ProtocolError> = command.try_into();
    assert_eq!(
        result,
        Ok(BlnProtocolType::PositionReached(
            10.5f32.to_bits(),
            20.5f32.to_bits()
        ))
    );
}

#[test]
fn test_parse_set_position_rsp_ok_with_data_invalid_payload_len() {
    let command = Command {
        cmd_type: b(&[0x91]),
        response_status: Some(BlnResponseStatus::OkWithData.into()),
        payload: Some(b(&[0; 7])), // Wrong length
    };
    let result: Result<BlnProtocolType, ProtocolError> = command.try_into();
    assert_eq!(result, Err(ProtocolError::InvalidPayload));
}

#[test]
fn test_parse_get_position_rsp_success() {
    let mut payload = BytesMut::new();
    payload.put_f32_le(10.0);
    payload.put_f32_le(20.0);
    payload.put_u8(5); // Dummy u8
    let command = Command {
        cmd_type: b(&[0x93]),
        response_status: Some(BlnResponseStatus::OkWithData.into()),
        payload: Some(payload),
    };
    let result: Result<BlnProtocolType, ProtocolError> = command.try_into();
    assert_eq!(
        result,
        Ok(BlnProtocolType::GetPositionRsp(
            10.0f32.to_bits(),
            20.0f32.to_bits(),
            5
        ))
    );
}

#[test]
fn test_parse_get_position_rsp_invalid_status() {
    let command = Command {
        cmd_type: b(&[0x93]),
        response_status: Some(BlnResponseStatus::Okay.into()), // Should be OkWithData
        payload: Some(b(&[0; 9])),
    };
    let result: Result<BlnProtocolType, ProtocolError> = command.try_into();
    assert_eq!(result, Err(ProtocolError::InvalidPayload)); // Status mismatch
}

#[test]
fn test_parse_get_position_rsp_invalid_payload_len() {
    let mut payload = BytesMut::new();
    payload.put_f32_le(10.0);
    payload.put_f32_le(20.0);
    // Missing last u8
    let command = Command {
        cmd_type: b(&[0x93]),
        response_status: Some(BlnResponseStatus::OkWithData.into()),
        payload: Some(payload),
    };
    let result: Result<BlnProtocolType, ProtocolError> = command.try_into();
    assert_eq!(result, Err(ProtocolError::InvalidPayload));
}

#[test]
fn test_parse_invalid_cmd_type() {
    let command = Command {
        cmd_type: b(&[0xAA]), // Unknown command
        response_status: Some(BlnResponseStatus::Okay.into()),
        payload: None,
    };
    let result: Result<BlnProtocolType, ProtocolError> = command.try_into();
    assert_eq!(result, Err(ProtocolError::InvalidCommandType));
}

#[test]
fn test_parse_empty_cmd_type() {
    let command = Command {
        cmd_type: BytesMut::new(), // Empty command type
        response_status: Some(BlnResponseStatus::Okay.into()),
        payload: None,
    };
    let result: Result<BlnProtocolType, ProtocolError> = command.try_into();
    assert_eq!(result, Err(ProtocolError::InvalidCommandType));
}

// --- Typed event to command ---

#[test]
fn test_create_set_position_rsq() {
    let bln_cmd = BlnProtocolType::SetPositionRsq(10.0f32.to_bits(), 20.0f32.to_bits());
    let result: Result<Command, ProtocolError> = bln_cmd.try_into();
    assert!(result.is_ok());
    let command = result.unwrap();

    assert_eq!(command.cmd_type.as_ref(), &[0x31]);
    assert_eq!(command.response_status, None);

    let mut expected_payload = BytesMut::new();
    expected_payload.put_f32_le(10.0);
    expected_payload.put_f32_le(20.0);
    assert_eq!(command.payload.unwrap().as_ref(), expected_payload.as_ref());
}

#[test]
fn test_create_get_position_rsq() {
    let bln_cmd = BlnProtocolType::GetPositionRsq;
    let result: Result<Command, ProtocolError> = bln_cmd.try_into();
    assert!(result.is_ok());
    let command = result.unwrap();

    assert_eq!(command.cmd_type.as_ref(), &[0x33]);
    assert_eq!(command.response_status, None);
    assert_eq!(command.payload, None);
}

#[test]
fn test_create_unsupported_bln_type() {
    let bln_cmd = BlnProtocolType::SetPositionRsp; // Response type, cannot create
    let result: Result<Command, ProtocolError> = bln_cmd.try_into();
    assert_eq!(result, Err(ProtocolError::InvalidCommandType));
}

#[test]
fn test_create_error_rsp_bln_type() {
    let bln_cmd = BlnProtocolType::ErrorRsp(BlnErrorCause::ChecksumError); // Response type, cannot create
    let result: Result<Command, ProtocolError> = bln_cmd.try_into();
    assert_eq!(result, Err(ProtocolError::InvalidCommandType));
}

// --- The status and command matrix ---

#[test]
fn matrix_position_reached_one_two() {
    let command = Command {
        cmd_type: b(&[0x91]),
        response_status: Some(2),
        payload: Some(b(&[0x00, 0x00, 0x80, 0x3F, 0x00, 0x00, 0x00, 0x40])),
    };
    let result: Result<BlnProtocolType, ProtocolError> = command.try_into();
    assert_eq!(
        result,
        Ok(BlnProtocolType::PositionReached(0x3F80_0000, 0x4000_0000))
    );
    assert_eq!(f32::from_bits(0x3F80_0000), 1.0);
    assert_eq!(f32::from_bits(0x4000_0000), 2.0);
}

#[test]
fn matrix_get_position_three_four_seven() {
    let mut payload = BytesMut::new();
    payload.put_f32_le(3.0);
    payload.put_f32_le(4.0);
    payload.put_u8(7);
    let command = Command {
        cmd_type: b(&[0x93]),
        response_status: Some(2),
        payload: Some(payload),
    };
    let result: Result<BlnProtocolType, ProtocolError> = command.try_into();
    assert_eq!(
        result,
        Ok(BlnProtocolType::GetPositionRsp(0x4040_0000, 0x4080_0000, 7))
    );
}

#[test]
fn matrix_every_other_length_is_refused() {
    for n in 0usize..=12 {
        let bytes = vec![0u8; n];
        let ack: Result<BlnProtocolType, ProtocolError> = Command {
            cmd_type: b(&[0x91]),
            response_status: Some(1),
            payload: Some(b(&bytes)),
        }
        .try_into();
        assert_eq!(ack.is_ok(), n == 0);
        let reached: Result<BlnProtocolType, ProtocolError> = Command {
            cmd_type: b(&[0x91]),
            response_status: Some(2),
            payload: Some(b(&bytes)),
        }
        .try_into();
        assert_eq!(reached.is_ok(), n == 8);
        let position: Result<BlnProtocolType, ProtocolError> = Command {
            cmd_type: b(&[0x93]),
            response_status: Some(2),
            payload: Some(b(&bytes)),
        }
        .try_into();
        assert_eq!(position.is_ok(), n == 9);
        let error: Result<BlnProtocolType, ProtocolError> = Command {
            cmd_type: b(&[0x93]),
            response_status: Some(3),
            payload: Some(b(&bytes)),
        }
        .try_into();
        assert_eq!(error.is_ok(), n == 1);
        for r in [ack, reached, position, error] {
            if let Err(e) = r {
                assert_eq!(e, ProtocolError::InvalidPayload);
            }
        }
    }
}

#[test]
fn missing_status_is_invalid_payload() {
    let command = Command {
        cmd_type: b(&[0x91]),
        response_status: None,
        payload: None,
    };
    let result: Result<BlnProtocolType, ProtocolError> = command.try_into();
    assert_eq!(result, Err(ProtocolError::InvalidPayload));
}

#[test]
fn unused_and_reserved_status_are_refused_for_known_commands() {
    for status in [0u8, 4, 5, 6, 7] {
        for cmd in [0x91u8, 0x93] {
            let command = Command {
                cmd_type: b(&[cmd]),
                response_status: Some(status),
                payload: None,
            };
            let result: Result<BlnProtocolType, ProtocolError> = command.try_into();
            assert_eq!(result, Err(ProtocolError::InvalidPayload));
        }
    }
}

#[test]
fn error_cause_is_read_under_any_command() {
    for cmd in [0x00u8, 0x31, 0x91, 0x93, 0xFF] {
        let command = Command {
            cmd_type: b(&[cmd]),
            response_status: Some(3),
            payload: Some(b(&[0x06])),
        };
        let result: Result<BlnProtocolType, ProtocolError> = command.try_into();
        assert_eq!(
            result,
            Ok(BlnProtocolType::ErrorRsp(BlnErrorCause::StateMismatch))
        );
    }
}

#[test]
fn device_events_are_not_sent() {
    for event in [
        BlnProtocolType::SetPositionRsp,
        BlnProtocolType::PositionReached(1, 2),
        BlnProtocolType::GetPositionRsp(1, 2, 3),
        BlnProtocolType::ErrorRsp(BlnErrorCause::Success),
    ] {
        let result: Result<Command, ProtocolError> = event.try_into();
        assert_eq!(result.err(), Some(ProtocolError::InvalidCommandType));
    }
}

#[test]
fn set_position_payload_is_little_endian() {
    let result: Result<Command, ProtocolError> =
        BlnProtocolType::SetPositionRsq(0x0403_0201, 0x0807_0605).try_into();
    let command = result.unwrap();
    assert_eq!(
        command.payload.unwrap().as_ref(),
        &[0x01, 0x02, 0x03, 0x04, 0x05, 0x06, 0x07, 0x08]
    );
}
