use crate::bln::frame::{
    command_of_frame, complete_frame_len, data_len, decode_frames, encode_frame, find_head,
    find_head_from, frame_body, is_head_at, len_field_of, status_bits, DATA_LENGTH_MASK,
    FLAGS_MASK, FRAME_BCC_LEN, FRAME_FIXED_LEN, FRAME_HEAD_0, FRAME_HEAD_1, FRAME_HEAD_LEN,
    RESERVED_LEN, TYPE_LEN,
};
use crate::buffer::{
    advance, as_slice, freeze, frozen_contents, get_u16_le, get_u8, len, mut_contents, new_buffer,
    put_slice, put_u16_le, put_u8, split_to, with_capacity,
};
use crate::traits::{FrameGenerator, ParseProtocol};
use crate::types::{command_views, Command, CommandView, Decoded, ProtocolError};
use crate::utils::calculate_bcc;
use bytes::{Bytes, BytesMut};
use vstd::prelude::*;
use vstd::slice::slice_subrange;

verus! {

/// The decoding half of the BLN codec. It keeps no state of its own: what is
/// pending lives in the caller's receive buffer.
#[derive(Default)]
pub struct BlnCommandDecode;

impl BlnCommandDecode {
    /// Looks for the sync pattern. Where it is found, what precedes it is
    /// dropped from `buf`; where it is not, `buf` stays as it is.
    pub fn find_frame_head(&self, buf: &mut BytesMut) -> (found: bool)
        ensures
            match find_head(mut_contents(*old(buf))) {
                Some(i) => found && 0 <= i <= mut_contents(*old(buf)).len() && mut_contents(
                    *final(buf),
                ) == mut_contents(*old(buf)).skip(i),
                None => !found && mut_contents(*final(buf)) == mut_contents(*old(buf)),
            },
    {
        let ghost s = mut_contents(*buf);
        let n: usize = len(buf);
        let mut i: usize = 0;
        let mut found = false;
        while !found && n - i > 1
            invariant
                n == s.len(),
                s == mut_contents(*buf),
                i <= n,
                find_head(s) == find_head_from(s, i as int),
                found ==> is_head_at(s, i as int),
            decreases n - i + (if found { 0int } else { 1int }),
        {
            let bytes = as_slice(buf);
            if bytes[i] == FRAME_HEAD_0 && bytes[i + 1] == FRAME_HEAD_1 {
                found = true;
            } else {
                i = i + 1;
            }
        }
        if found {
            advance(buf, i);
        }
        found
    }

    /// The total length of the frame at the start of `buf`, if `buf` holds
    /// all of it.
    pub fn is_frame_complete(&self, buf: &BytesMut) -> (result: Option<usize>)
        ensures
            match result {
                Some(n) => complete_frame_len(mut_contents(*buf)) == Some(n as int),
                None => complete_frame_len(mut_contents(*buf)) == None::<int>,
            },
    {
        let min_len: usize = FRAME_FIXED_LEN + FRAME_BCC_LEN;
        let held: usize = len(buf);
        if held < min_len {
            return None;
        }
        let bytes = as_slice(buf);
        let len_field: u16 = (bytes[7] as u16) | ((bytes[8] as u16) << 8);
        let (data_len, _) = self.decode_length_flags(len_field);
        let frame_len: usize = data_len + min_len;
        if held < frame_len {
            return None;
        }
        Some(frame_len)
    }

    /// Splits a length field into the payload length (its thirteen low bits)
    /// and the status code (its three high bits).
    pub fn decode_length_flags(&self, len_field: u16) -> (result: (usize, u8))
        ensures
            result.0 == data_len(len_field),
            result.1 == status_bits(len_field),
            result.0 <= 8191,
            result.1 <= 7,
    {
        let low: u16 = len_field & DATA_LENGTH_MASK;
        let high: u16 = (len_field & FLAGS_MASK) >> 13;
        assert(len_field & 0x1FFF <= 8191) by (bit_vector);
        assert((len_field & 0xE000) >> 13 == len_field >> 13) by (bit_vector);
        assert(len_field >> 13 <= 7) by (bit_vector);
        (low as usize, high as u8)
    }
}

/// What `decode_frames` gives for a buffer, seen from a list of commands
/// already taken off it and the buffer as it then stands.
pub open spec fn decoded_after(taken: Seq<CommandView>, pending: Decoded) -> Decoded {
    Decoded { commands: taken + pending.commands, rest: pending.rest }
}

impl ParseProtocol for BlnCommandDecode {
    open spec fn decoded(&self, contents: Seq<u8>) -> Decoded {
        decode_frames(contents)
    }

    /// Takes every complete frame off the front of `buf`. Frames whose
    /// checksum matches give a command each, in order; the others are
    /// dropped whole. What stays in `buf` is an incomplete frame, bytes
    /// without a sync pattern, or nothing.
    fn parse_protocol_frame(&mut self, buf: &mut BytesMut) -> (result: Option<Vec<Command>>)
        ensures
            mut_contents(*final(buf)) == decode_frames(mut_contents(*old(buf))).rest,
            match result {
                Some(list) => list@.len() > 0 && command_views(list@) == decode_frames(
                    mut_contents(*old(buf)),
                ).commands,
                None => decode_frames(mut_contents(*old(buf))).commands.len() == 0,
            },
    {
        let ghost start = mut_contents(*buf);
        let mut command_list: Vec<Command> = Vec::new();
        let mut done = false;
        while !done
            invariant
                !done ==> decode_frames(start) == decoded_after(
                    command_views(command_list@),
                    decode_frames(mut_contents(*buf)),
                ),
                done ==> decode_frames(start) == (Decoded {
                    commands: command_views(command_list@),
                    rest: mut_contents(*buf),
                }),
            decreases
                    (if done {
                        0int
                    } else {
                        1 + mut_contents(*buf).len() as int
                    }),
        {
            let ghost taken = command_views(command_list@);
            if !self.find_frame_head(buf) {
                proof {
                    assert(taken + Seq::<CommandView>::empty() =~= taken);
                }
                done = true;
            } else {
                let ghost t = mut_contents(*buf);
                match self.is_frame_complete(buf) {
                    None => {
                        proof {
                            assert(taken + Seq::<CommandView>::empty() =~= taken);
                        }
                        done = true;
                    },
                    Some(frame_len) => {
                        let sum: u8 = calculate_bcc(
                            slice_subrange(
                                as_slice(buf),
                                FRAME_HEAD_LEN,
                                frame_len - FRAME_BCC_LEN,
                            ),
                        );
                        let last: u8 = as_slice(buf)[frame_len - FRAME_BCC_LEN];
                        if sum == last {
                            let mut frame_data = split_to(buf, frame_len);
                            let ghost f = t.take(frame_len as int);
                            advance(&mut frame_data, FRAME_HEAD_LEN);
                            let cmd_type_byte: u8 = get_u8(&mut frame_data);
                            advance(&mut frame_data, RESERVED_LEN);
                            let len_field: u16 = get_u16_le(&mut frame_data);
                            let (data_len, flags) = self.decode_length_flags(len_field);
                            proof {
                                assert(len_field == len_field_of(f));
                                assert(mut_contents(frame_data) =~= f.skip(9));
                            }
                            let payload = if data_len > 0 {
                                Some(split_to(&mut frame_data, data_len))
                            } else {
                                None
                            };
                            let mut cmd_type = with_capacity(TYPE_LEN);
                            put_u8(&mut cmd_type, cmd_type_byte);
                            let cmd = Command { cmd_type, response_status: Some(flags), payload };
                            proof {
                                assert(cmd@.cmd_type =~= seq![f[2]]);
                                if data_len > 0 {
                                    assert(f.skip(9).take(data_len as int) =~= f.subrange(
                                        9,
                                        9 + data_len,
                                    ));
                                }
                                assert(cmd@ == command_of_frame(f));
                                let tail = decode_frames(t.skip(frame_len as int));
                                assert(command_views(command_list@.push(cmd)) =~= taken.push(cmd@));
                                assert(taken.push(cmd@) + tail.commands =~= taken + (seq![
                                    command_of_frame(f),
                                ] + tail.commands));
                            }
                            command_list.push(cmd);
                        } else {
                            advance(buf, frame_len);
                        }
                    },
                }
            }
        }
        if command_list.len() == 0 {
            None
        } else {
            Some(command_list)
        }
    }
}

/// The frame of a command: only a command whose identifier is exactly one
/// byte has one.
pub open spec fn frame_of_command(command: CommandView) -> Result<Seq<u8>, ProtocolError> {
    if command.cmd_type.len() == 1 {
        Ok(encode_frame(command.cmd_type[0], command.payload_bytes()))
    } else {
        Err(ProtocolError::InvalidCommandType)
    }
}

/// The encoding half of the BLN codec. It keeps no state.
#[derive(Default)]
pub struct BlnCommandEncoder;

impl FrameGenerator for BlnCommandEncoder {
    open spec fn frame_fits(&self, command: CommandView) -> bool {
        command.payload_bytes().len() + 10 <= isize::MAX
    }

    open spec fn frame_of(&self, command: CommandView) -> Result<Seq<u8>, ProtocolError> {
        frame_of_command(command)
    }

    fn fits(&self, command: &Command) -> (ok: bool) {
        let payload_len: usize = match &command.payload {
            Some(p) => len(p),
            None => 0,
        };
        payload_len <= isize::MAX as usize - 10
    }

    /// Builds the frame of `command`: sync pattern, command identifier, four
    /// zero bytes, the payload length in thirteen bits with the status bits
    /// clear, the payload, and the checksum. A command whose identifier is
    /// not exactly one byte is refused.
    fn create_frame(&self, command: Command) -> (result: Result<Bytes, ProtocolError>)
        ensures
            match result {
                Ok(frame) => command@.cmd_type.len() == 1 && frozen_contents(frame)
                    == encode_frame(command@.cmd_type[0], command@.payload_bytes()),
                Err(e) => command@.cmd_type.len() != 1 && e == ProtocolError::InvalidCommandType,
            },
    {
        if len(&command.cmd_type) != 1 {
            return Err(ProtocolError::InvalidCommandType);
        }
        let cmd_byte: u8 = as_slice(&command.cmd_type)[0];
        let data = match command.payload {
            Some(p) => p,
            None => new_buffer(),
        };
        let ghost payload = mut_contents(data);
        let data_len: usize = len(&data);
        let total_len: usize = FRAME_FIXED_LEN + data_len + FRAME_BCC_LEN;
        let mut buf = with_capacity(total_len);
        let head: [u8; 2] = [FRAME_HEAD_0, FRAME_HEAD_1];
        put_slice(&mut buf, head.as_slice());
        put_u8(&mut buf, cmd_byte);
        let reserved: [u8; 4] = [0x00, 0x00, 0x00, 0x00];
        put_slice(&mut buf, reserved.as_slice());
        let len_field: u16 = ((data_len as u64) & 0x1FFF) as u16;
        assert((data_len as u64) & 0x1FFF == (data_len as u64) % 8192) by (bit_vector);
        put_u16_le(&mut buf, len_field);
        if data_len != 0 {
            put_slice(&mut buf, as_slice(&data));
        }
        proof {
            assert(mut_contents(buf) =~= seq![0x55u8, 0xAAu8] + frame_body(cmd_byte, payload));
            assert(mut_contents(buf).subrange(2, mut_contents(buf).len() as int) =~= frame_body(
                cmd_byte,
                payload,
            ));
        }
        let sum: u8 = calculate_bcc(slice_subrange(as_slice(&buf), FRAME_HEAD_LEN, len(&buf)));
        put_u8(&mut buf, sum);
        proof {
            assert(mut_contents(buf) =~= encode_frame(cmd_byte, payload));
        }
        Ok(freeze(buf))
    }
}

} // verus!
