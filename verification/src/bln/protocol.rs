use crate::bln::codec::{frame_of_command, BlnCommandDecode, BlnCommandEncoder};
use crate::bln::frame::{data_len, decode_frames, encode_frame, find_head, status_bits};
use crate::buffer::{frozen_contents, mut_contents};
use crate::traits::{FrameGenerator, ParseProtocol, ProtocolSplit};
use crate::types::{command_views, Command, CommandView, Decoded, ProtocolError};
use bytes::{Bytes, BytesMut};
use vstd::prelude::*;

verus! {

/// The BLN protocol handler: a decoder and an encoder under one roof, until
/// `into_split` hands each to its own worker.
#[derive(Default)]
pub struct BlnProtocol {
    encode: BlnCommandEncoder,
    decode: BlnCommandDecode,
}

impl BlnProtocol {
    /// The decoding half that this handler holds.
    pub closed spec fn decoder(self) -> BlnCommandDecode {
        self.decode
    }

    /// The encoding half that this handler holds.
    pub closed spec fn encoder(self) -> BlnCommandEncoder {
        self.encode
    }

    /// Looks for the sync pattern. Where it is found, what precedes it is
    /// dropped from `buf`; where it is not, `buf` stays as it is.
    pub fn find_frame_head(&self, buf: &mut BytesMut) -> (found: bool)
        ensures
            match find_head(mut_contents(*old(buf))) {
                Some(i) => found && 0 <= i <= mut_contents(*old(buf)).len() && mut_contents(
                    *final(buf),
                ) == mut_contents(*old(buf)).skip(i),
                None => !found && mut_contents(*final(buf)) == mut_contents(*old(buf)),
            },
    {
        self.decode.find_frame_head(buf)
    }

    /// Splits a length field into the payload length (its thirteen low bits)
    /// and the status code (its three high bits).
    pub fn decode_length_flags(&self, len_field: u16) -> (result: (usize, u8))
        ensures
            result.0 == data_len(len_field),
            result.1 == status_bits(len_field),
            result.0 <= 8191,
            result.1 <= 7,
    {
        self.decode.decode_length_flags(len_field)
    }
}

impl ParseProtocol for BlnProtocol {
    open spec fn decoded(&self, contents: Seq<u8>) -> Decoded {
        decode_frames(contents)
    }

    /// Takes every complete frame off the front of `buf`, as the decoding
    /// half does.
    fn parse_protocol_frame(&mut self, buf: &mut BytesMut) -> (result: Option<Vec<Command>>)
        ensures
            mut_contents(*final(buf)) == decode_frames(mut_contents(*old(buf))).rest,
            match result {
                Some(list) => list@.len() > 0 && command_views(list@) == decode_frames(
                    mut_contents(*old(buf)),
                ).commands,
                None => decode_frames(mut_contents(*old(buf))).commands.len() == 0,
            },
    {
        self.decode.parse_protocol_frame(buf)
    }
}

impl FrameGenerator for BlnProtocol {
    open spec fn frame_fits(&self, command: CommandView) -> bool {
        command.payload_bytes().len() + 10 <= isize::MAX
    }

    open spec fn frame_of(&self, command: CommandView) -> Result<Seq<u8>, ProtocolError> {
        frame_of_command(command)
    }

    fn fits(&self, command: &Command) -> (ok: bool) {
        self.encode.fits(command)
    }

    /// Builds the frame of `command`, as the encoding half does.
    fn create_frame(&self, command: Command) -> (result: Result<Bytes, ProtocolError>)
        ensures
            match result {
                Ok(frame) => command@.cmd_type.len() == 1 && frozen_contents(frame)
                    == encode_frame(command@.cmd_type[0], command@.payload_bytes()),
                Err(e) => command@.cmd_type.len() != 1 && e == ProtocolError::InvalidCommandType,
            },
    {
        self.encode.create_frame(command)
    }
}

impl ProtocolSplit for BlnProtocol {
    type Encoder = BlnCommandEncoder;

    type Decode = BlnCommandDecode;

    fn into_split(self) -> (halves: (BlnCommandDecode, BlnCommandEncoder))
        ensures
            halves.0 == self.decoder(),
            halves.1 == self.encoder(),
    {
        (self.decode, self.encode)
    }
}

} // verus!
