use crate::buffer::{frozen_contents, mut_contents};
use crate::types::{command_views, Command, CommandView, Decoded, ProtocolError};
use bytes::{Bytes, BytesMut};
use vstd::prelude::*;

verus! {

/// A decoder that takes whole frames off the front of a receive buffer.
pub trait ParseProtocol {
    /// What this decoder makes of a buffer with the given contents: the
    /// commands it hands out and the bytes it leaves.
    spec fn decoded(&self, contents: Seq<u8>) -> Decoded;

    /// Takes every complete frame off `buf` and returns the commands of the
    /// valid ones, in order; `None` when there is none yet.
    fn parse_protocol_frame(&mut self, buf: &mut BytesMut) -> (result: Option<Vec<Command>>)
        ensures
            mut_contents(*final(buf)) == old(self).decoded(mut_contents(*old(buf))).rest,
            match result {
                Some(list) => list@.len() > 0 && command_views(list@) == old(self).decoded(
                    mut_contents(*old(buf)),
                ).commands,
                None => old(self).decoded(mut_contents(*old(buf))).commands.len() == 0,
            },
    ;
}

/// An encoder from commands to frames.
pub trait FrameGenerator {
    /// The frame of this command is no longer than the largest buffer.
    spec fn frame_fits(&self, command: CommandView) -> bool;

    /// The bytes of the frame that carries a command, or the reason why
    /// there is none.
    spec fn frame_of(&self, command: CommandView) -> Result<Seq<u8>, ProtocolError>;

    /// Tells whether the frame of `command` fits.
    fn fits(&self, command: &Command) -> (ok: bool)
        ensures
            ok == self.frame_fits(command@),
    ;

    /// The frame that carries `command`.
    fn create_frame(&self, command: Command) -> (result: Result<Bytes, ProtocolError>)
        requires
            self.frame_fits(command@),
        ensures
            match result {
                Ok(frame) => self.frame_of(command@) == Ok::<Seq<u8>, ProtocolError>(
                    frozen_contents(frame),
                ),
                Err(e) => self.frame_of(command@) == Err::<Seq<u8>, ProtocolError>(e),
            },
    ;
}

/// A protocol handler that comes apart into a decoder and an encoder, so
/// that the reading and the writing side can each own one.
pub trait ProtocolSplit {
    /// The encoding half.
    type Encoder;

    /// The decoding half.
    type Decode;

    /// Gives up the handler for its two halves.
    fn into_split(self) -> (Self::Decode, Self::Encoder);
}

} // verus!
