//! The decisions of the link's three workers, one step at a time.
//!
//! The runtime that owns the transport performs the reads, writes, channel
//! operations and timer waits, and asks these functions what to do with each
//! outcome. No worker looks into another's state: a step sees only the
//! worker's own codec half, its own buffer and the event at hand.

use crate::buffer::{frozen_contents, mut_contents};
use crate::traits::{FrameGenerator, ParseProtocol};
use crate::types::{command_views, Command, ProtocolError};
use bytes::{Bytes, BytesMut};
use vstd::prelude::*;

verus! {

/// Capacity of each of the two channels between the workers.
pub const CHANNEL_CAPACITY: usize = 10;

/// Initial capacity of the reader's receive buffer.
pub const RECEIVE_BUFFER_CAPACITY: usize = 1024;

/// What the reader is woken by.
pub enum ReaderEvent {
    /// A read into the receive buffer has ended; `true` on success.
    Read(bool),
    /// A command was offered to the consumer without blocking; `true` if the
    /// channel took it.
    Offered(bool),
}

/// What the reader does next.
pub enum ReaderAction {
    /// Offer these commands to the consumer, in order and without blocking.
    Forward(Vec<Command>),
    /// The channel did not take the command: it is dropped. Report it and go
    /// on; the reader never waits for the consumer.
    ReportDropped,
    /// Go on: offer the next command, or read again.
    Continue,
    /// The transport failed: the reader ends.
    Stop,
}

/// One step of the reader. On a `Read` event `buf` holds what was pending
/// plus what the read appended.
///
/// A failed read ends the reader and touches nothing. After a successful one
/// the decoder takes every complete frame off the buffer, and the commands of
/// the valid ones are forwarded in the order of their frames. A command that
/// the channel does not take is dropped, never offered again.
pub fn reader_step<D: ParseProtocol>(decoder: &mut D, buf: &mut BytesMut, event: ReaderEvent) -> (action:
    ReaderAction)
    ensures
        !(event matches ReaderEvent::Read(true)) ==> mut_contents(*final(buf)) == mut_contents(
            *old(buf),
        ) && *final(decoder) == *old(decoder),
        match event {
            ReaderEvent::Read(false) => action is Stop,
            ReaderEvent::Read(true) => mut_contents(*final(buf)) == old(decoder).decoded(
                mut_contents(*old(buf)),
            ).rest && match action {
                ReaderAction::Forward(list) => list@.len() > 0 && command_views(list@) == old(
                    decoder,
                ).decoded(mut_contents(*old(buf))).commands,
                ReaderAction::Continue => old(decoder).decoded(
                    mut_contents(*old(buf)),
                ).commands.len() == 0,
                _ => false,
            },
            ReaderEvent::Offered(taken) => if taken {
                action is Continue
            } else {
                action is ReportDropped
            },
        },
{
    match event {
        ReaderEvent::Read(false) => ReaderAction::Stop,
        ReaderEvent::Read(true) => match decoder.parse_protocol_frame(buf) {
            Some(commands) => ReaderAction::Forward(commands),
            None => ReaderAction::Continue,
        },
        ReaderEvent::Offered(true) => ReaderAction::Continue,
        ReaderEvent::Offered(false) => ReaderAction::ReportDropped,
    }
}

/// What the writer is woken by.
pub enum WriterEvent {
    /// The outbound channel gave a command, or `None` once every sender is
    /// gone.
    Received(Option<Command>),
    /// The write of the last frame has ended; `true` on success.
    Written(bool),
}

/// What the writer does next.
pub enum WriterAction {
    /// Write this frame to the transport.
    Write(Bytes),
    /// The command has no frame: report the error and receive again.
    Skip(ProtocolError),
    /// The frame of this command would not fit a buffer: the command comes
    /// back as it was.
    Refuse(Command),
    /// The write failed: report it and receive again.
    ReportWriteFailure,
    /// Receive again.
    Continue,
    /// The channel is closed: the writer ends.
    Stop,
}

/// One step of the writer.
///
/// Only the closed channel ends the writer. A command is encoded; what the
/// encoder refuses is skipped. A failed write is taken for transient: it is
/// reported, and the writer goes on.
pub fn writer_step<E: FrameGenerator>(encoder: &E, event: WriterEvent) -> (action: WriterAction)
    ensures
        match event {
            WriterEvent::Received(None) => action is Stop,
            WriterEvent::Received(Some(command)) => if !encoder.frame_fits(command@) {
                action matches WriterAction::Refuse(back) && back == command
            } else {
                match encoder.frame_of(command@) {
                    Ok(frame) => action matches WriterAction::Write(bytes) && frozen_contents(
                        bytes,
                    ) == frame,
                    Err(e) => action matches WriterAction::Skip(reason) && reason == e,
                }
            },
            WriterEvent::Written(ok) => if ok {
                action is Continue
            } else {
                action is ReportWriteFailure
            },
        },
{
    match event {
        WriterEvent::Received(None) => WriterAction::Stop,
        WriterEvent::Received(Some(command)) => {
            if !encoder.fits(&command) {
                WriterAction::Refuse(command)
            } else {
                match encoder.create_frame(command) {
                    Ok(frame) => WriterAction::Write(frame),
                    Err(e) => WriterAction::Skip(e),
                }
            }
        },
        WriterEvent::Written(true) => WriterAction::Continue,
        WriterEvent::Written(false) => WriterAction::ReportWriteFailure,
    }
}

/// What the periodic worker is woken by.
pub enum UiEvent {
    /// The timer ticked.
    Tick,
    /// The render that a tick asked for has ended; `true` on success.
    Rendered(bool),
    /// A decoded command arrived.
    Received(Command),
    /// The channel of decoded commands is closed.
    Closed,
}

/// What the periodic worker does next.
pub enum UiAction {
    /// Render the surface.
    Render,
    /// Hand the command to the view.
    Ingest(Command),
    /// Wait for the next event.
    Continue,
    /// The worker ends.
    Stop,
}

/// One step of the periodic worker. A tick asks for a render; a failed
/// render and a closed channel end the worker; a command goes to the view.
pub fn ui_step(event: UiEvent) -> (action: UiAction)
    ensures
        match event {
            UiEvent::Tick => action is Render,
            UiEvent::Rendered(ok) => if ok {
                action is Continue
            } else {
                action is Stop
            },
            UiEvent::Received(command) => action matches UiAction::Ingest(c) && c == command,
            UiEvent::Closed => action is Stop,
        },
{
    match event {
        UiEvent::Tick => UiAction::Render,
        UiEvent::Rendered(true) => UiAction::Continue,
        UiEvent::Rendered(false) => UiAction::Stop,
        UiEvent::Received(command) => UiAction::Ingest(command),
        UiEvent::Closed => UiAction::Stop,
    }
}

} // verus!
