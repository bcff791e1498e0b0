//! What holds of the codec as a whole: frames survive the way through the
//! encoder and the decoder, noise and corrupt frames are passed over, and
//! half a frame waits for its other half.

use crate::bln::conversions::{command_of_event, event_of_command};
use crate::bln::frame::{
    checksum_ok, command_of_frame, complete_frame_len, data_len, decode_frames, encode_frame,
    find_head, frame_body, is_head_at, lemma_find_head_from_bounds, len_field_of,
};
use crate::bln::types::BlnProtocolType;
use crate::buffer::{u16_from_le, u16_le, u32_from_le, u32_le};
use crate::types::{CommandView, Decoded, ProtocolError};
use crate::utils::bcc_detects_bit_flip;
use vstd::prelude::*;

verus! {

/// `f` has the shape of one whole frame: it starts with the sync pattern and
/// is exactly as long as its length field says.
pub open spec fn is_frame_span(f: Seq<u8>) -> bool {
    f.len() >= 10 && is_head_at(f, 0) && f.len() == 10 + data_len(len_field_of(f))
}

/// `f` is one whole frame with a matching checksum.
pub open spec fn is_valid_frame(f: Seq<u8>) -> bool {
    is_frame_span(f) && checksum_ok(f, f.len() as int)
}

/// The sync pattern stands nowhere in `s`.
pub open spec fn has_no_head(s: Seq<u8>) -> bool {
    forall|i: int| !is_head_at(s, i)
}

/// The command that the decoder hands out for an encoded one: the status
/// bits read as zero, and an empty payload reads as none.
pub open spec fn received(cmd: u8, payload: Seq<u8>) -> CommandView {
    CommandView {
        cmd_type: seq![cmd],
        response_status: Some(0u8),
        payload: if payload.len() > 0 {
            Some(payload)
        } else {
            None
        },
    }
}

/// A little-endian length field reads back as it was written.
pub proof fn lemma_u16_le_round_trip(n: u16)
    ensures
        u16_from_le(u16_le(n)[0], u16_le(n)[1]) == n,
{
    assert((((n & 0xff) as u8) as u16) | ((((n >> 8) as u8) as u16) << 8) == n) by (bit_vector);
}

/// A little-endian 32-bit number reads back as it was written.
pub proof fn lemma_u32_le_round_trip(n: u32)
    ensures
        u32_from_le(u32_le(n)) == n,
{
    assert((((n & 0xff) as u8) as u32) | (((((n >> 8) & 0xff) as u8) as u32) << 8) | (((((n >> 16)
        & 0xff) as u8) as u32) << 16) | ((((n >> 24) as u8) as u32) << 24) == n) by (bit_vector);
}

/// Where no sync pattern stands, the search finds none.
pub proof fn lemma_no_head_found(s: Seq<u8>)
    requires
        has_no_head(s),
    ensures
        find_head(s) == None::<int>,
{
    lemma_find_head_from_bounds(s, 0);
}

/// After noise without a sync pattern, the pattern that starts `t` is the
/// first one found.
pub proof fn lemma_head_after_noise(noise: Seq<u8>, t: Seq<u8>)
    requires
        has_no_head(noise),
        is_head_at(t, 0),
    ensures
        find_head(noise + t) == Some(noise.len() as int),
        (noise + t).skip(noise.len() as int) == t,
{
    let s = noise + t;
    let n = noise.len() as int;
    lemma_find_head_from_bounds(s, 0);
    assert(is_head_at(s, n));
    assert(s.skip(n) =~= t);
    match find_head(s) {
        Some(i) => {
            if i < n {
                if i + 1 < n {
                    assert(is_head_at(noise, i));
                } else {
                    assert(s[i + 1] == t[0]);
                }
            }
        },
        None => {},
    }
}

/// What decoding does with a buffer that starts with a whole frame: the
/// frame is taken off, its command is kept when the checksum matches, and
/// decoding goes on behind it.
pub proof fn lemma_decode_leading_frame(frame: Seq<u8>, rest: Seq<u8>)
    requires
        is_frame_span(frame),
    ensures
        decode_frames(frame + rest) == if checksum_ok(frame, frame.len() as int) {
            Decoded {
                commands: seq![command_of_frame(frame)] + decode_frames(rest).commands,
                rest: decode_frames(rest).rest,
            }
        } else {
            decode_frames(rest)
        },
{
    let s = frame + rest;
    let n = frame.len() as int;
    assert(is_head_at(s, 0));
    assert(s.skip(0) =~= s);
    assert(len_field_of(s) == len_field_of(frame));
    assert(complete_frame_len(s) == Some(n));
    assert(s.skip(n) =~= rest);
    assert(s.take(n) =~= frame);
    assert(s.subrange(2, n - 1) =~= frame.subrange(2, n - 1));
}

/// Encoding a command and decoding the bytes gives the command back, and
/// nothing is left in the buffer. The payload must fit the thirteen bits of
/// the length field.
pub proof fn encode_decode_round_trip(cmd: u8, payload: Seq<u8>)
    requires
        payload.len() <= 8191,
    ensures
        is_valid_frame(encode_frame(cmd, payload)),
        command_of_frame(encode_frame(cmd, payload)) == received(cmd, payload),
        decode_frames(encode_frame(cmd, payload)) == (Decoded {
            commands: seq![received(cmd, payload)],
            rest: Seq::empty(),
        }),
{
    let f = encode_frame(cmd, payload);
    let body = frame_body(cmd, payload);
    let n = (payload.len() % 8192) as u16;
    assert(n == payload.len());
    lemma_u16_le_round_trip(n);
    assert(f[7] == u16_le(n)[0]);
    assert(f[8] == u16_le(n)[1]);
    assert(len_field_of(f) == n);
    assert(n <= 8191 ==> n & 0x1FFF == n && (n >> 13) as u8 == 0u8) by (bit_vector);
    assert(f.len() == 10 + payload.len());
    assert(f.subrange(2, f.len() - 1) =~= body);
    assert(f.subrange(9, 9 + payload.len() as int) =~= payload);
    assert(command_of_frame(f).cmd_type =~= seq![cmd]);
    assert(is_valid_frame(f));
    lemma_decode_leading_frame(f, Seq::empty());
    assert(f + Seq::<u8>::empty() =~= f);
    lemma_no_head_found(Seq::<u8>::empty());
    assert(seq![received(cmd, payload)] + Seq::<CommandView>::empty() =~= seq![
        received(cmd, payload),
    ]);
}

/// Each of the two requests travels intact: its command is encoded, and
/// decoding the frame gives the same identifier and payload back, with status
/// zero and nothing left over.
pub proof fn request_round_trip(event: BlnProtocolType)
    requires
        event is SetPositionRsq || event is GetPositionRsq,
    ensures
        command_of_event(event) is Ok,
        ({
            let sent = command_of_event(event)->Ok_0;
            decode_frames(encode_frame(sent.cmd_type[0], sent.payload_bytes())) == (Decoded {
                commands: seq![
                    CommandView {
                        cmd_type: sent.cmd_type,
                        response_status: Some(0u8),
                        payload: sent.payload,
                    },
                ],
                rest: Seq::empty(),
            })
        }),
{
    let sent = command_of_event(event)->Ok_0;
    encode_decode_round_trip(sent.cmd_type[0], sent.payload_bytes());
    assert(sent.cmd_type =~= seq![sent.cmd_type[0]]);
}

/// The coordinates of a reached position are read back from the payload that
/// spells them.
pub proof fn position_payload_round_trip(x: u32, y: u32)
    ensures
        event_of_command(
            CommandView {
                cmd_type: seq![0x91u8],
                response_status: Some(2u8),
                payload: Some(u32_le(x) + u32_le(y)),
            },
        ) == Ok::<BlnProtocolType, ProtocolError>(BlnProtocolType::PositionReached(x, y)),
{
    let p = u32_le(x) + u32_le(y);
    lemma_u32_le_round_trip(x);
    lemma_u32_le_round_trip(y);
    assert(p.skip(4) =~= u32_le(y));
    assert(u32_from_le(p) == u32_from_le(u32_le(x)));
}

/// Bytes without a sync pattern give no command and stay in the buffer.
pub proof fn noise_is_kept(noise: Seq<u8>)
    requires
        has_no_head(noise),
    ensures
        decode_frames(noise) == (Decoded { commands: Seq::empty(), rest: noise }),
{
    lemma_no_head_found(noise);
}

/// Noise before a valid frame is passed over: the frame's command comes
/// first, and decoding goes on with what follows the frame. Where that is
/// again free of the sync pattern, exactly one command is returned and
/// exactly those trailing bytes stay.
pub proof fn resync_past_noise(noise: Seq<u8>, frame: Seq<u8>, trailing: Seq<u8>)
    requires
        has_no_head(noise),
        is_valid_frame(frame),
    ensures
        decode_frames(noise + frame + trailing) == (Decoded {
            commands: seq![command_of_frame(frame)] + decode_frames(trailing).commands,
            rest: decode_frames(trailing).rest,
        }),
        has_no_head(trailing) ==> decode_frames(noise + frame + trailing) == (Decoded {
            commands: seq![command_of_frame(frame)],
            rest: trailing,
        }),
{
    let t = frame + trailing;
    let s = noise + frame + trailing;
    assert(s =~= noise + t);
    lemma_head_after_noise(noise, t);
    lemma_decode_leading_frame(frame, trailing);
    lemma_find_head_from_bounds(t, 0);
    assert(find_head(t) == Some(0int));
    assert(t.skip(0) =~= t);
    // Decoding `s` and decoding `t` meet after the first sync pattern.
    assert(len_field_of(t) == len_field_of(frame));
    assert(complete_frame_len(t) == Some(frame.len() as int));
    assert(decode_frames(s) == decode_frames(t));
    if has_no_head(trailing) {
        noise_is_kept(trailing);
        assert(seq![command_of_frame(frame)] + Seq::<CommandView>::empty() =~= seq![
            command_of_frame(frame),
        ]);
    }
}

/// Every proper prefix of a valid frame gives no command and stays in the
/// buffer whole, so a frame that arrives byte by byte is decoded when its
/// last byte is there, and not before.
pub proof fn partial_frame_waits(frame: Seq<u8>, k: int)
    requires
        is_valid_frame(frame),
        0 <= k < frame.len(),
    ensures
        decode_frames(frame.take(k)) == (Decoded { commands: Seq::empty(), rest: frame.take(k) }),
        decode_frames(frame) == (Decoded {
            commands: seq![command_of_frame(frame)],
            rest: Seq::empty(),
        }),
{
    let p = frame.take(k);
    if k >= 2 {
        assert(is_head_at(p, 0));
        assert(p.skip(0) =~= p);
        if k >= 10 {
            assert(len_field_of(p) == len_field_of(frame));
        }
        assert(complete_frame_len(p) == None::<int>);
    }
    resync_past_noise(Seq::empty(), frame, Seq::empty());
    assert(Seq::<u8>::empty() + frame + Seq::<u8>::empty() =~= frame);
}

/// A frame whose checksum does not match gives no command and leaves the
/// buffer whole: decoding goes on behind its last byte.
pub proof fn corrupt_frame_is_dropped(frame: Seq<u8>, trailing: Seq<u8>)
    requires
        is_frame_span(frame),
        !checksum_ok(frame, frame.len() as int),
    ensures
        decode_frames(frame + trailing) == decode_frames(trailing),
        decode_frames(frame) == (Decoded { commands: Seq::empty(), rest: Seq::empty() }),
{
    lemma_decode_leading_frame(frame, trailing);
    lemma_decode_leading_frame(frame, Seq::empty());
    assert(frame + Seq::<u8>::empty() =~= frame);
    noise_is_kept(Seq::empty());
}

/// A valid frame whose checksum byte was changed is such a corrupt frame.
pub proof fn changed_checksum_is_dropped(frame: Seq<u8>, v: u8, trailing: Seq<u8>)
    requires
        is_valid_frame(frame),
        v != frame.last(),
    ensures
        decode_frames(frame.update(frame.len() - 1, v) + trailing) == decode_frames(trailing),
{
    let n = frame.len() as int;
    let g = frame.update(n - 1, v);
    assert(g.subrange(2, n - 1) =~= frame.subrange(2, n - 1));
    assert(len_field_of(g) == len_field_of(frame));
    corrupt_frame_is_dropped(g, trailing);
}

/// Flipping one bit of a valid frame anywhere behind the sync pattern breaks
/// the checksum over the frame's span.
pub proof fn bit_flip_breaks_checksum(frame: Seq<u8>, i: int, bit: u8)
    requires
        is_valid_frame(frame),
        2 <= i < frame.len(),
        bit < 8,
    ensures
        !checksum_ok(frame.update(i, frame[i] ^ (1u8 << bit)), frame.len() as int),
{
    let n = frame.len() as int;
    let o = frame[i];
    let g = frame.update(i, o ^ (1u8 << bit));
    assert(bit < 8 ==> (o ^ (1u8 << bit)) != o) by (bit_vector);
    if i == n - 1 {
        assert(g.subrange(2, n - 1) =~= frame.subrange(2, n - 1));
    } else {
        let body = frame.subrange(2, n - 1);
        assert(g.subrange(2, n - 1) =~= body.update(i - 2, o ^ (1u8 << bit)));
        bcc_detects_bit_flip(body, i - 2, bit);
    }
}

/// A request that has travelled through the encoder and the decoder is not
/// an event of the device: its identifier is none of the device's, so the
/// mapper refuses it.
pub proof fn decoded_request_is_refused(event: BlnProtocolType)
    requires
        event is SetPositionRsq || event is GetPositionRsq,
    ensures
        ({
            let sent = command_of_event(event)->Ok_0;
            event_of_command(received(sent.cmd_type[0], sent.payload_bytes())) == Err::<
                BlnProtocolType,
                ProtocolError,
            >(ProtocolError::InvalidCommandType)
        }),
{
}

/// The payload length that an identifier and a status ask for, where they
/// ask for one.
pub open spec fn expected_payload_len(cmd: u8, status: u8) -> Option<int> {
    if status == 3 {
        Some(1int)
    } else if cmd == 0x91 && status == 1 {
        Some(0int)
    } else if cmd == 0x91 && status == 2 {
        Some(8int)
    } else if cmd == 0x93 && status == 2 {
        Some(9int)
    } else {
        None
    }
}

/// Where an identifier and a status ask for a payload length, a command with
/// that length is accepted and a command with any other length is refused as
/// an invalid payload.
pub proof fn payload_length_decides(c: CommandView)
    requires
        c.cmd_type.len() > 0,
        c.response_status is Some,
        expected_payload_len(c.cmd_type[0], c.response_status->0) is Some,
    ensures
        c.payload_bytes().len() == expected_payload_len(c.cmd_type[0], c.response_status->0)->0
            ==> event_of_command(c) is Ok,
        c.payload_bytes().len() != expected_payload_len(c.cmd_type[0], c.response_status->0)->0
            ==> event_of_command(c) == Err::<BlnProtocolType, ProtocolError>(
            ProtocolError::InvalidPayload,
        ),
{
}

/// A command as the decoder hands it out: one identifier byte, a status of
/// three bits, and a payload that is absent or of 1 to 8191 bytes.
pub open spec fn is_decoded_command(c: CommandView) -> bool {
    &&& c.cmd_type.len() == 1
    &&& c.response_status is Some
    &&& c.response_status->0 <= 7
    &&& (c.payload matches Some(p) ==> 1 <= p.len() <= 8191)
}

/// Every command that decoding yields is of that form.
pub proof fn decoded_commands_are_well_formed(s: Seq<u8>)
    ensures
        forall|i: int|
            0 <= i < decode_frames(s).commands.len() ==> is_decoded_command(
                #[trigger] decode_frames(s).commands[i],
            ),
    decreases s.len(),
{
    lemma_find_head_from_bounds(s, 0);
    match find_head(s) {
        None => {},
        Some(h) => {
            let t = s.skip(h);
            match complete_frame_len(t) {
                None => {},
                Some(n) => {
                    decoded_commands_are_well_formed(t.skip(n));
                    let f = t.take(n);
                    let field = len_field_of(f);
                    assert(field & 0x1FFF <= 8191 && field >> 13 <= 7) by (bit_vector);
                    assert(is_decoded_command(command_of_frame(f)));
                    let tail = decode_frames(t.skip(n)).commands;
                    assert forall|i: int|
                        0 <= i < decode_frames(s).commands.len() implies is_decoded_command(
                        #[trigger] decode_frames(s).commands[i],
                    ) by {
                        if checksum_ok(t, n) {
                            if i > 0 {
                                assert(decode_frames(s).commands[i] == tail[i - 1]);
                            }
                        }
                    }
                },
            }
        },
    }
}

/// What a call leaves in the buffer holds no complete frame: decoding it
/// again yields nothing and leaves it as it is.
pub proof fn rest_holds_no_frame(s: Seq<u8>)
    ensures
        decode_frames(decode_frames(s).rest) == (Decoded {
            commands: Seq::empty(),
            rest: decode_frames(s).rest,
        }),
    decreases s.len(),
{
    lemma_find_head_from_bounds(s, 0);
    match find_head(s) {
        None => {},
        Some(h) => {
            let t = s.skip(h);
            match complete_frame_len(t) {
                None => {
                    assert(is_head_at(t, 0));
                    assert(t.skip(0) =~= t);
                },
                Some(n) => {
                    rest_holds_no_frame(t.skip(n));
                },
            }
        },
    }
}

} // verus!
