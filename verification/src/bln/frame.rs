//! The wire format of a BLN frame and the meaning of decoding a receive
//! buffer, as functions on byte sequences.
//!
//! | offset  | length | field                                             |
//! |---------|--------|---------------------------------------------------|
//! | 0       | 2      | sync pattern `55 AA`                              |
//! | 2       | 1      | command identifier                                |
//! | 3       | 4      | reserved, written as zero                         |
//! | 7       | 2      | length and flags, little-endian                   |
//! | 9       | len    | payload                                           |
//! | 9 + len | 1      | XOR of the bytes from offset 2 up to the checksum |

use crate::buffer::{u16_from_le, u16_le};
use crate::types::{CommandView, Decoded};
use crate::utils::bcc;
use vstd::prelude::*;

verus! {

/// First byte of the sync pattern.
pub const FRAME_HEAD_0: u8 = 0x55;

/// Second byte of the sync pattern.
pub const FRAME_HEAD_1: u8 = 0xAA;

/// Length of the sync pattern.
pub const FRAME_HEAD_LEN: usize = 2;

/// Length of everything before the payload, sync pattern included.
pub const FRAME_FIXED_LEN: usize = 9;

/// Length of the checksum.
pub const FRAME_BCC_LEN: usize = 1;

/// Length of the reserved field.
pub const RESERVED_LEN: usize = 4;

/// Length of the command identifier.
pub const TYPE_LEN: usize = 1;

/// The thirteen low bits of the length field: the payload length.
pub const DATA_LENGTH_MASK: u16 = 0x1FFF;

/// The three high bits of the length field: the status code.
pub const FLAGS_MASK: u16 = 0xE000;

/// The payload length that a length field gives.
pub open spec fn data_len(len_field: u16) -> int {
    (len_field & 0x1FFF) as int
}

/// The status code that a length field gives.
pub open spec fn status_bits(len_field: u16) -> u8 {
    (len_field >> 13) as u8
}

/// The sync pattern stands at offset `i` of `s`.
pub open spec fn is_head_at(s: Seq<u8>, i: int) -> bool {
    0 <= i && i + 1 < s.len() && s[i] == 0x55u8 && s[i + 1] == 0xAAu8
}

/// The first offset at or after `start` at which the sync pattern stands.
pub open spec fn find_head_from(s: Seq<u8>, start: int) -> Option<int>
    decreases s.len() - start,
{
    if start < 0 || start + 1 >= s.len() {
        None
    } else if is_head_at(s, start) {
        Some(start)
    } else {
        find_head_from(s, start + 1)
    }
}

/// The first offset of `s` at which the sync pattern stands.
pub open spec fn find_head(s: Seq<u8>) -> Option<int> {
    find_head_from(s, 0)
}

/// The length field of a buffer that starts with a frame header.
pub open spec fn len_field_of(t: Seq<u8>) -> u16 {
    u16_from_le(t[7], t[8])
}

/// The total length of the frame at the start of `t`, if `t` holds all of
/// it.
pub open spec fn complete_frame_len(t: Seq<u8>) -> Option<int> {
    if t.len() < 10 {
        None
    } else if t.len() < 10 + data_len(len_field_of(t)) {
        None
    } else {
        Some(10 + data_len(len_field_of(t)))
    }
}

/// The last of the first `n` bytes of `t` is the checksum of those from
/// offset 2 on.
pub open spec fn checksum_ok(t: Seq<u8>, n: int) -> bool {
    bcc(t.subrange(2, n - 1)) == t[n - 1]
}

/// The command that a complete frame carries.
pub open spec fn command_of_frame(f: Seq<u8>) -> CommandView {
    CommandView {
        cmd_type: seq![f[2]],
        response_status: Some(status_bits(len_field_of(f))),
        payload: if data_len(len_field_of(f)) > 0 {
            Some(f.subrange(9, 9 + data_len(len_field_of(f))))
        } else {
            None
        },
    }
}

/// What `find_head_from` finds is the first sync pattern at or after
/// `start`; where it finds none, there is none from `start` on.
pub proof fn lemma_find_head_from_bounds(s: Seq<u8>, start: int)
    ensures
        match find_head_from(s, start) {
            Some(i) => start <= i && is_head_at(s, i) && (forall|j: int|
                start <= j < i ==> !is_head_at(s, j)),
            None => forall|j: int| 0 <= start <= j ==> !is_head_at(s, j),
        },
    decreases s.len() - start,
{
    if start < 0 || start + 1 >= s.len() {
    } else if is_head_at(s, start) {
    } else {
        lemma_find_head_from_bounds(s, start + 1);
    }
}

/// Decoding a buffer: drop what precedes the first sync pattern; if a whole
/// frame follows, take it off, keep its command when the checksum matches,
/// and go on with what is left. Without a sync pattern the buffer stays as it
/// is; with an incomplete frame, the buffer stays from the pattern on.
pub open spec fn decode_frames(s: Seq<u8>) -> Decoded
    decreases s.len(),
{
    match find_head(s) {
        None => Decoded { commands: Seq::empty(), rest: s },
        Some(i) => {
            let t = s.skip(i);
            match complete_frame_len(t) {
                None => Decoded { commands: Seq::empty(), rest: t },
                Some(n) => {
                    proof {
                        lemma_find_head_from_bounds(s, 0);
                    }
                    let tail = decode_frames(t.skip(n));
                    if checksum_ok(t, n) {
                        Decoded {
                            commands: seq![command_of_frame(t.take(n))] + tail.commands,
                            rest: tail.rest,
                        }
                    } else {
                        tail
                    }
                },
            }
        },
    }
}

/// The bytes of a frame between the sync pattern and the checksum.
pub open spec fn frame_body(cmd: u8, payload: Seq<u8>) -> Seq<u8> {
    seq![cmd, 0u8, 0u8, 0u8, 0u8] + u16_le((payload.len() % 8192) as u16) + payload
}

/// The frame that carries `payload` under the command identifier `cmd`. The
/// status bits of the length field are zero.
pub open spec fn encode_frame(cmd: u8, payload: Seq<u8>) -> Seq<u8> {
    seq![0x55u8, 0xAAu8] + frame_body(cmd, payload) + seq![bcc(frame_body(cmd, payload))]
}

} // verus!
