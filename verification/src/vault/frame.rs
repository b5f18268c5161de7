//! The frame in which a request to a vault in another process, and its
//! answer, cross the channel.
//!
//! A frame is written as three bytes (what is asked, how it went, the number
//! of an algorithm), the 32 bytes of a key identifier, and two byte strings,
//! each behind its length in eight bytes.

use crate::bytes::copy_range;
use crate::bytes::lemma_u64_bytes_round_trip;
use crate::bytes::push_bytes;
use crate::bytes::push_u64;
use crate::bytes::read_block;
use crate::bytes::read_u64;
use crate::bytes::u64_bytes;
use crate::bytes::u64_of_bytes;
use vstd::prelude::*;

verus! {

/// Number of bytes of a frame before its first byte string.
pub const FRAME_HEAD_LEN: usize = 43;

/// A frame.
#[derive(Clone, Debug, PartialEq, Eq)]
pub struct Frame {
    /// Which operation the frame is about.
    pub operation: u8,
    /// How the operation went; zero in a request.
    pub status: u8,
    /// The number of an algorithm.
    pub algorithm: u8,
    /// A key identifier; zeros where the frame has none.
    pub key_id: [u8; 32],
    /// The first byte string of the frame.
    pub first: Vec<u8>,
    /// The second byte string of the frame.
    pub second: Vec<u8>,
}

/// A frame, as contracts see it.
pub struct FrameView {
    pub operation: u8,
    pub status: u8,
    pub algorithm: u8,
    pub key_id: Seq<u8>,
    pub first: Seq<u8>,
    pub second: Seq<u8>,
}

impl View for Frame {
    type V = FrameView;

    open spec fn view(&self) -> FrameView {
        FrameView {
            operation: self.operation,
            status: self.status,
            algorithm: self.algorithm,
            key_id: self.key_id@,
            first: self.first@,
            second: self.second@,
        }
    }
}

/// Whether a frame can be written: its key identifier has 32 bytes and the
/// lengths of its byte strings fit in eight bytes.
pub open spec fn frame_fits(frame: FrameView) -> bool {
    frame.key_id.len() == 32 && frame.first.len() <= u64::MAX && frame.second.len() <= u64::MAX
}

/// A frame, written as bytes.
pub open spec fn encode_frame(frame: FrameView) -> Seq<u8> {
    seq![frame.operation, frame.status, frame.algorithm] + frame.key_id + u64_bytes(
        frame.first.len() as u64,
    ) + frame.first + u64_bytes(frame.second.len() as u64) + frame.second
}

/// The frame that bytes are the written form of, if they are the written
/// form of one, with nothing after it.
pub open spec fn decode_frame(bytes: Seq<u8>) -> Option<FrameView> {
    if bytes.len() < FRAME_HEAD_LEN {
        None
    } else {
        let first_len = u64_of_bytes(bytes.subrange(35, 43)) as int;
        if FRAME_HEAD_LEN + first_len + 8 > bytes.len() {
            None
        } else {
            let second_at = FRAME_HEAD_LEN + first_len + 8;
            let second_len = u64_of_bytes(bytes.subrange(second_at - 8, second_at)) as int;
            if second_at + second_len != bytes.len() {
                None
            } else {
                Some(
                    FrameView {
                        operation: bytes[0],
                        status: bytes[1],
                        algorithm: bytes[2],
                        key_id: bytes.subrange(3, 35),
                        first: bytes.subrange(43, 43 + first_len),
                        second: bytes.subrange(second_at, second_at + second_len),
                    },
                )
            }
        }
    }
}

/// A frame that was written is read back.
pub proof fn lemma_frame_round_trip(frame: FrameView)
    requires
        frame_fits(frame),
    ensures
        decode_frame(encode_frame(frame)) == Some(frame),
{
    let written = encode_frame(frame);
    let first_len = frame.first.len() as int;
    let second_len = frame.second.len() as int;
    lemma_u64_bytes_round_trip(frame.first.len() as u64);
    lemma_u64_bytes_round_trip(frame.second.len() as u64);
    assert(written.len() == 51 + first_len + second_len);
    assert(written.subrange(35, 43) =~= u64_bytes(frame.first.len() as u64));
    assert(written.subrange(43 + first_len, 51 + first_len) =~= u64_bytes(
        frame.second.len() as u64,
    ));
    assert(written.subrange(3, 35) =~= frame.key_id);
    assert(written.subrange(43, 43 + first_len) =~= frame.first);
    assert(written.subrange(51 + first_len, 51 + first_len + second_len) =~= frame.second);
}

/// What is sent over the channel for a payload: its length in eight bytes,
/// then the payload.
pub fn with_length(payload: &[u8]) -> (sent: Vec<u8>)
    ensures
        sent@ == u64_bytes(payload@.len() as u64) + payload@,
{
    let mut sent: Vec<u8> = Vec::new();
    push_u64(&mut sent, payload.len() as u64);
    push_bytes(&mut sent, payload);
    sent
}

/// The length of the payload that follows the given eight bytes on the
/// channel.
pub fn length_of_payload(prefix: &[u8; 8]) -> (len: u64)
    ensures
        len == u64_of_bytes(prefix@),
{
    let len = read_u64(prefix.as_slice(), 0);
    assert(prefix@.subrange(0, 8) =~= prefix@);
    len
}

impl Frame {
    /// The written form of the frame.
    pub fn to_bytes(&self) -> (bytes: Vec<u8>)
        ensures
            bytes@ == encode_frame(self@),
            decode_frame(bytes@) == Some(self@),
    {
        let mut bytes: Vec<u8> = Vec::new();
        bytes.push(self.operation);
        bytes.push(self.status);
        bytes.push(self.algorithm);
        push_bytes(&mut bytes, self.key_id.as_slice());
        push_u64(&mut bytes, self.first.len() as u64);
        push_bytes(&mut bytes, self.first.as_slice());
        push_u64(&mut bytes, self.second.len() as u64);
        push_bytes(&mut bytes, self.second.as_slice());
        proof {
            assert(bytes@ =~= encode_frame(self@));
            assert(self.first@.len() == self.first.len());
            assert(self.second@.len() == self.second.len());
            lemma_frame_round_trip(self@);
        }
        bytes
    }

    /// Reads a frame from its written form.
    pub fn from_bytes(bytes: &[u8]) -> (frame: Option<Frame>)
        ensures
            match frame {
                Some(frame) => decode_frame(bytes@) == Some(frame@),
                None => decode_frame(bytes@).is_none(),
            },
    {
        let len = bytes.len();
        if len < FRAME_HEAD_LEN {
            return None;
        }
        let first_len = read_u64(bytes, 35);
        if first_len > (len - FRAME_HEAD_LEN) as u64 {
            return None;
        }
        let first_end = FRAME_HEAD_LEN + first_len as usize;
        if len - first_end < 8 {
            return None;
        }
        let second_at = first_end + 8;
        let second_len = read_u64(bytes, first_end);
        if second_len != (len - second_at) as u64 {
            return None;
        }
        Some(
            Frame {
                operation: bytes[0],
                status: bytes[1],
                algorithm: bytes[2],
                key_id: read_block::<32>(bytes, 3),
                first: copy_range(bytes, FRAME_HEAD_LEN, first_end),
                second: copy_range(bytes, second_at, len),
            },
        )
    }
}

} // verus!
