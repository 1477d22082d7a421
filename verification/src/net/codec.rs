//! Frames of commands on the wire.
//!
//! A frame is a mark of two bytes, a length of two bytes, and that many
//! bytes of data: a command, and two closing bytes. Mark and length are
//! written low byte first.

use crate::net::command::{bytes_of, command_of, Command};
use crate::wire::{get_u16_le, put_u16_le, u16_le};
use vstd::prelude::*;

verus! {

/// The longest command that fits a frame.
pub const MAX_SIZE: usize = 0xFFFF - 6;

/// The two bytes that open a frame.
pub const MARK: u16 = 0x6D32;

/// The two bytes that close a frame.
pub const TAIL: u16 = 0xAACC;

/// The length of mark and length together.
pub const HEAD_LEN: usize = 4;

/// The number of bytes that have to be there before a frame is looked at.
pub const MIN_READ: usize = 8;

/// Why a frame could not be written or read.
#[derive(Debug, Clone, Copy, PartialEq, Eq, Structural)]
pub enum CodecError {
    /// The data stand for no command.
    Unreadable,
    /// The command is longer than a frame allows.
    TooLong(usize),
    /// The bytes do not start with the mark of a frame, but with this.
    WrongMark(u16),
    /// The frame gives a length of data that no frame may have.
    TooLarge(usize),
}

/// What was found at the start of received bytes.
#[derive(Debug, Clone, Copy, PartialEq, Eq, Structural)]
pub struct Decoded {
    /// The number of bytes at the start that are done with.
    pub consumed: usize,
    /// The number of bytes still missing from the frame that has started.
    pub missing: usize,
    /// The command of the frame that was read, if one was read and its data
    /// stand for a command.
    pub item: Option<Command>,
}

/// The frame that carries a command.
pub open spec fn frame_of(data: Seq<u8>) -> Seq<u8> {
    seq![
        (MARK % 0x100) as u8,
        (MARK / 0x100) as u8,
        ((data.len() + 2) % 0x100) as u8,
        ((data.len() + 2) / 0x100) as u8,
    ] + data + seq![(TAIL % 0x100) as u8, (TAIL / 0x100) as u8]
}

/// The length that a frame gives for its data.
pub open spec fn data_len(src: Seq<u8>) -> int {
    u16_le(src, 2)
}

/// What the start of received bytes holds.
///
/// Fewer than eight bytes are left alone. Bytes that do not start with the
/// mark, or that give too large a length, are an error. A frame that is not
/// whole yet is left alone, and the number of bytes that it lacks is told.
/// A whole frame is consumed, whether its data stand for a command or not.
pub open spec fn decoded(src: Seq<u8>) -> Result<Decoded, CodecError> {
    if src.len() < MIN_READ {
        Ok(Decoded { consumed: 0, missing: 0, item: None })
    } else if u16_le(src, 0) != MARK {
        Err(CodecError::WrongMark(u16_le(src, 0) as u16))
    } else if data_len(src) > MAX_SIZE {
        Err(CodecError::TooLarge(data_len(src) as usize))
    } else if src.len() < data_len(src) + HEAD_LEN {
        Ok(
            Decoded {
                consumed: 0,
                missing: (data_len(src) + HEAD_LEN - src.len()) as usize,
                item: None,
            },
        )
    } else {
        Ok(
            Decoded {
                consumed: (data_len(src) + HEAD_LEN) as usize,
                missing: 0,
                item: command_of(src.subrange(HEAD_LEN as int, data_len(src) + HEAD_LEN)),
            },
        )
    }
}

/// The codec of the game protocol.
pub struct CommandCodec;

impl CommandCodec {
    /// The bytes of a command.
    pub fn encode_command(&self, item: &Command) -> (data: Vec<u8>)
        ensures
            data@ == bytes_of(*item),
    {
        item.bytes()
    }

    /// The command that the data of a frame stand for.
    pub fn decode_command(&self, data: &[u8]) -> (command: Result<Command, CodecError>)
        ensures
            command == match command_of(data@) {
                Some(command) => Ok::<Command, CodecError>(command),
                None => Err(CodecError::Unreadable),
            },
    {
        match Command::from(data) {
            Some(command) => Ok(command),
            None => Err(CodecError::Unreadable),
        }
    }

    /// Writes the frame of a command.
    pub fn encode(&self, item: &Command) -> (frame: Result<Vec<u8>, CodecError>)
        ensures
            frame matches Ok(frame) && frame@ == frame_of(bytes_of(*item)),
    {
        let data = self.encode_command(item);
        self.encode_data(data.as_slice())
    }

    /// Writes the frame that carries the given bytes of a command, unless
    /// they are more than a frame can carry.
    pub fn encode_data(&self, data: &[u8]) -> (frame: Result<Vec<u8>, CodecError>)
        ensures
            match frame {
                Ok(frame) => data@.len() <= MAX_SIZE && frame@ == frame_of(data@),
                Err(error) => data@.len() > MAX_SIZE && error == CodecError::TooLong(
                    data@.len() as usize,
                ),
            },
    {
        let len: usize = data.len();
        if len > MAX_SIZE {
            return Err(CodecError::TooLong(len));
        }
        let mut dst: Vec<u8> = Vec::new();
        put_u16_le(&mut dst, MARK);
        put_u16_le(&mut dst, len as u16 + 2);
        let ghost head = dst@;
        let mut i: usize = 0;
        while i < len
            invariant
                i <= len,
                len == data@.len(),
                len <= MAX_SIZE,
                dst@ == head + data@.take(i as int),
                head.len() == 4,
            decreases len - i,
        {
            dst.push(data[i]);
            proof {
                assert(data@.take(i + 1) == data@.take(i as int).push(data@[i as int]));
            }
            i += 1;
        }
        proof {
            assert(data@.take(len as int) == data@);
        }
        put_u16_le(&mut dst, TAIL);
        assert(dst@ == frame_of(data@));
        Ok(dst)
    }

    /// Looks for a frame at the start of received bytes.
    pub fn decode(&self, src: &[u8]) -> (found: Result<Decoded, CodecError>)
        ensures
            found == decoded(src@),
    {
        let buf_len: usize = src.len();
        if buf_len < MIN_READ {
            return Ok(Decoded { consumed: 0, missing: 0, item: None });
        }
        let mark: u16 = get_u16_le(src, 0);
        if mark != MARK {
            return Err(CodecError::WrongMark(mark));
        }
        let data_len: usize = get_u16_le(src, 2) as usize;
        if data_len > MAX_SIZE {
            return Err(CodecError::TooLarge(data_len));
        }
        let frame_len: usize = data_len + HEAD_LEN;
        if buf_len < frame_len {
            return Ok(Decoded { consumed: 0, missing: frame_len - buf_len, item: None });
        }
        let item = match self.decode_command(&src[HEAD_LEN..frame_len]) {
            Ok(command) => Some(command),
            Err(_) => None,
        };
        Ok(Decoded { consumed: frame_len, missing: 0, item })
    }
}

/// The frame of an acknowledgement, with whatever bytes behind it, is read
/// as that acknowledgement, and the frame and no more is consumed.
pub proof fn lemma_frame_round_trip(command: Command, rest: Seq<u8>)
    requires
        command is Ack,
    ensures
        decoded(frame_of(bytes_of(command)) + rest) == Ok::<Decoded, CodecError>(
            Decoded {
                consumed: frame_of(bytes_of(command)).len() as usize,
                missing: 0,
                item: Some(command),
            },
        ),
{
    let data = bytes_of(command);
    let frame = frame_of(data);
    let src = frame + rest;
    assert(data.len() == 5);
    assert(frame.len() == 11);
    assert(src[0] == 0x32 && src[1] == 0x6D && src[2] == 7 && src[3] == 0);
    let inner = src.subrange(HEAD_LEN as int, 11);
    assert(inner.len() == 7);
    assert(inner[0] == data[0] && inner[1] == data[1] && inner[2] == data[2] && inner[3] == data[3]
        && inner[4] == data[4]);
}

} // verus!
