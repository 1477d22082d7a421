//! The commands that client and server exchange.
//!
//! A command travels as a frame number of two bytes, low byte first, and
//! the command's own bytes behind it.

use crate::wire::{get_u16_le, put_u16_le, u16_le};
use vstd::prelude::*;

verus! {

/// The frame number of an acknowledgement.
pub const ACK_FRAME: u16 = 0x0000;

/// The length of an acknowledgement on the wire.
pub const ACK_LEN: usize = 5;

/// An answer to a frame: which frame it answers, and with what result. The
/// result zero stands for success.
#[derive(Debug, Clone, Copy, PartialEq, Eq, Structural)]
pub struct Ack {
    pub ack_frame: u16,
    pub result: u8,
}

#[derive(Debug, Clone, Copy, PartialEq, Eq, Structural)]
pub enum Command {
    /// An answer to a frame.
    Ack(Ack),
    /// The handshake, with the client's version.
    Shake { major: u8, minor: u8, build: u8 },
    /// A request to synchronise.
    Sync,
}

/// The command that some bytes stand for, if they stand for one. Only
/// acknowledgements are read; bytes behind the command are not looked at.
pub open spec fn command_of(src: Seq<u8>) -> Option<Command> {
    if src.len() >= ACK_LEN && u16_le(src, 0) == ACK_FRAME {
        Some(Command::Ack(Ack { ack_frame: u16_le(src, 2) as u16, result: src[4] }))
    } else {
        None
    }
}

/// The bytes that stand for a command. Only acknowledgements have any.
pub open spec fn bytes_of(command: Command) -> Seq<u8> {
    match command {
        Command::Ack(ack) => seq![
            0u8,
            0u8,
            (ack.ack_frame % 0x100) as u8,
            (ack.ack_frame / 0x100) as u8,
            ack.result,
        ],
        _ => Seq::empty(),
    }
}

impl Ack {
    /// An answer that reports success.
    pub fn ok(frame: u16) -> (ack: Self)
        ensures
            ack == (Ack { ack_frame: frame, result: 0 }),
    {
        Ack { ack_frame: frame, result: 0 }
    }

    /// An answer that reports a result.
    pub fn fail(frame: u16, result: u8) -> (ack: Self)
        ensures
            ack == (Ack { ack_frame: frame, result }),
    {
        Ack { ack_frame: frame, result }
    }
}

impl Command {
    /// Reads a command from its bytes.
    pub fn from(src: &[u8]) -> (command: Option<Self>)
        ensures
            command == command_of(src@),
    {
        if src.len() < ACK_LEN {
            return None;
        }
        let frame: u16 = get_u16_le(src, 0);
        if frame == ACK_FRAME {
            let ack_frame: u16 = get_u16_le(src, 2);
            let result: u8 = src[4];
            return Some(Command::Ack(Ack { ack_frame, result }));
        }
        None
    }

    /// Writes a command as bytes.
    pub fn bytes(&self) -> (bytes: Vec<u8>)
        ensures
            bytes@ == bytes_of(*self),
    {
        let mut dst: Vec<u8> = Vec::new();
        match self {
            Command::Ack(ack) => {
                put_u16_le(&mut dst, ACK_FRAME);
                put_u16_le(&mut dst, ack.ack_frame);
                dst.push(ack.result);
            },
            Command::Shake { .. } => {},
            Command::Sync => {},
        }
        dst
    }
}

/// An acknowledgement written as bytes and read again is the acknowledgement
/// that was written, whatever follows its bytes.
pub proof fn lemma_ack_round_trip(ack: Ack, rest: Seq<u8>)
    ensures
        command_of(bytes_of(Command::Ack(ack)) + rest) == Some(Command::Ack(ack)),
{
    let bytes = bytes_of(Command::Ack(ack)) + rest;
    assert(bytes[0] == 0 && bytes[1] == 0 && bytes[4] == ack.result);
    assert(bytes[2] == (ack.ack_frame % 0x100) as u8);
    assert(bytes[3] == (ack.ack_frame / 0x100) as u8);
}

} // verus!
