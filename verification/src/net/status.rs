//! The state of the connection to the server, and what each notice from the
//! network does to it.

use crate::net::command::{Ack, Command};
use vstd::prelude::*;

verus! {

/// The number of the frame that opens a session.
pub const INIT_FRAME: u16 = 1;

/// The number of tries to connect after which no more are made.
pub const MAX_RETRY: u32 = 3;

/// The version of the client.
#[derive(Debug, Clone, Copy, PartialEq, Eq, Structural)]
pub struct Version {
    pub major: u8,
    pub minor: u8,
    pub build: u8,
}

#[derive(Debug, Clone, Copy, PartialEq, Eq, Structural)]
pub enum NetStatus {
    /// Not connected.
    Offline,
    /// A try to connect is under way.
    Connecting,
    /// Connected; the session has not been opened yet.
    Connected,
    /// The last try to connect failed.
    ConnectFailed,
    /// The session's data are being synchronised.
    Loading,
    /// The session is open.
    Ready,
}

/// What the network reports to the game, and what the game hands to the
/// network.
#[derive(Debug, Clone, Copy, PartialEq, Eq, Structural)]
pub enum NetNotice {
    Connected,
    ConnectFailed,
    Message(Command),
    Close,
}

/// Whether a command is the server's answer that the session is open.
pub open spec fn opens_session(command: Command) -> bool {
    command matches Command::Ack(ack) && ack.ack_frame == INIT_FRAME && ack.result == 0
}

impl NetStatus {
    /// The status after a notice from the network.
    pub open spec fn after(self, notice: NetNotice) -> NetStatus {
        match notice {
            NetNotice::Connected => NetStatus::Connected,
            NetNotice::ConnectFailed => NetStatus::ConnectFailed,
            NetNotice::Message(command) => if opens_session(command) {
                NetStatus::Ready
            } else {
                self
            },
            NetNotice::Close => NetStatus::Offline,
        }
    }

    /// Whether a try to connect is made in this status after `retry` tries.
    pub open spec fn retries(self, retry: u32) -> bool {
        retry <= MAX_RETRY && (self == NetStatus::Offline || self == NetStatus::ConnectFailed)
    }

    /// Tells whether to try to connect now, `retry` tries having been made.
    pub fn should_connect(&self, retry: u32) -> (connect: bool)
        ensures
            connect == self.retries(retry),
    {
        if retry > MAX_RETRY {
            return false;
        }
        match self {
            NetStatus::Offline => true,
            NetStatus::ConnectFailed => true,
            _ => false,
        }
    }

    /// Tells whether commands are sent in this status.
    pub fn can_send(&self) -> (open: bool)
        ensures
            open == (*self == NetStatus::Ready),
    {
        match self {
            NetStatus::Ready => true,
            _ => false,
        }
    }

    /// Takes a notice from the network. The status moves on; once connected,
    /// the answer that opens the session is to be sent; a message is handed
    /// on to the game.
    pub fn receive(&mut self, notice: NetNotice) -> (out: (Option<Command>, Option<Command>))
        ensures
            *final(self) == old(self).after(notice),
            out.0 == if notice is Connected {
                Some(Command::Ack(Ack { ack_frame: INIT_FRAME, result: 0 }))
            } else {
                None
            },
            out.1 == match notice {
                NetNotice::Message(command) => Some(command),
                _ => None,
            },
    {
        match notice {
            NetNotice::Connected => {
                *self = NetStatus::Connected;
                (Some(Command::Ack(Ack::ok(INIT_FRAME))), None)
            },
            NetNotice::ConnectFailed => {
                *self = NetStatus::ConnectFailed;
                (None, None)
            },
            NetNotice::Message(command) => {
                match command {
                    Command::Ack(ack) => {
                        if ack.ack_frame == INIT_FRAME && ack.result == 0 {
                            *self = NetStatus::Ready;
                        }
                    },
                    _ => {},
                }
                (None, Some(command))
            },
            NetNotice::Close => {
                *self = NetStatus::Offline;
                (None, None)
            },
        }
    }
}

} // verus!
