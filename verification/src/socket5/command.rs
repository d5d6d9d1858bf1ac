//! The command of a request and the three bytes that open the request.
use vstd::prelude::*;
use crate::socket5::constant::{CMD_BIND, CMD_CONNECT, CMD_UDP, RSV, SOCKET5_VERSION};
use crate::socket5::error::Error;
use crate::socket5::stream::{cut_short, ByteStream, Decoded};

verus! {

/// What the client asks the server to do.
#[derive(Debug, Clone, Copy, PartialEq, Eq, Structural)]
pub enum Command {
    CONNECT,
    BIND,
    UDP,
}

impl Command {
    /// The code that goes on the wire for a command.
    pub open spec fn code(self) -> u8 {
        match self {
            Command::CONNECT => CMD_CONNECT,
            Command::BIND => CMD_BIND,
            Command::UDP => CMD_UDP,
        }
    }

    /// The command that a code stands for; a code that stands for none is
    /// an error that carries the code.
    pub open spec fn of_code(u: u8) -> Result<Command, Error> {
        if u == CMD_CONNECT {
            Ok(Command::CONNECT)
        } else if u == CMD_BIND {
            Ok(Command::BIND)
        } else if u == CMD_UDP {
            Ok(Command::UDP)
        } else {
            Err(Error::CommandNo(u))
        }
    }

    /// The head of a request: version, command, reserved byte.
    pub open spec fn wire(self) -> Seq<u8> {
        seq![SOCKET5_VERSION, self.code(), RSV]
    }

    /// What decoding a request head from the front of `s` gives. Only the
    /// command byte is looked at.
    pub open spec fn decode(s: Seq<u8>) -> Decoded<Command> {
        if s.len() < 3 {
            cut_short(s)
        } else {
            Decoded { value: Command::of_code(s[1]), used: 3 }
        }
    }

    /// How many bytes the next read has to fetch when `s` is what has been
    /// read of a request head so far.
    pub open spec fn needed(s: Seq<u8>) -> nat {
        if s.len() < 3 {
            (3 - s.len()) as nat
        } else {
            0
        }
    }

    /// Encodes the command as its code, from which it decodes back.
    pub fn to_u8(&self) -> (u: u8)
        ensures
            u == self.code(),
            Command::of_code(u) == Ok::<Command, Error>(*self),
    {
        match self {
            Command::CONNECT => CMD_CONNECT,
            Command::BIND => CMD_BIND,
            Command::UDP => CMD_UDP,
        }
    }

    /// Decodes a command code: 1, 2 and 3 are CONNECT, BIND and UDP
    /// ASSOCIATE, and any other byte is refused with that byte.
    pub fn from_u8(u: u8) -> (r: Result<Self, Error>)
        ensures
            r == Command::of_code(u),
            u == 1 ==> r == Ok::<Command, Error>(Command::CONNECT),
            u == 2 ==> r == Ok::<Command, Error>(Command::BIND),
            u == 3 ==> r == Ok::<Command, Error>(Command::UDP),
            !(1 <= u <= 3) ==> r == Err::<Command, Error>(Error::CommandNo(u)),
            r matches Ok(c) ==> c.code() == u,
    {
        if u == CMD_CONNECT {
            Ok(Command::CONNECT)
        } else if u == CMD_BIND {
            Ok(Command::BIND)
        } else if u == CMD_UDP {
            Ok(Command::UDP)
        } else {
            Err(Error::CommandNo(u))
        }
    }

    /// Reads the three bytes of a request head and decodes the command in them.
    pub fn from(read: &mut ByteStream) -> (res: Result<Self, Error>)
        ensures
            res == Command::decode(old(read).remaining()).value,
            final(read).remaining() == old(read).remaining().skip(
                Command::decode(old(read).remaining()).used as int,
            ),
    {
        let head = read.read_exact(3)?;
        Command::from_u8(head[1])
    }

    /// Appends the request head for the command.
    pub fn write(&self, write: &mut Vec<u8>)
        ensures
            final(write)@ == old(write)@ + self.wire(),
    {
        write.push(SOCKET5_VERSION);
        write.push(self.to_u8());
        write.push(RSV);
        assert(write@ =~= old(write)@ + self.wire());
    }

    /// Tells a reader that has `buf` so far how many more bytes to read
    /// before the request head can be decoded; 0 when it can.
    pub fn pending(buf: &[u8]) -> (n: usize)
        ensures
            n == Command::needed(buf@),
    {
        if buf.len() < 3 {
            3 - buf.len()
        } else {
            0
        }
    }

    /// Encoding a command and decoding what follows gives the command back
    /// and takes exactly its three bytes.
    pub proof fn lemma_round_trip(c: Command, rest: Seq<u8>)
        ensures
            Command::decode(c.wire() + rest) == (Decoded {
                value: Ok::<Command, Error>(c),
                used: c.wire().len(),
            }),
    {
    }
}

} // verus!
