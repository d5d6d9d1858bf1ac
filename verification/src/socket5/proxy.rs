//! The request: a command and the address that it is about.
use vstd::prelude::*;
use crate::socket5::address::{Address, AddressView};
use crate::socket5::command::Command;
use crate::socket5::error::Error;
use crate::socket5::stream::{viewed, ByteStream, Decoded};

verus! {

/// What a client asks for once the method is settled.
#[derive(Debug, PartialEq, Eq)]
pub struct Proxy {
    pub command: Command,
    pub address: Address,
}

/// The model of a [`Proxy`].
pub struct ProxyView {
    pub command: Command,
    pub address: AddressView,
}

impl ProxyView {
    /// The address can go on the wire.
    pub open spec fn wf(self) -> bool {
        self.address.wf()
    }

    /// The bytes of the request on the wire: the head with the command, then the address.
    pub open spec fn wire(self) -> Seq<u8> {
        self.command.wire() + self.address.wire()
    }
}

impl View for Proxy {
    type V = ProxyView;

    open spec fn view(&self) -> ProxyView {
        ProxyView { command: self.command, address: self.address@ }
    }
}

impl Clone for Proxy {
    fn clone(&self) -> (r: Self)
        ensures
            r == *self,
    {
        Proxy { command: self.command, address: self.address.clone() }
    }
}

impl Proxy {
    /// What decoding a request from the front of `s` gives: the head first,
    /// and the address only where the command is known.
    pub open spec fn decode(s: Seq<u8>) -> Decoded<ProxyView> {
        let head = Command::decode(s);
        match head.value {
            Err(e) => Decoded { value: Err(e), used: head.used },
            Ok(command) => {
                let tail = Address::decode(s.skip(head.used as int));
                Decoded {
                    value: match tail.value {
                        Err(e) => Err(e),
                        Ok(address) => Ok(ProxyView { command, address }),
                    },
                    used: head.used + tail.used,
                }
            },
        }
    }

    /// How many bytes the next read has to fetch when `s` is what has been
    /// read of a request so far.
    pub open spec fn needed(s: Seq<u8>) -> nat {
        if Command::needed(s) > 0 {
            Command::needed(s)
        } else if Command::decode(s).value is Err {
            0
        } else {
            Address::needed(s.skip(3))
        }
    }

    /// A request with the given command for the given address.
    pub fn new(command: Command, address: Address) -> (r: Self)
        ensures
            r.command == command,
            r.address == address,
    {
        Proxy { command, address }
    }

    /// Reads a request: the head, then the address. An unknown command fails
    /// before anything of the address is read.
    pub fn from(read: &mut ByteStream) -> (res: Result<Self, Error>)
        ensures
            viewed(res) == Proxy::decode(old(read).remaining()).value,
            final(read).remaining() == old(read).remaining().skip(
                Proxy::decode(old(read).remaining()).used as int,
            ),
            res matches Ok(p) ==> p@.wf(),
    {
        let ghost s = read.remaining();
        proof {
            Address::lemma_decode_bounds(s.skip(3));
        }
        let command = Command::from(read)?;
        let address = Address::from(read);
        assert(read.remaining() =~= s.skip(Proxy::decode(s).used as int));
        Ok(Proxy { command, address: address? })
    }

    /// Appends the request as it goes on the wire.
    pub fn write(&self, write: &mut Vec<u8>)
        requires
            self@.wf(),
        ensures
            final(write)@ == old(write)@ + self@.wire(),
    {
        self.command.write(write);
        self.address.write(write);
        assert(write@ =~= old(write)@ + self@.wire());
    }

    /// Tells a reader that has `buf` so far how many more bytes to read
    /// before the request can be decoded; 0 when it can.
    pub fn pending(buf: &[u8]) -> (n: usize)
        ensures
            n == Proxy::needed(buf@),
    {
        let head: usize = Command::pending(buf);
        if head > 0 {
            head
        } else if Command::from_u8(buf[1]).is_err() {
            0
        } else {
            let rest = vstd::slice::slice_subrange(buf, 3, buf.len());
            assert(rest@ =~= buf@.skip(3));
            Address::pending(rest)
        }
    }

    /// Whether the request can go on the wire.
    pub fn is_wf(&self) -> (b: bool)
        ensures
            b == self@.wf(),
    {
        self.address.is_wf()
    }

    /// Encoding a well-formed request and decoding what follows gives the
    /// request back and takes exactly its bytes.
    pub proof fn lemma_round_trip(p: ProxyView, rest: Seq<u8>)
        requires
            p.wf(),
        ensures
            Proxy::decode(p.wire() + rest) == (Decoded {
                value: Ok::<ProxyView, Error>(p),
                used: p.wire().len(),
            }),
    {
        let s = p.wire() + rest;
        assert(s =~= p.command.wire() + (p.address.wire() + rest));
        Command::lemma_round_trip(p.command, p.address.wire() + rest);
        assert(s.skip(3) =~= p.address.wire() + rest);
        Address::lemma_round_trip(p.address, rest);
    }

    /// Decoding never takes more than there is and reports a stream that
    /// ended early exactly where bytes are still needed.
    pub proof fn lemma_decode_bounds(s: Seq<u8>)
        ensures
            Proxy::decode(s).used <= s.len(),
            Proxy::needed(s) == 0 <==> Proxy::decode(s).value != Err::<ProxyView, Error>(
                Error::IoError,
            ),
    {
        if s.len() >= 3 {
            Address::lemma_decode_bounds(s.skip(3));
        }
    }

    /// Reads sized by `needed` stop at a part's end: after one of them either
    /// more is needed or decoding takes every byte that was read.
    pub proof fn lemma_exact_reads(s: Seq<u8>, chunk: Seq<u8>)
        requires
            chunk.len() == Proxy::needed(s),
            chunk.len() > 0,
        ensures
            Proxy::needed(s + chunk) > 0 || Proxy::decode(s + chunk).used == (s + chunk).len(),
    {
        let t = s + chunk;
        if s.len() < 3 {
            assert(t.len() == 3);
            assert(t.skip(3) =~= Seq::<u8>::empty());
        } else {
            assert(t[1] == s[1]);
            assert(t.skip(3) =~= s.skip(3) + chunk);
            Address::lemma_exact_reads(s.skip(3), chunk);
        }
    }

    /// A request to BIND or for UDP ASSOCIATE decodes like one to CONNECT:
    /// with a well-formed address behind it, no command of the three is a
    /// decoding error.
    pub proof fn lemma_every_command_decodes(command: Command, address: AddressView)
        requires
            address.wf(),
        ensures
            Proxy::decode((ProxyView { command, address }).wire()).value is Ok,
    {
        let p = ProxyView { command, address };
        Proxy::lemma_round_trip(p, Seq::<u8>::empty());
        assert(p.wire() + Seq::<u8>::empty() =~= p.wire());
    }
}

} // verus!
