//! The handshake: the methods that the client offers and the one that the server picks.
use vstd::prelude::*;
use crate::socket5::buffer::{buffered, put_slice, put_u8, with_capacity, write_all};
use crate::socket5::constant::{METHOD_NO_AUTHENTICATION, SOCKET5_VERSION};
use crate::socket5::error::Error;
use crate::socket5::stream::{cut_short, viewed, ByteStream, Decoded};

verus! {

/// The authentication methods that a client offers, in the order given.
#[derive(Debug, PartialEq, Eq)]
pub struct ShakeHands {
    pub methods: Vec<u8>,
}

impl View for ShakeHands {
    type V = Seq<u8>;

    open spec fn view(&self) -> Seq<u8> {
        self.methods@
    }
}

impl Clone for ShakeHands {
    fn clone(&self) -> (r: Self)
        ensures
            r@ == self@,
    {
        ShakeHands { methods: self.methods.clone() }
    }
}

impl ShakeHands {
    /// The count of methods fits the one byte that announces it.
    pub open spec fn wf(methods: Seq<u8>) -> bool {
        methods.len() <= 255
    }

    /// The bytes of the offer on the wire: version, count, methods.
    pub open spec fn wire(methods: Seq<u8>) -> Seq<u8> {
        seq![SOCKET5_VERSION, methods.len() as u8] + methods
    }

    /// What decoding an offer from the front of `s` gives. The version byte
    /// is not looked at.
    pub open spec fn decode(s: Seq<u8>) -> Decoded<Seq<u8>> {
        if s.len() < 2 {
            cut_short(s)
        } else if s.len() < 2 + s[1] {
            cut_short(s)
        } else {
            Decoded { value: Ok(s.subrange(2, 2 + s[1])), used: (2 + s[1]) as nat }
        }
    }

    /// How many bytes the next read has to fetch when `s` is what has been
    /// read of an offer so far: the two-byte head, then the methods.
    pub open spec fn needed(s: Seq<u8>) -> nat {
        if s.len() < 2 {
            (2 - s.len()) as nat
        } else if s.len() < 2 + s[1] {
            (2 + s[1] - s.len()) as nat
        } else {
            0
        }
    }

    /// An offer of the given methods.
    pub fn new(methods: Vec<u8>) -> (r: Self)
        ensures
            r.methods == methods,
    {
        ShakeHands { methods }
    }

    /// Reads an offer: the two-byte head, then as many methods as it announces.
    pub fn from(read: &mut ByteStream) -> (res: Result<Self, Error>)
        ensures
            viewed(res) == ShakeHands::decode(old(read).remaining()).value,
            final(read).remaining() == old(read).remaining().skip(
                ShakeHands::decode(old(read).remaining()).used as int,
            ),
            res matches Ok(h) ==> ShakeHands::wf(h@),
    {
        let ghost s = read.remaining();
        let head = read.read_exact(2)?;
        let nmethods: u8 = head[1];
        let methods = read.read_exact(nmethods as usize)?;
        assert(methods@ =~= s.subrange(2, 2 + s[1]));
        Ok(ShakeHands { methods })
    }

    /// Appends the offer as it goes on the wire.
    pub fn write(&self, write: &mut Vec<u8>)
        requires
            ShakeHands::wf(self@),
        ensures
            final(write)@ == old(write)@ + ShakeHands::wire(self@),
    {
        let mut buf = with_capacity(2 + self.methods.len());
        put_u8(&mut buf, SOCKET5_VERSION);
        put_u8(&mut buf, self.methods.len() as u8);
        put_slice(&mut buf, self.methods.as_slice());
        assert(buffered(buf) =~= ShakeHands::wire(self@));
        write_all(write, &buf);
    }

    /// Tells a reader that has `buf` so far how many more bytes to read
    /// before the offer can be decoded; 0 when it can.
    pub fn pending(buf: &[u8]) -> (n: usize)
        ensures
            n == ShakeHands::needed(buf@),
    {
        let len: usize = buf.len();
        if len < 2 {
            2 - len
        } else {
            let total: usize = 2 + buf[1] as usize;
            if len < total {
                total - len
            } else {
                0
            }
        }
    }

    /// Whether the offer can go on the wire: at most 255 methods.
    pub fn is_wf(&self) -> (b: bool)
        ensures
            b == ShakeHands::wf(self@),
    {
        self.methods.len() <= 255
    }

    /// Picks the method for the session: "no authentication", whatever was offered.
    pub fn select(&self) -> (choice: MethodChoice)
        ensures
            choice.method == METHOD_NO_AUTHENTICATION,
    {
        MethodChoice { method: METHOD_NO_AUTHENTICATION }
    }

    /// Encoding an offer of at most 255 methods and decoding what follows
    /// gives the methods back and takes exactly the offer's bytes.
    pub proof fn lemma_round_trip(methods: Seq<u8>, rest: Seq<u8>)
        requires
            ShakeHands::wf(methods),
        ensures
            ShakeHands::decode(ShakeHands::wire(methods) + rest) == (Decoded {
                value: Ok::<Seq<u8>, Error>(methods),
                used: ShakeHands::wire(methods).len(),
            }),
    {
        let s = ShakeHands::wire(methods) + rest;
        assert(s[1] == methods.len());
        assert(s.subrange(2, 2 + s[1]) =~= methods);
    }

    /// Decoding never takes more than there is and reports a stream that
    /// ended early exactly where bytes are still needed.
    pub proof fn lemma_decode_bounds(s: Seq<u8>)
        ensures
            ShakeHands::decode(s).used <= s.len(),
            ShakeHands::needed(s) == 0 <==> ShakeHands::decode(s).value != Err::<Seq<u8>, Error>(
                Error::IoError,
            ),
    {
    }

    /// Reads sized by `needed` stop at a part's end: after one of them either
    /// more is needed or decoding takes every byte that was read.
    pub proof fn lemma_exact_reads(s: Seq<u8>, chunk: Seq<u8>)
        requires
            chunk.len() == ShakeHands::needed(s),
            chunk.len() > 0,
        ensures
            ShakeHands::needed(s + chunk) > 0 || ShakeHands::decode(s + chunk).used == (s
                + chunk).len(),
    {
        if s.len() >= 2 {
            assert((s + chunk)[1] == s[1]);
        }
    }
}

/// The server's answer to an offer: the method that the session will use.
#[derive(Debug, Clone, Copy, PartialEq, Eq, Structural)]
pub struct MethodChoice {
    pub method: u8,
}

impl MethodChoice {
    /// The bytes of the answer on the wire: version, method.
    pub open spec fn wire(self) -> Seq<u8> {
        seq![SOCKET5_VERSION, self.method]
    }

    /// What decoding an answer from the front of `s` gives. The version byte
    /// is not looked at.
    pub open spec fn decode(s: Seq<u8>) -> Decoded<MethodChoice> {
        if s.len() < 2 {
            cut_short(s)
        } else {
            Decoded { value: Ok(MethodChoice { method: s[1] }), used: 2 }
        }
    }

    /// How many bytes the next read has to fetch when `s` is what has been
    /// read of an answer so far.
    pub open spec fn needed(s: Seq<u8>) -> nat {
        if s.len() < 2 {
            (2 - s.len()) as nat
        } else {
            0
        }
    }

    /// What a client makes of the answer: it goes on only with "no authentication".
    pub open spec fn verdict(self) -> Result<(), Error> {
        if self.method == METHOD_NO_AUTHENTICATION {
            Ok(())
        } else {
            Err(Error::AddressDomainNo)
        }
    }

    /// Reads the two bytes of an answer.
    pub fn from(read: &mut ByteStream) -> (res: Result<Self, Error>)
        ensures
            res == MethodChoice::decode(old(read).remaining()).value,
            final(read).remaining() == old(read).remaining().skip(
                MethodChoice::decode(old(read).remaining()).used as int,
            ),
    {
        let head = read.read_exact(2)?;
        Ok(MethodChoice { method: head[1] })
    }

    /// Appends the answer as it goes on the wire.
    pub fn write(&self, write: &mut Vec<u8>)
        ensures
            final(write)@ == old(write)@ + self.wire(),
    {
        write.push(SOCKET5_VERSION);
        write.push(self.method);
        assert(write@ =~= old(write)@ + self.wire());
    }

    /// Tells a reader that has `buf` so far how many more bytes to read
    /// before the answer can be decoded; 0 when it can.
    pub fn pending(buf: &[u8]) -> (n: usize)
        ensures
            n == MethodChoice::needed(buf@),
    {
        if buf.len() < 2 {
            2 - buf.len()
        } else {
            0
        }
    }

    /// The client's check of the answer: any method but "no authentication" is refused.
    pub fn accept(&self) -> (res: Result<(), Error>)
        ensures
            res == self.verdict(),
    {
        if self.method == METHOD_NO_AUTHENTICATION {
            Ok(())
        } else {
            Err(Error::AddressDomainNo)
        }
    }

    /// Encoding an answer and decoding what follows gives the answer back
    /// and takes exactly its two bytes.
    pub proof fn lemma_round_trip(m: MethodChoice, rest: Seq<u8>)
        ensures
            MethodChoice::decode(m.wire() + rest) == (Decoded {
                value: Ok::<MethodChoice, Error>(m),
                used: m.wire().len(),
            }),
    {
    }
}

} // verus!
