//! The reply: a status and the address that goes with it.
use vstd::prelude::*;
use crate::socket5::address::{Address, AddressView};
use crate::socket5::constant::{
    REP_ADDRESS_NO, REP_CMD_NO, REP_CONN_NO, REP_CONN_REFUSED, REP_HOST_NO, REP_NETWORK_NO, REP_NO,
    REP_SERVER_FAIL, REP_SUCESS, REP_TTL_EXP, RSV, SOCKET5_VERSION,
};
use crate::socket5::error::Error;
use crate::socket5::stream::{cut_short, ByteStream, Decoded};

verus! {

/// Status that the server reports for a request.
#[derive(Debug, Clone, Copy, PartialEq, Eq, Structural)]
pub enum Reply {
    RepSuccess,
    RepServerFail,
    RepConnNo,
    RepNetworkNo,
    RepHostNo,
    RepConnRefused,
    RepTtlExp,
    RepCmdNo,
    RepAddressNo,
    RepNo,
    /// Escape for every code that has no name.
    Other(u8),
}

impl Reply {
    /// The status that a code stands for: its name where it has one, the escape otherwise.
    pub open spec fn of_code(u: u8) -> Reply {
        if u == REP_SUCESS {
            Reply::RepSuccess
        } else if u == REP_SERVER_FAIL {
            Reply::RepServerFail
        } else if u == REP_CONN_NO {
            Reply::RepConnNo
        } else if u == REP_NETWORK_NO {
            Reply::RepNetworkNo
        } else if u == REP_HOST_NO {
            Reply::RepHostNo
        } else if u == REP_CONN_REFUSED {
            Reply::RepConnRefused
        } else if u == REP_TTL_EXP {
            Reply::RepTtlExp
        } else if u == REP_CMD_NO {
            Reply::RepCmdNo
        } else if u == REP_ADDRESS_NO {
            Reply::RepAddressNo
        } else if u == REP_NO {
            Reply::RepNo
        } else {
            Reply::Other(u)
        }
    }

    /// The code that goes on the wire for a status.
    pub open spec fn code(self) -> u8 {
        match self {
            Reply::RepSuccess => REP_SUCESS,
            Reply::RepServerFail => REP_SERVER_FAIL,
            Reply::RepConnNo => REP_CONN_NO,
            Reply::RepNetworkNo => REP_NETWORK_NO,
            Reply::RepHostNo => REP_HOST_NO,
            Reply::RepConnRefused => REP_CONN_REFUSED,
            Reply::RepTtlExp => REP_TTL_EXP,
            Reply::RepCmdNo => REP_CMD_NO,
            Reply::RepAddressNo => REP_ADDRESS_NO,
            Reply::RepNo => REP_NO,
            Reply::Other(u) => u,
        }
    }

    /// The head of a reply: version, status, reserved byte.
    pub open spec fn head(self) -> Seq<u8> {
        seq![SOCKET5_VERSION, self.code(), RSV]
    }

    /// The bytes of a reply on the wire: the head with the status, then the
    /// address that the reply carries.
    pub open spec fn wire(self, address: AddressView) -> Seq<u8> {
        self.head() + address.wire()
    }

    /// What decoding a reply from the front of `s` gives: the status from
    /// the head, once the address behind it has been decoded too. Of the head
    /// only the status byte is looked at, and every status is accepted.
    pub open spec fn decode(s: Seq<u8>) -> Decoded<Reply> {
        if s.len() < 3 {
            cut_short(s)
        } else {
            let tail = Address::decode(s.skip(3));
            Decoded {
                value: match tail.value {
                    Err(e) => Err(e),
                    Ok(_) => Ok(Reply::of_code(s[1])),
                },
                used: 3 + tail.used,
            }
        }
    }

    /// How many bytes the next read has to fetch when `s` is what has been
    /// read of a reply so far: the three-byte head, then the address part by part.
    pub open spec fn needed(s: Seq<u8>) -> nat {
        if s.len() < 3 {
            (3 - s.len()) as nat
        } else {
            Address::needed(s.skip(3))
        }
    }

    /// A status is canonical when the escape carries no code that has a name.
    pub open spec fn wf(self) -> bool {
        self matches Reply::Other(u) ==> u > REP_NO
    }

    /// Decodes a status code. Every byte is accepted; the result is canonical
    /// and encodes back to the same byte.
    pub fn from_u8(u: u8) -> (r: Self)
        ensures
            r == Reply::of_code(u),
            r.wf(),
            r.code() == u,
    {
        if u == REP_SUCESS {
            Reply::RepSuccess
        } else if u == REP_SERVER_FAIL {
            Reply::RepServerFail
        } else if u == REP_CONN_NO {
            Reply::RepConnNo
        } else if u == REP_NETWORK_NO {
            Reply::RepNetworkNo
        } else if u == REP_HOST_NO {
            Reply::RepHostNo
        } else if u == REP_CONN_REFUSED {
            Reply::RepConnRefused
        } else if u == REP_TTL_EXP {
            Reply::RepTtlExp
        } else if u == REP_CMD_NO {
            Reply::RepCmdNo
        } else if u == REP_ADDRESS_NO {
            Reply::RepAddressNo
        } else if u == REP_NO {
            Reply::RepNo
        } else {
            Reply::Other(u)
        }
    }

    /// Encodes a status as its code. A canonical status decodes back from it.
    pub fn to_u8(&self) -> (u: u8)
        ensures
            u == self.code(),
            self.wf() ==> Reply::of_code(u) == *self,
    {
        match self {
            Reply::RepSuccess => REP_SUCESS,
            Reply::RepServerFail => REP_SERVER_FAIL,
            Reply::RepConnNo => REP_CONN_NO,
            Reply::RepNetworkNo => REP_NETWORK_NO,
            Reply::RepHostNo => REP_HOST_NO,
            Reply::RepConnRefused => REP_CONN_REFUSED,
            Reply::RepTtlExp => REP_TTL_EXP,
            Reply::RepCmdNo => REP_CMD_NO,
            Reply::RepAddressNo => REP_ADDRESS_NO,
            Reply::RepNo => REP_NO,
            Reply::Other(u) => *u,
        }
    }

    /// Reads a reply: the three bytes of the head, then the address, and
    /// gives the status. An address that does not decode fails the reply
    /// with the address's error.
    pub fn from(read: &mut ByteStream) -> (res: Result<Self, Error>)
        ensures
            res == Reply::decode(old(read).remaining()).value,
            final(read).remaining() == old(read).remaining().skip(
                Reply::decode(old(read).remaining()).used as int,
            ),
    {
        let ghost s = read.remaining();
        proof {
            Address::lemma_decode_bounds(s.skip(3));
        }
        let head = read.read_exact(3)?;
        let address = Address::from(read);
        assert(read.remaining() =~= s.skip(Reply::decode(s).used as int));
        match address {
            Ok(_) => Ok(Reply::from_u8(head[1])),
            Err(e) => Err(e),
        }
    }

    /// Appends the reply as it goes on the wire: version, status, reserved
    /// byte, then the address, which the caller supplies for every status.
    pub fn write(&self, address: &Address, write: &mut Vec<u8>)
        requires
            address@.wf(),
        ensures
            final(write)@ == old(write)@ + self.wire(address@),
    {
        write.push(SOCKET5_VERSION);
        write.push(self.to_u8());
        write.push(RSV);
        address.write(write);
        assert(write@ =~= old(write)@ + self.wire(address@));
    }

    /// Tells a reader that has `buf` so far how many more bytes to read
    /// before the reply can be decoded; 0 when it can.
    pub fn pending(buf: &[u8]) -> (n: usize)
        ensures
            n == Reply::needed(buf@),
    {
        if buf.len() < 3 {
            3 - buf.len()
        } else {
            let rest = vstd::slice::slice_subrange(buf, 3, buf.len());
            assert(rest@ =~= buf@.skip(3));
            Address::pending(rest)
        }
    }

    /// Encoding a canonical status with a well-formed address and decoding
    /// what follows gives the status back and takes exactly the reply's bytes.
    pub proof fn lemma_round_trip(r: Reply, address: AddressView, rest: Seq<u8>)
        requires
            r.wf(),
            address.wf(),
        ensures
            Reply::decode(r.wire(address) + rest) == (Decoded {
                value: Ok::<Reply, Error>(r),
                used: r.wire(address).len(),
            }),
    {
        let s = r.wire(address) + rest;
        assert(s.skip(3) =~= address.wire() + rest);
        Address::lemma_round_trip(address, rest);
    }

    /// Whatever the status, what decodes from a reply's bytes encodes to the same bytes.
    pub proof fn lemma_wire_stable(r: Reply, address: AddressView)
        requires
            address.wf(),
        ensures
            Reply::decode(r.wire(address)).value is Ok,
            Reply::decode(r.wire(address)).value->Ok_0.wire(address) == r.wire(address),
    {
        let s = r.wire(address);
        assert(s.skip(3) =~= address.wire() + Seq::<u8>::empty());
        Address::lemma_round_trip(address, Seq::<u8>::empty());
    }

    /// Decoding never takes more than there is and reports a stream that
    /// ended early exactly where bytes are still needed.
    pub proof fn lemma_decode_bounds(s: Seq<u8>)
        ensures
            Reply::decode(s).used <= s.len(),
            Reply::needed(s) == 0 <==> Reply::decode(s).value != Err::<Reply, Error>(
                Error::IoError,
            ),
    {
        if s.len() >= 3 {
            Address::lemma_decode_bounds(s.skip(3));
        }
    }

    /// Reads sized by `needed` stop at a part's end: after one of them either
    /// more is needed or decoding takes every byte that was read.
    pub proof fn lemma_exact_reads(s: Seq<u8>, chunk: Seq<u8>)
        requires
            chunk.len() == Reply::needed(s),
            chunk.len() > 0,
        ensures
            Reply::needed(s + chunk) > 0 || Reply::decode(s + chunk).used == (s + chunk).len(),
    {
        let t = s + chunk;
        if s.len() < 3 {
            assert(t.len() == 3);
            assert(t.skip(3) =~= Seq::<u8>::empty());
        } else {
            assert(t.skip(3) =~= s.skip(3) + chunk);
            Address::lemma_exact_reads(s.skip(3), chunk);
        }
    }
}

} // verus!
