//! The destination of a request: an IP socket address or a domain name with a port.
use vstd::prelude::*;
use vstd::utf8::{decode_utf8, encode_utf8, valid_utf8};
use crate::socket5::buffer::{
    be16, from_be16, put_slice, put_u16, put_u8, with_capacity, write_all,
};
use crate::socket5::constant::{ATYP_DOMAINNAME, ATYP_IPV4, ATYP_IPV6};
use crate::socket5::error::Error;
use crate::socket5::stream::{cut_short, viewed, ByteStream, Decoded};

verus! {

/// An IP address with a port.
#[derive(Debug, Clone, Copy, PartialEq, Eq)]
pub enum SocketAddress {
    /// The four octets of an IPv4 address, and the port.
    V4([u8; 4], u16),
    /// The sixteen octets of an IPv6 address, and the port.
    V6([u8; 16], u16),
}

/// Where a request wants to go.
#[derive(Debug, PartialEq, Eq)]
pub enum Address {
    Address(SocketAddress),
    /// A name to be resolved, and the port. The name takes at most 255 bytes as UTF-8.
    DomainName(String, u16),
}

/// The model of an [`Address`].
pub enum AddressView {
    V4(Seq<u8>, u16),
    V6(Seq<u8>, u16),
    DomainName(Seq<char>, u16),
}

impl AddressView {
    /// The octet counts are right and the name fits its one-byte length prefix.
    pub open spec fn wf(self) -> bool {
        match self {
            AddressView::V4(ip, _) => ip.len() == 4,
            AddressView::V6(ip, _) => ip.len() == 16,
            AddressView::DomainName(name, _) => encode_utf8(name).len() <= 255,
        }
    }

    /// The IPv4 address `0.0.0.0` with port 0.
    pub open spec fn unspecified() -> AddressView {
        AddressView::V4(seq![0u8, 0u8, 0u8, 0u8], 0)
    }

    /// The bytes of the address on the wire: type, address, port.
    pub open spec fn wire(self) -> Seq<u8> {
        match self {
            AddressView::V4(ip, port) => seq![ATYP_IPV4] + ip + be16(port),
            AddressView::V6(ip, port) => seq![ATYP_IPV6] + ip + be16(port),
            AddressView::DomainName(name, port) => seq![
                ATYP_DOMAINNAME,
                encode_utf8(name).len() as u8,
            ] + encode_utf8(name) + be16(port),
        }
    }
}

impl View for Address {
    type V = AddressView;

    open spec fn view(&self) -> AddressView {
        match *self {
            Address::Address(SocketAddress::V4(ip, port)) => AddressView::V4(ip@, port),
            Address::Address(SocketAddress::V6(ip, port)) => AddressView::V6(ip@, port),
            Address::DomainName(name, port) => AddressView::DomainName(name@, port),
        }
    }
}

impl Clone for Address {
    fn clone(&self) -> (r: Self)
        ensures
            r == *self,
    {
        match self {
            Address::Address(addr) => Address::Address(*addr),
            Address::DomainName(name, port) => Address::DomainName(name.clone(), *port),
        }
    }
}

impl Address {
    /// What decoding an address from the front of `s` gives.
    pub open spec fn decode(s: Seq<u8>) -> Decoded<AddressView> {
        if s.len() < 1 {
            cut_short(s)
        } else if s[0] == ATYP_IPV4 {
            if s.len() < 7 {
                cut_short(s)
            } else {
                Decoded {
                    value: Ok(AddressView::V4(s.subrange(1, 5), from_be16(s[5], s[6]))),
                    used: 7,
                }
            }
        } else if s[0] == ATYP_IPV6 {
            if s.len() < 19 {
                cut_short(s)
            } else {
                Decoded {
                    value: Ok(AddressView::V6(s.subrange(1, 17), from_be16(s[17], s[18]))),
                    used: 19,
                }
            }
        } else if s[0] == ATYP_DOMAINNAME {
            if s.len() < 2 {
                cut_short(s)
            } else if s.len() < 4 + s[1] {
                cut_short(s)
            } else {
                let n = s[1] as int;
                let name = s.subrange(2, 2 + n);
                Decoded {
                    value: if valid_utf8(name) {
                        Ok(AddressView::DomainName(decode_utf8(name), from_be16(s[2 + n], s[3 + n])))
                    } else {
                        Err(Error::AddressDomainNo)
                    },
                    used: (4 + n) as nat,
                }
            }
        } else {
            Decoded { value: Err(Error::AddressTypeNo(s[0])), used: 1 }
        }
    }

    /// How many bytes the next read has to fetch when `s` is what has been
    /// read of an address so far: up to the end of the part that `s` stops in,
    /// and nothing once the address is complete or its type is unknown.
    pub open spec fn needed(s: Seq<u8>) -> nat {
        if s.len() < 1 {
            1
        } else if s[0] == ATYP_IPV4 {
            if s.len() < 7 {
                (7 - s.len()) as nat
            } else {
                0
            }
        } else if s[0] == ATYP_IPV6 {
            if s.len() < 19 {
                (19 - s.len()) as nat
            } else {
                0
            }
        } else if s[0] == ATYP_DOMAINNAME {
            if s.len() < 2 {
                1
            } else if s.len() < 4 + s[1] {
                (4 + s[1] - s.len()) as nat
            } else {
                0
            }
        } else {
            0
        }
    }

    /// Tells a reader that has `buf` so far how many more bytes to read
    /// before the address can be decoded; 0 when it can.
    pub fn pending(buf: &[u8]) -> (n: usize)
        ensures
            n == Address::needed(buf@),
    {
        let len: usize = buf.len();
        if len < 1 {
            1
        } else if buf[0] == ATYP_IPV4 {
            if len < 7 {
                7 - len
            } else {
                0
            }
        } else if buf[0] == ATYP_IPV6 {
            if len < 19 {
                19 - len
            } else {
                0
            }
        } else if buf[0] == ATYP_DOMAINNAME {
            if len < 2 {
                1
            } else {
                let total: usize = 4 + buf[1] as usize;
                if len < total {
                    total - len
                } else {
                    0
                }
            }
        } else {
            0
        }
    }

    /// Reads an address: the type byte, then as many bytes as the type calls
    /// for, the port in the same read as the address. An unknown type fails
    /// with nothing read after the type byte; a name that is not UTF-8 fails
    /// with the name and the port read.
    pub fn from(read: &mut ByteStream) -> (res: Result<Self, Error>)
        ensures
            viewed(res) == Address::decode(old(read).remaining()).value,
            final(read).remaining() == old(read).remaining().skip(
                Address::decode(old(read).remaining()).used as int,
            ),
            res matches Ok(a) ==> a@.wf(),
    {
        let ghost s = read.remaining();
        let atyp = read.read_exact(1)?;
        let t: u8 = atyp[0];
        if t == ATYP_IPV4 {
            let b = read.read_exact(6)?;
            let ip: [u8; 4] = [b[0], b[1], b[2], b[3]];
            let port: u16 = (b[4] as u16) * 256 + (b[5] as u16);
            assert(ip@ =~= s.subrange(1, 5));
            Ok(Address::Address(SocketAddress::V4(ip, port)))
        } else if t == ATYP_IPV6 {
            let b = read.read_exact(18)?;
            let ip: [u8; 16] = [
                b[0],
                b[1],
                b[2],
                b[3],
                b[4],
                b[5],
                b[6],
                b[7],
                b[8],
                b[9],
                b[10],
                b[11],
                b[12],
                b[13],
                b[14],
                b[15],
            ];
            let port: u16 = (b[16] as u16) * 256 + (b[17] as u16);
            assert(ip@ =~= s.subrange(1, 17));
            Ok(Address::Address(SocketAddress::V6(ip, port)))
        } else if t == ATYP_DOMAINNAME {
            let l = read.read_exact(1)?;
            let n: usize = l[0] as usize;
            let mut domain = read.read_exact(n + 2)?;
            let port: u16 = (domain[n] as u16) * 256 + (domain[n + 1] as u16);
            domain.truncate(n);
            assert(domain@ =~= s.subrange(2, 2 + n));
            match String::from_utf8(domain) {
                Ok(name) => {
                    proof {
                        vstd::utf8::encode_utf8_decode_utf8(name@);
                    }
                    Ok(Address::DomainName(name, port))
                },
                Err(_) => Err(Error::AddressDomainNo),
            }
        } else {
            Err(Error::AddressTypeNo(t))
        }
    }

    /// Appends the address as it goes on the wire.
    pub fn write(&self, write: &mut Vec<u8>)
        requires
            self@.wf(),
        ensures
            final(write)@ == old(write)@ + self@.wire(),
    {
        match self {
            Address::Address(addr) => {
                match addr {
                    SocketAddress::V4(ip, port) => {
                        let mut buf = with_capacity(7);
                        put_u8(&mut buf, ATYP_IPV4);
                        put_slice(&mut buf, ip.as_slice());
                        put_u16(&mut buf, *port);
                        write_all(write, &buf);
                    },
                    SocketAddress::V6(ip, port) => {
                        let mut buf = with_capacity(19);
                        put_u8(&mut buf, ATYP_IPV6);
                        put_slice(&mut buf, ip.as_slice());
                        put_u16(&mut buf, *port);
                        write_all(write, &buf);
                    },
                }
            },
            Address::DomainName(addr, port) => {
                let name = addr.as_str();
                let mut buf = with_capacity(4 + name.len());
                put_u8(&mut buf, ATYP_DOMAINNAME);
                put_u8(&mut buf, name.len() as u8);
                put_slice(&mut buf, name.as_bytes());
                put_u16(&mut buf, *port);
                write_all(write, &buf);
            },
        }
    }

    /// Whether the address can go on the wire: a domain name must fit the
    /// one-byte length that precedes it.
    pub fn is_wf(&self) -> (b: bool)
        ensures
            b == self@.wf(),
    {
        match self {
            Address::Address(SocketAddress::V4(ip, _)) => {
                assert(ip@.len() == 4);
                true
            },
            Address::Address(SocketAddress::V6(ip, _)) => {
                assert(ip@.len() == 16);
                true
            },
            Address::DomainName(name, _) => name.as_str().as_bytes().len() <= 255,
        }
    }

    /// The address `0.0.0.0:0`, which a reply carries when there is nothing to echo.
    pub fn unspecified() -> (a: Self)
        ensures
            a@ == AddressView::unspecified(),
    {
        let ip: [u8; 4] = [0, 0, 0, 0];
        assert(ip@ =~= seq![0u8, 0u8, 0u8, 0u8]);
        Address::Address(SocketAddress::V4(ip, 0))
    }
}

/// Two bytes in network order decode to the number that they encode.
pub proof fn lemma_be16_round_trip(n: u16)
    ensures
        be16(n).len() == 2,
        from_be16(be16(n)[0], be16(n)[1]) == n,
{
}

impl Address {
    /// Encoding a well-formed address and decoding what follows gives the
    /// address back and takes exactly its bytes, whatever comes after them.
    pub proof fn lemma_round_trip(a: AddressView, rest: Seq<u8>)
        requires
            a.wf(),
        ensures
            Address::decode(a.wire() + rest) == (Decoded {
                value: Ok::<AddressView, Error>(a),
                used: a.wire().len(),
            }),
    {
        let s = a.wire() + rest;
        match a {
            AddressView::V4(ip, port) => {
                lemma_be16_round_trip(port);
                assert(s.subrange(1, 5) =~= ip);
            },
            AddressView::V6(ip, port) => {
                lemma_be16_round_trip(port);
                assert(s.subrange(1, 17) =~= ip);
            },
            AddressView::DomainName(name, port) => {
                let bytes = encode_utf8(name);
                lemma_be16_round_trip(port);
                vstd::utf8::encode_utf8_valid_utf8(name);
                vstd::utf8::encode_utf8_decode_utf8(name);
                assert(s[1] == bytes.len());
                assert(s.subrange(2, 2 + bytes.len() as int) =~= bytes);
            },
        }
    }

    /// Decoding never takes more than there is, reports a stream that ended
    /// early exactly where bytes are still needed, and a type byte that is
    /// none of the three fails with that byte and nothing read after it.
    pub proof fn lemma_decode_bounds(s: Seq<u8>)
        ensures
            Address::decode(s).used <= s.len(),
            Address::needed(s) == 0 <==> Address::decode(s).value != Err::<AddressView, Error>(
                Error::IoError,
            ),
            s.len() >= 1 && s[0] != ATYP_IPV4 && s[0] != ATYP_IPV6 && s[0] != ATYP_DOMAINNAME
                ==> Address::decode(s) == (Decoded {
                value: Err::<AddressView, Error>(Error::AddressTypeNo(s[0])),
                used: 1,
            }),
    {
    }

    /// Reads sized by `needed` stop at a part's end: after one of them either
    /// more is needed or decoding takes every byte that was read.
    pub proof fn lemma_exact_reads(s: Seq<u8>, chunk: Seq<u8>)
        requires
            chunk.len() == Address::needed(s),
            chunk.len() > 0,
        ensures
            Address::needed(s + chunk) > 0 || Address::decode(s + chunk).used == (s + chunk).len(),
    {
        if s.len() >= 1 {
            assert((s + chunk)[0] == s[0]);
        }
        if s.len() >= 2 {
            assert((s + chunk)[1] == s[1]);
        }
    }
}

} // verus!
