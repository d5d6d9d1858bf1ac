//! What can go wrong while a message is read, decoded or acted on.
use std::string::FromUtf8Error;
use vstd::prelude::*;
use crate::socket5::constant::{REP_ADDRESS_NO, REP_CMD_NO, REP_HOST_NO, REP_NO, REP_SERVER_FAIL};
use crate::socket5::reply::Reply;

verus! {

/// Reason for which a session step failed.
#[derive(Debug, Clone, Copy, PartialEq, Eq, Structural)]
pub enum Error {
    /// The underlying stream failed; a read that ends before the message does counts.
    IoError,
    /// The address type byte is none of IPv4, domain name, IPv6.
    AddressTypeNo(u8),
    /// The domain name is not UTF-8, or the address is otherwise inconsistent.
    AddressDomainNo,
    /// The version byte is not the expected one.
    VersionNo(u8),
    /// The command byte is none of CONNECT, BIND, UDP ASSOCIATE.
    CommandNo(u8),
}

impl Error {
    /// The status reported to the client for an error.
    pub open spec fn reply(self) -> Reply {
        match self {
            Error::IoError => Reply::RepServerFail,
            Error::AddressTypeNo(_) => Reply::RepAddressNo,
            Error::AddressDomainNo => Reply::RepHostNo,
            Error::VersionNo(_) => Reply::RepNo,
            Error::CommandNo(_) => Reply::RepCmdNo,
        }
    }

    /// Maps the error to the status that the client is told.
    pub fn to_reply(&self) -> (r: Reply)
        ensures
            r == self.reply(),
    {
        Reply::from_u8(
            match self {
                Error::IoError => REP_SERVER_FAIL,
                Error::AddressTypeNo(_) => REP_ADDRESS_NO,
                Error::AddressDomainNo => REP_HOST_NO,
                Error::VersionNo(_) => REP_NO,
                Error::CommandNo(_) => REP_CMD_NO,
            },
        )
    }
}

/// `std::io::Error`, taken as an opaque value.
#[verifier::external_type_specification]
#[verifier::external_body]
pub struct ExIoError(std::io::Error);

/// Whatever a stream reports, the session sees a failed stream.
impl From<std::io::Error> for Error {
    fn from(err: std::io::Error) -> (r: Self) {
        Error::IoError
    }
}

impl vstd::std_specs::convert::FromSpecImpl<std::io::Error> for Error {
    open spec fn obeys_from_spec() -> bool {
        true
    }

    open spec fn from_spec(err: std::io::Error) -> Error {
        Error::IoError
    }
}

/// Bytes that are not UTF-8 cannot be a domain name.
impl From<FromUtf8Error> for Error {
    fn from(err: FromUtf8Error) -> (r: Self) {
        Error::AddressDomainNo
    }
}

impl vstd::std_specs::convert::FromSpecImpl<FromUtf8Error> for Error {
    open spec fn obeys_from_spec() -> bool {
        true
    }

    open spec fn from_spec(err: FromUtf8Error) -> Error {
        Error::AddressDomainNo
    }
}

} // verus!
