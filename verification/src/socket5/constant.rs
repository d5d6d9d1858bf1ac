//! Protocol constants of RFC 1928.
use vstd::prelude::*;

verus! {

/// Protocol version carried in the first byte of every message.
pub const SOCKET5_VERSION: u8 = 0x05;

/// The "no authentication required" method.
pub const METHOD_NO_AUTHENTICATION: u8 = 0x00;

/// Value of the reserved byte.
pub const RSV: u8 = 0x00;

pub const CMD_CONNECT: u8 = 0x01;

pub const CMD_BIND: u8 = 0x02;

pub const CMD_UDP: u8 = 0x03;

pub const ATYP_IPV4: u8 = 0x01;

pub const ATYP_DOMAINNAME: u8 = 0x03;

pub const ATYP_IPV6: u8 = 0x04;

pub const REP_SUCESS: u8 = 0x00;

pub const REP_SERVER_FAIL: u8 = 0x01;

pub const REP_CONN_NO: u8 = 0x02;

pub const REP_NETWORK_NO: u8 = 0x03;

pub const REP_HOST_NO: u8 = 0x04;

pub const REP_CONN_REFUSED: u8 = 0x05;

pub const REP_TTL_EXP: u8 = 0x06;

pub const REP_CMD_NO: u8 = 0x07;

pub const REP_ADDRESS_NO: u8 = 0x08;

pub const REP_NO: u8 = 0x09;

} // verus!
