//! Protocol numbers of SOCKS5 (RFC 1928) and its username/password
//! subnegotiation (RFC 1929).
use vstd::prelude::*;

verus! {

/// The SOCKS protocol version spoken here.
pub const SOCKS_VERSION: u8 = 0x05;

/// The version byte of the username/password subnegotiation.
pub const AUTH_VERSION: u8 = 0x01;

/// Method: no authentication required.
pub const METHOD_NO_AUTH: u8 = 0x00;

/// Method: GSSAPI (not offered by this server).
pub const METHOD_GSSAPI: u8 = 0x01;

/// Method: username/password.
pub const METHOD_USER_PASS: u8 = 0x02;

/// Method reply meaning that none of the offered methods is acceptable.
pub const METHOD_NO_ACCEPTABLE: u8 = 0xFF;

/// Command: CONNECT.
pub const CMD_CONNECT: u8 = 0x01;

/// Command: BIND (rejected).
pub const CMD_BIND: u8 = 0x02;

/// Command: UDP ASSOCIATE (rejected).
pub const CMD_UDP_ASSOCIATE: u8 = 0x03;

/// Address type: IPv4, four bytes.
pub const ATYP_IPV4: u8 = 0x01;

/// Address type: domain name, one length byte and that many bytes.
pub const ATYP_DOMAIN: u8 = 0x03;

/// Address type: IPv6 (rejected).
pub const ATYP_IPV6: u8 = 0x04;

/// Reply: succeeded.
pub const REPLY_SUCCEEDED: u8 = 0x00;

/// Reply: general SOCKS server failure.
pub const REPLY_GENERAL_FAILURE: u8 = 0x01;

/// Reply: connection not allowed by ruleset.
pub const REPLY_NOT_ALLOWED: u8 = 0x02;

/// Reply: network unreachable.
pub const REPLY_NETWORK_UNREACHABLE: u8 = 0x03;

/// Reply: host unreachable.
pub const REPLY_HOST_UNREACHABLE: u8 = 0x04;

/// Reply: connection refused.
pub const REPLY_CONNECTION_REFUSED: u8 = 0x05;

/// Reply: TTL expired.
pub const REPLY_TTL_EXPIRED: u8 = 0x06;

/// Reply: command not supported.
pub const REPLY_COMMAND_NOT_SUPPORTED: u8 = 0x07;

/// Reply: address type not supported.
pub const REPLY_ADDRESS_TYPE_NOT_SUPPORTED: u8 = 0x08;

/// Subnegotiation status: credentials accepted.
pub const AUTH_SUCCESS: u8 = 0x00;

/// Subnegotiation status: credentials refused.
pub const AUTH_FAILURE: u8 = 0x01;

/// The reserved byte of requests and replies.
pub const RESERVED: u8 = 0x00;

/// The port a server listens on when none is given.
pub const DEFAULT_PORT: u16 = 1080;

/// The largest number of bytes in a domain name on the wire.
pub const MAX_DOMAIN_LEN: usize = 255;

} // verus!
