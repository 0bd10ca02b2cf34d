//! Screening of a datagram's attribute framing before the decoder sees it.
//!
//! The decoder walks the attributes that follow the 20-byte header. On an
//! address attribute it indexes into the value before it has looked at the
//! value's length, and in debug builds it asserts that an IPv4 XOR-mapped
//! address holds exactly four address bytes. Both abort the process, so a
//! datagram that would lead the decoder there is turned away here.

use vstd::prelude::*;

verus! {

/// Length of the fixed header that starts every message.
pub const HEADER_SIZE: usize = 20;

/// Length of the type and length fields that start every attribute.
pub const ATTRIBUTE_HEADER_SIZE: usize = 4;

/// Attribute type MAPPED-ADDRESS.
pub const MAPPED_ADDRESS: u16 = 0x0001;

/// Attribute type XOR-MAPPED-ADDRESS.
pub const XOR_MAPPED_ADDRESS: u16 = 0x0020;

/// Attribute type ALTERNATE-SERVER.
pub const ALTERNATE_SERVER: u16 = 0x8023;

/// Address family IPv4 in an address attribute.
pub const FAMILY_IPV4: u8 = 0x01;

/// The big-endian 16-bit number at `at`.
pub open spec fn be16(bytes: Seq<u8>, at: int) -> int {
    bytes[at] as int * 256 + bytes[at + 1] as int
}

/// The number of padding bytes after a value of `len` bytes: values are
/// aligned to four bytes.
pub open spec fn padding(len: int) -> int {
    if len % 4 == 0 {
        0
    } else {
        4 - len % 4
    }
}

/// Whether attributes of this type hold an address.
pub open spec fn holds_address(kind: int) -> bool {
    kind == MAPPED_ADDRESS || kind == XOR_MAPPED_ADDRESS || kind == ALTERNATE_SERVER
}

/// Whether the attribute at `at`, which lies inside `bytes` with its whole
/// value, is one that the decoder must not be given: an address attribute
/// too short to hold a family, or an XOR-mapped IPv4 address with more than
/// four address bytes.
pub open spec fn trips_decoder(bytes: Seq<u8>, at: int) -> bool {
    let kind = be16(bytes, at);
    let len = be16(bytes, at + 2);
    ||| holds_address(kind) && len < 2
    ||| kind == XOR_MAPPED_ADDRESS && len > 8 && bytes[at + 5] == FAMILY_IPV4
}

/// Whether the walk over the attributes from `at` up to `end` meets no
/// attribute that trips the decoder. The walk ends where the decoder's ends:
/// at `end`, or at the first attribute that does not fit into `bytes`.
pub open spec fn attributes_safe(bytes: Seq<u8>, at: int, end: int) -> bool
    decreases bytes.len() + 3 - at,
{
    if at >= end || at + ATTRIBUTE_HEADER_SIZE > bytes.len() {
        true
    } else {
        let len = be16(bytes, at + 2);
        let next = at + ATTRIBUTE_HEADER_SIZE + len;
        if next > bytes.len() {
            true
        } else if trips_decoder(bytes, at) {
            false
        } else {
            attributes_safe(bytes, next + padding(len), end)
        }
    }
}

/// Whether a datagram can be handed to the decoder: it is too short to hold
/// a header, or the walk over as many attribute bytes as its header
/// announces is safe.
pub open spec fn safe_to_decode(bytes: Seq<u8>) -> bool {
    bytes.len() < HEADER_SIZE || attributes_safe(
        bytes,
        HEADER_SIZE as int,
        HEADER_SIZE + be16(bytes, 2),
    )
}

/// Reads the big-endian 16-bit number at `at`.
pub fn read_be16(bytes: &[u8], at: usize) -> (value: u16)
    requires
        at + 2 <= bytes@.len(),
    ensures
        value == be16(bytes@, at as int),
{
    let high: u16 = bytes[at] as u16;
    let low: u16 = bytes[at + 1] as u16;
    high * 256 + low
}

/// Decides whether a datagram can be handed to the decoder.
pub fn is_safe_to_decode(bytes: &[u8]) -> (safe: bool)
    ensures
        safe == safe_to_decode(bytes@),
{
    let total: usize = bytes.len();
    if total < HEADER_SIZE {
        return true;
    }
    let announced: usize = read_be16(bytes, 2) as usize;
    let end: usize = HEADER_SIZE + announced;
    let mut at: usize = HEADER_SIZE;
    while at < end
        invariant
            total == bytes@.len(),
            HEADER_SIZE <= at <= total,
            end <= HEADER_SIZE + 0xffff,
            safe_to_decode(bytes@) == attributes_safe(bytes@, at as int, end as int),
        decreases total - at,
    {
        if total - at < ATTRIBUTE_HEADER_SIZE {
            return true;
        }
        let kind: u16 = read_be16(bytes, at);
        let len: usize = read_be16(bytes, at + 2) as usize;
        let value: usize = at + ATTRIBUTE_HEADER_SIZE;
        if total - value < len {
            return true;
        }
        let addressed: bool = kind == MAPPED_ADDRESS || kind == XOR_MAPPED_ADDRESS || kind
            == ALTERNATE_SERVER;
        if addressed && len < 2 {
            return false;
        }
        if kind == XOR_MAPPED_ADDRESS && len > 8 && bytes[value + 1] == FAMILY_IPV4 {
            return false;
        }
        let pad: usize = if len % 4 == 0 {
            0
        } else {
            4 - len % 4
        };
        if total - value - len < pad {
            // The next attribute would start past the end of the datagram.
            assert(attributes_safe(bytes@, value + len + pad, end as int));
            return true;
        }
        at = value + len + pad;
    }
    true
}

} // verus!
