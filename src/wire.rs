//! Fixed-layout framing of a packet: big-endian integers, the 20-byte packet
//! header and the 4-byte flowset header.
use vstd::prelude::*;

verus! {

/// Everything that makes a packet undecodable.
#[derive(Debug, Clone, Copy, PartialEq, Eq, Structural)]
pub enum DecodeError {
    UnsupportedVersion,
    TruncatedHeader,
    TruncatedFlowsetHeader,
    InvalidFlowsetId,
    MalformedTemplate,
    MalformedOptionsTemplate,
    TruncatedDataset,
}

/// The big-endian 16-bit integer stored at `s[i]`, `s[i + 1]`.
pub open spec fn be16_at(s: Seq<u8>, i: int) -> u16 {
    (s[i] as int * 256 + s[i + 1] as int) as u16
}

/// The big-endian 32-bit integer stored at `s[i] .. s[i + 4]`.
pub open spec fn be32_at(s: Seq<u8>, i: int) -> u32 {
    (be16_at(s, i) as int * 65536 + be16_at(s, i + 2) as int) as u32
}

/// Reads the big-endian `u16` at offset `i` of `buf`.
pub fn read_u16_at(buf: &[u8], i: usize) -> (r: u16)
    requires
        i + 2 <= buf@.len(),
    ensures
        r == be16_at(buf@, i as int),
{
    let hi = buf[i] as u16;
    let lo = buf[i + 1] as u16;
    hi * 256 + lo
}

/// Reads the big-endian `u32` at offset `i` of `buf`.
pub fn read_u32_at(buf: &[u8], i: usize) -> (r: u32)
    requires
        i + 4 <= buf@.len(),
    ensures
        r == be32_at(buf@, i as int),
{
    let n = buf.len();
    let hi = read_u16_at(buf, i) as u32;
    let lo = read_u16_at(buf, i + 2) as u32;
    hi * 65536 + lo
}

/// The envelope of one export packet.
#[derive(Debug, Clone, Copy, PartialEq, Eq, Structural)]
pub struct NetflowHeader {
    pub version: u16,
    pub count: u16,
    pub sys_uptime: u32,
    pub timestamp: u32,
    pub sequence: u32,
    pub source_id: u32,
}

/// The framing of one flowset: its id and its length in bytes, this header
/// included.
#[derive(Debug, Clone, Copy, PartialEq, Eq, Structural)]
pub struct TypeLenHeader {
    pub flowset_id: u16,
    pub length: u16,
}

/// Size in bytes of the packet header.
pub const PACKET_HEADER_LEN: usize = 20;

/// Size in bytes of a flowset header.
pub const FLOWSET_HEADER_LEN: usize = 4;

/// The packet header held in the first 20 bytes of `s`.
pub open spec fn netflow_header_of(s: Seq<u8>) -> NetflowHeader {
    NetflowHeader {
        version: be16_at(s, 0),
        count: be16_at(s, 2),
        sys_uptime: be32_at(s, 4),
        timestamp: be32_at(s, 8),
        sequence: be32_at(s, 12),
        source_id: be32_at(s, 16),
    }
}

/// The flowset header held in the first 4 bytes of `s`.
pub open spec fn tl_header_of(s: Seq<u8>) -> TypeLenHeader {
    TypeLenHeader { flowset_id: be16_at(s, 0), length: be16_at(s, 2) }
}

/// Reads the packet header at the start of `buf` and returns the bytes after it.
pub fn parse_netflow_header(buf: &[u8]) -> (r: Result<(&[u8], NetflowHeader), DecodeError>)
    ensures
        buf@.len() < 20 ==> r == Err::<(&[u8], NetflowHeader), DecodeError>(
            DecodeError::TruncatedHeader,
        ),
        buf@.len() >= 20 ==> (r matches Ok((rest, h)) && rest@ == buf@.subrange(20, buf@.len() as int)
            && h == netflow_header_of(buf@)),
{
    let n = buf.len();
    if n < PACKET_HEADER_LEN {
        return Err(DecodeError::TruncatedHeader);
    }
    let h = NetflowHeader {
        version: read_u16_at(buf, 0),
        count: read_u16_at(buf, 2),
        sys_uptime: read_u32_at(buf, 4),
        timestamp: read_u32_at(buf, 8),
        sequence: read_u32_at(buf, 12),
        source_id: read_u32_at(buf, 16),
    };
    Ok((&buf[PACKET_HEADER_LEN..n], h))
}

/// Reads the flowset header at the start of `buf` and returns the bytes after it.
pub fn parse_tl_header(buf: &[u8]) -> (r: Result<(&[u8], TypeLenHeader), DecodeError>)
    ensures
        buf@.len() < 4 ==> r == Err::<(&[u8], TypeLenHeader), DecodeError>(
            DecodeError::TruncatedFlowsetHeader,
        ),
        buf@.len() >= 4 ==> (r matches Ok((rest, h)) && rest@ == buf@.subrange(4, buf@.len() as int)
            && h == tl_header_of(buf@)),
{
    let n = buf.len();
    if n < FLOWSET_HEADER_LEN {
        return Err(DecodeError::TruncatedFlowsetHeader);
    }
    let h = TypeLenHeader { flowset_id: read_u16_at(buf, 0), length: read_u16_at(buf, 2) };
    Ok((&buf[FLOWSET_HEADER_LEN..n], h))
}

} // verus!
