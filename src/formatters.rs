//! Display values for raw field bytes: unsigned integers and TCP flag names.
use vstd::prelude::*;
use byteorder::{BigEndian, ByteOrder};

verus! {

/// A field value ready for display.
#[derive(Debug)]
pub enum FmtReturn {
    Number(u64),
    Text(String),
}

/// The unsigned integer that the bytes `s` spell in big-endian order.
pub open spec fn be_value(s: Seq<u8>) -> nat
    decreases s.len(),
{
    if s.len() == 0 {
        0
    } else {
        be_value(s.drop_last()) * 256 + s.last() as nat
    }
}

/// The number shown for a field of bytes `b`: its big-endian value when it
/// is 1, 2, 4 or 8 bytes wide, else 0.
pub open spec fn int_value(b: Seq<u8>) -> u64 {
    if b.len() == 1 || b.len() == 2 || b.len() == 4 || b.len() == 8 {
        be_value(b) as u64
    } else {
        0
    }
}

/// Relies on byteorder's `BigEndian::read_u16`: the first two bytes, most
/// significant first.
#[verifier::external_body]
fn read_be_u16(b: &[u8]) -> (r: u16)
    requires
        b@.len() >= 2,
    ensures
        r as nat == be_value(b@.subrange(0, 2)),
{
    BigEndian::read_u16(b)
}

/// Relies on byteorder's `BigEndian::read_u32`: the first four bytes, most
/// significant first.
#[verifier::external_body]
fn read_be_u32(b: &[u8]) -> (r: u32)
    requires
        b@.len() >= 4,
    ensures
        r as nat == be_value(b@.subrange(0, 4)),
{
    BigEndian::read_u32(b)
}

/// Relies on byteorder's `BigEndian::read_u64`: the first eight bytes, most
/// significant first.
#[verifier::external_body]
fn read_be_u64(b: &[u8]) -> (r: u64)
    requires
        b@.len() >= 8,
    ensures
        r as nat == be_value(b@.subrange(0, 8)),
{
    BigEndian::read_u64(b)
}

/// Shows a field as an unsigned integer: its big-endian value when it is 1,
/// 2, 4 or 8 bytes wide, else 0.
pub fn fmt_int(b: &[u8]) -> (r: FmtReturn)
    ensures
        r matches FmtReturn::Number(n) && n == int_value(b@),
{
    let n = b.len();
    let val: u64 = if n == 1 {
        proof {
            reveal_with_fuel(be_value, 2);
        }
        b[0] as u64
    } else if n == 2 {
        assert(b@.subrange(0, 2) =~= b@);
        read_be_u16(b) as u64
    } else if n == 4 {
        assert(b@.subrange(0, 4) =~= b@);
        read_be_u32(b) as u64
    } else if n == 8 {
        assert(b@.subrange(0, 8) =~= b@);
        read_be_u64(b)
    } else {
        0
    };
    FmtReturn::Number(val)
}

/// Mask of the `i`-th entry of the TCP flag table.
pub open spec fn tcp_flag_bit(i: int) -> u8 {
    if i == 0 {
        0x01
    } else if i == 1 {
        0x02
    } else if i == 2 {
        0x04
    } else if i == 3 {
        0x08
    } else if i == 4 {
        0x10
    } else if i == 5 {
        0x20
    } else if i == 6 {
        0x40
    } else {
        0x08
    }
}

/// Name of the `i`-th entry of the TCP flag table.
pub open spec fn tcp_flag_name(i: int) -> Seq<char> {
    if i == 0 {
        "FIN"@
    } else if i == 1 {
        "SYN"@
    } else if i == 2 {
        "RST"@
    } else if i == 3 {
        "PSH"@
    } else if i == 4 {
        "ACK"@
    } else if i == 5 {
        "URG"@
    } else if i == 6 {
        "ECE"@
    } else {
        "CWR"@
    }
}

/// Number of entries in the TCP flag table.
pub const TCP_FLAG_COUNT: usize = 8;

/// The names, in table order, of the first `n` table entries whose mask is
/// set in `flags`.
pub open spec fn set_flag_names(flags: u8, n: nat) -> Seq<Seq<char>>
    decreases n,
{
    if n == 0 {
        Seq::empty()
    } else {
        let prev = set_flag_names(flags, (n - 1) as nat);
        if flags & tcp_flag_bit(n - 1) == tcp_flag_bit(n - 1) {
            prev.push(tcp_flag_name(n - 1))
        } else {
            prev
        }
    }
}

/// `names` joined with `-` between each two.
pub open spec fn join_hyphen(names: Seq<Seq<char>>) -> Seq<char>
    decreases names.len(),
{
    if names.len() == 0 {
        Seq::empty()
    } else if names.len() == 1 {
        names[0]
    } else {
        join_hyphen(names.drop_last()) + "-"@ + names.last()
    }
}

/// The text shown for the flag byte `flags`: the names of its flags joined
/// with `-`, or `None` when no flag is set.
pub open spec fn tcp_flags_text(flags: u8) -> Seq<char> {
    let names = set_flag_names(flags, TCP_FLAG_COUNT as nat);
    if names.len() == 0 {
        "None"@
    } else {
        join_hyphen(names)
    }
}

/// The flag byte of a field: its first byte, or no flag at all when it is
/// empty.
pub open spec fn flags_byte(b: Seq<u8>) -> u8 {
    if b.len() > 0 {
        b[0]
    } else {
        0
    }
}

/// The `i`-th entry of the TCP flag table.
fn tcp_flag(i: usize) -> (r: (u8, &'static str))
    requires
        i < TCP_FLAG_COUNT,
    ensures
        r.0 == tcp_flag_bit(i as int),
        r.1@ == tcp_flag_name(i as int),
{
    match i {
        0 => (0x01, "FIN"),
        1 => (0x02, "SYN"),
        2 => (0x04, "RST"),
        3 => (0x08, "PSH"),
        4 => (0x10, "ACK"),
        5 => (0x20, "URG"),
        6 => (0x40, "ECE"),
        _ => (0x08, "CWR"),
    }
}

/// Shows a TCP flags field as the names of its set flags.
pub fn fmt_tcp_flags(b: &[u8]) -> (r: FmtReturn)
    ensures
        r matches FmtReturn::Text(t) && t@ == tcp_flags_text(flags_byte(b@)),
{
    let flags: u8 = if b.len() > 0 { b[0] } else { 0 };
    let mut res = String::new();
    let mut found: usize = 0;
    let mut i: usize = 0;
    while i < TCP_FLAG_COUNT
        invariant
            i <= TCP_FLAG_COUNT,
            flags == flags_byte(b@),
            found <= i,
            found == set_flag_names(flags, i as nat).len(),
            res@ == join_hyphen(set_flag_names(flags, i as nat)),
        decreases TCP_FLAG_COUNT - i,
    {
        let (bit, name) = tcp_flag(i);
        if flags & bit == bit {
            let ghost names = set_flag_names(flags, (i + 1) as nat);
            assert(names.drop_last() =~= set_flag_names(flags, i as nat));
            if found > 0 {
                res.append("-");
            }
            res.append(name);
            found = found + 1;
            proof {
                if found == 1 {
                    assert(res@ =~= names[0]);
                }
            }
        }
        i = i + 1;
    }
    if found == 0 {
        res = String::from_str("None");
    }
    FmtReturn::Text(res)
}

} // verus!
