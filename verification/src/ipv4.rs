//! Dotted-quad IPv4 addresses read into their 32-bit value, and the masked
//! network-membership test built on them.
use vstd::prelude::*;
use crate::numbers::digits_val;
use crate::numbers::parse_octet;
use crate::numbers::valid_octet;
use crate::text::split_on;
use crate::text::split_seq;
use crate::text::str_chars;

verus! {

/// The 32-bit value of a dotted-quad IPv4 address, when the text is one:
/// exactly four octets separated by `.`, each of one to three digits with
/// no leading zero and value at most 255.
pub open spec fn ipv4_of(s: Seq<char>) -> Option<u32> {
    let parts = split_seq(s, '.');
    if parts.len() == 4 && valid_octet(parts[0]) && valid_octet(parts[1]) && valid_octet(parts[2])
        && valid_octet(parts[3]) {
        Some(
            (digits_val(parts[0]) * 0x1000000 + digits_val(parts[1]) * 0x10000 + digits_val(
                parts[2],
            ) * 0x100 + digits_val(parts[3])) as u32,
        )
    } else {
        None
    }
}

/// Parses a dotted-quad IPv4 address.
pub fn parse_ipv4(v: &Vec<char>) -> (r: Option<u32>)
    ensures
        r == ipv4_of(v@),
{
    let parts = split_on(v, '.');
    proof {
        assert(parts.deep_view().len() == parts@.len());
    }
    if parts.len() != 4 {
        return None;
    }
    proof {
        let sp = split_seq(v@, '.');
        assert(parts@[0]@ =~= sp[0]);
        assert(parts@[1]@ =~= sp[1]);
        assert(parts@[2]@ =~= sp[2]);
        assert(parts@[3]@ =~= sp[3]);
    }
    let a = match parse_octet(&parts[0]) {
        Some(x) => x,
        None => {
            return None;
        },
    };
    let b = match parse_octet(&parts[1]) {
        Some(x) => x,
        None => {
            return None;
        },
    };
    let c = match parse_octet(&parts[2]) {
        Some(x) => x,
        None => {
            return None;
        },
    };
    let d = match parse_octet(&parts[3]) {
        Some(x) => x,
        None => {
            return None;
        },
    };
    let val: u32 = (a as u32) * 0x1000000 + (b as u32) * 0x10000 + (c as u32) * 0x100 + (d as u32);
    Some(val)
}

/// The PAC membership test: all three texts parse as IPv4 addresses and the
/// address agrees with the network on every bit the mask keeps; any parse
/// failure makes the answer `false`.
pub open spec fn in_net_spec(ip: Seq<char>, net: Seq<char>, mask: Seq<char>) -> bool {
    match (ipv4_of(ip), ipv4_of(net), ipv4_of(mask)) {
        (Some(i), Some(n), Some(m)) => (i & m) == (n & m),
        _ => false,
    }
}

/// The `isInNet(ip, net, mask)` PAC built-in.
pub fn is_in_net(ip: &str, net: &str, mask: &str) -> (r: bool)
    ensures
        r == in_net_spec(ip@, net@, mask@),
{
    let ip_v = str_chars(ip);
    let net_v = str_chars(net);
    let mask_v = str_chars(mask);
    let ip_n = parse_ipv4(&ip_v);
    let net_n = parse_ipv4(&net_v);
    let mask_n = parse_ipv4(&mask_v);
    match (ip_n, net_n, mask_n) {
        (Some(i), Some(n), Some(m)) => (i & m) == (n & m),
        _ => false,
    }
}

} // verus!
