//! Connectable destinations: a host written as text and a port.

use vstd::prelude::*;
use crate::codec::{AddressSpec, Destination, ATYP_IPV4, ATYP_IPV6};

verus! {

/// A host name or address literal, as UTF-8 text, and a port.
#[derive(Debug)]
pub struct Target {
    pub host: Vec<u8>,
    pub port: u16,
}

impl View for Target {
    type V = (Seq<u8>, u16);

    open spec fn view(&self) -> (Seq<u8>, u16) {
        (self.host@, self.port)
    }
}

/// Decimal digits of `v`, without leading zeros.
pub open spec fn dec_digits(v: nat) -> Seq<u8>
    decreases v,
{
    if v < 10 {
        seq![(48 + v) as u8]
    } else {
        dec_digits(v / 10).push((48 + v % 10) as u8)
    }
}

/// Lower-case hexadecimal digit of `v < 16`.
pub open spec fn hex_digit(v: nat) -> u8 {
    if v < 10 {
        (48 + v) as u8
    } else {
        (87 + v) as u8
    }
}

/// Lower-case hexadecimal digits of `v`, without leading zeros.
pub open spec fn hex_digits(v: nat) -> Seq<u8>
    decreases v,
{
    if v < 16 {
        seq![hex_digit(v)]
    } else {
        hex_digits(v / 16).push(hex_digit(v % 16))
    }
}

/// Dotted-decimal form of four address bytes.
pub open spec fn ipv4_text(a: Seq<u8>) -> Seq<u8> {
    dec_digits(a[0] as nat) + seq![46u8] + dec_digits(a[1] as nat) + seq![46u8] + dec_digits(
        a[2] as nat,
    ) + seq![46u8] + dec_digits(a[3] as nat)
}

/// The `i`-th 16-bit group of an IPv6 address.
pub open spec fn ipv6_group(a: Seq<u8>, i: int) -> nat {
    (a[2 * i] as nat) * 256 + a[2 * i + 1] as nat
}

/// The first `k` groups of an IPv6 address in hexadecimal, joined by colons.
pub open spec fn ipv6_groups_text(a: Seq<u8>, k: nat) -> Seq<u8>
    decreases k,
{
    if k == 0 {
        Seq::empty()
    } else if k == 1 {
        hex_digits(ipv6_group(a, 0))
    } else {
        ipv6_groups_text(a, (k - 1) as nat) + seq![58u8] + hex_digits(ipv6_group(a, k - 1))
    }
}

/// The text that names an address of type `kind` with bytes `a`: dotted
/// decimal for IPv4, the name itself for a domain, eight uncompressed
/// hexadecimal groups for IPv6.
pub open spec fn host_text(kind: u8, a: Seq<u8>) -> Seq<u8> {
    if kind == ATYP_IPV4 {
        ipv4_text(a)
    } else if kind == ATYP_IPV6 {
        ipv6_groups_text(a, 8)
    } else {
        a
    }
}

fn push_decimal(out: &mut Vec<u8>, v: u8)
    ensures
        final(out)@ == old(out)@ + dec_digits(v as nat),
{
    proof {
        reveal_with_fuel(dec_digits, 3);
    }
    if v >= 100 {
        out.push(48 + v / 100);
        out.push(48 + (v / 10) % 10);
        out.push(48 + v % 10);
        assert(dec_digits(v as nat / 10) == dec_digits(v as nat / 100).push(
            (48 + (v as nat / 10) % 10) as u8,
        ));
    } else if v >= 10 {
        out.push(48 + v / 10);
        out.push(48 + v % 10);
    } else {
        out.push(48 + v);
    }
    assert(final(out)@ =~= old(out)@ + dec_digits(v as nat));
}

fn exec_hex_digit(v: u16) -> (r: u8)
    requires
        v < 16,
    ensures
        r == hex_digit(v as nat),
{
    if v < 10 {
        48 + v as u8
    } else {
        87 + v as u8
    }
}

fn push_hex(out: &mut Vec<u8>, v: u16)
    ensures
        final(out)@ == old(out)@ + hex_digits(v as nat),
{
    proof {
        reveal_with_fuel(hex_digits, 4);
    }
    if v >= 4096 {
        out.push(exec_hex_digit(v / 4096));
        out.push(exec_hex_digit((v / 256) % 16));
        out.push(exec_hex_digit((v / 16) % 16));
        out.push(exec_hex_digit(v % 16));
        assert(v as nat / 16 / 16 == v as nat / 256);
        assert(v as nat / 256 / 16 == v as nat / 4096);
    } else if v >= 256 {
        out.push(exec_hex_digit(v / 256));
        out.push(exec_hex_digit((v / 16) % 16));
        out.push(exec_hex_digit(v % 16));
        assert(v as nat / 16 / 16 == v as nat / 256);
    } else if v >= 16 {
        out.push(exec_hex_digit(v / 16));
        out.push(exec_hex_digit(v % 16));
    } else {
        out.push(exec_hex_digit(v));
    }
    assert(final(out)@ =~= old(out)@ + hex_digits(v as nat));
}

fn ipv4_host(a: &Vec<u8>) -> (r: Vec<u8>)
    requires
        a@.len() == 4,
    ensures
        r@ == ipv4_text(a@),
{
    let mut r: Vec<u8> = Vec::new();
    push_decimal(&mut r, a[0]);
    r.push(46);
    push_decimal(&mut r, a[1]);
    r.push(46);
    push_decimal(&mut r, a[2]);
    r.push(46);
    push_decimal(&mut r, a[3]);
    assert(r@ =~= ipv4_text(a@));
    r
}

fn ipv6_host(a: &Vec<u8>) -> (r: Vec<u8>)
    requires
        a@.len() == 16,
    ensures
        r@ == ipv6_groups_text(a@, 8),
{
    let mut r: Vec<u8> = Vec::new();
    let mut k: usize = 0;
    while k < 8
        invariant
            k <= 8,
            a@.len() == 16,
            r@ == ipv6_groups_text(a@, k as nat),
        decreases 8 - k,
    {
        if k > 0 {
            r.push(58);
        }
        let g: u16 = a[2 * k] as u16 * 256 + a[2 * k + 1] as u16;
        push_hex(&mut r, g);
        assert(r@ =~= ipv6_groups_text(a@, (k + 1) as nat));
        k = k + 1;
    }
    r
}

impl Destination {
    /// The host text and port to connect to.
    pub fn target(&self) -> (r: Target)
        requires
            self.address.wf(),
        ensures
            r@ == (host_text(self.address.kind(), self.address.bytes()), self.port),
    {
        let host = match &self.address {
            AddressSpec::Ipv4(a) => ipv4_host(a),
            AddressSpec::Domain(a) => a.clone(),
            AddressSpec::Ipv6(a) => ipv6_host(a),
        };
        Target { host, port: self.port }
    }
}

} // verus!
