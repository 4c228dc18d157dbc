//! The address a harness serves on, and how it is written inside a URL.
use vstd::prelude::*;
use vstd::string::*;

verus! {

/// An IPv4 socket address: the four octets of the host and the port.
#[derive(Clone, Copy, Debug, PartialEq, Eq)]
pub struct ServerAddr {
    pub octets: [u8; 4],
    pub port: u16,
}

/// The character that writes the decimal digit `d`.
pub open spec fn digit(d: int) -> char
    recommends
        0 <= d < 10,
{
    (48 + d) as u8 as char
}

/// `n` in decimal, most significant digit first, without leading zeros.
pub open spec fn decimal(n: nat) -> Seq<char>
    decreases n,
{
    if n < 10 {
        seq![digit(n as int)]
    } else {
        decimal(n / 10) + seq![digit((n % 10) as int)]
    }
}

/// A host in dotted decimal, a colon, and the port in decimal.
pub open spec fn authority(octets: Seq<u8>, port: u16) -> Seq<char>
    recommends
        octets.len() == 4,
{
    decimal(octets[0] as nat) + seq!['.'] + decimal(octets[1] as nat) + seq!['.'] + decimal(
        octets[2] as nat,
    ) + seq!['.'] + decimal(octets[3] as nat) + seq![':'] + decimal(port as nat)
}

/// Appends `n` in decimal to `out`.
fn push_decimal(out: &mut String, n: u16)
    ensures
        final(out)@ == old(out)@ + decimal(n as nat),
    decreases n,
{
    if n >= 10 {
        push_decimal(out, n / 10);
    }
    let d: usize = (n % 10) as usize;
    let digits = "0123456789";
    proof {
        reveal_strlit("0123456789");
    }
    let one = digits.substring_ascii(d, d + 1);
    out.append(one);
}

impl ServerAddr {
    /// The address as it stands in the authority part of a URL.
    pub open spec fn text(self) -> Seq<char> {
        authority(self.octets@, self.port)
    }

    /// The address of port `port` on every local interface, `0.0.0.0`.
    pub fn any_interface(port: u16) -> (r: ServerAddr)
        ensures
            r.octets@ == seq![0u8, 0u8, 0u8, 0u8],
            r.port == port,
    {
        ServerAddr { octets: [0, 0, 0, 0], port }
    }

    /// Writes the address as `a.b.c.d:port`.
    pub fn authority(&self) -> (r: String)
        ensures
            r@ == self.text(),
    {
        let mut out = String::new();
        push_decimal(&mut out, self.octets[0] as u16);
        out.append(".");
        push_decimal(&mut out, self.octets[1] as u16);
        out.append(".");
        push_decimal(&mut out, self.octets[2] as u16);
        out.append(".");
        push_decimal(&mut out, self.octets[3] as u16);
        out.append(":");
        push_decimal(&mut out, self.port);
        proof {
            reveal_strlit(".");
            reveal_strlit(":");
        }
        out
    }
}

} // verus!
