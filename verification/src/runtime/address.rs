//! IPv4 socket addresses as plain values.

use crate::text::{decimal, push_decimal, push_str};
use vstd::prelude::*;

verus! {

broadcast use vstd::string::group_string_axioms;

/// An IPv4 socket address.
#[derive(Debug, Clone, Copy, PartialEq, Eq)]
pub struct SocketAddress {
    /// The four octets of the address.
    pub ip: [u8; 4],
    /// The port.
    pub port: u16,
}

/// The dotted-decimal text of four octets.
pub open spec fn dotted(ip: Seq<u8>) -> Seq<char> {
    decimal(ip[0] as nat) + "."@ + decimal(ip[1] as nat) + "."@ + decimal(ip[2] as nat) + "."@
        + decimal(ip[3] as nat)
}

impl SocketAddress {
    /// The address `ip` in dotted-decimal form, e.g. `127.0.0.1`.
    pub fn ip_string(&self) -> (s: String)
        ensures
            s@ == dotted(self.ip@),
    {
        let mut s = String::new();
        push_decimal(&mut s, self.ip[0] as u64);
        push_str(&mut s, ".");
        push_decimal(&mut s, self.ip[1] as u64);
        push_str(&mut s, ".");
        push_decimal(&mut s, self.ip[2] as u64);
        push_str(&mut s, ".");
        push_decimal(&mut s, self.ip[3] as u64);
        s
    }

    /// The address as `ip:port`, e.g. `127.0.0.1:3000`.
    pub fn to_string(&self) -> (s: String)
        ensures
            s@ == dotted(self.ip@) + ":"@ + decimal(self.port as nat),
    {
        let mut s = self.ip_string();
        push_str(&mut s, ":");
        push_decimal(&mut s, self.port as u64);
        s
    }
}

} // verus!
