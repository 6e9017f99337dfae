//! The television's addresses, as plain values.

use vstd::prelude::*;
use vstd::string::*;
use crate::text::{decimal, push_decimal};

verus! {

/// The television's hardware address, which the wake packet is made for.
#[derive(Debug, Clone, Copy, PartialEq, Eq)]
pub struct MacAddr {
    pub mac: [u8; 6],
}

/// Where the television's remote shell listens: its IP address, in the usual
/// notation of either family, and the port.
#[derive(Debug, PartialEq, Eq)]
pub struct SockAddr {
    pub ip: String,
    pub port: u16,
}

impl Clone for SockAddr {
    fn clone(&self) -> (copy: SockAddr)
        ensures
            copy == *self,
    {
        SockAddr { ip: self.ip.clone(), port: self.port }
    }
}

/// Whether `text` holds a colon, as every IPv6 address does and no IPv4
/// address.
pub open spec fn has_colon(text: Seq<char>) -> bool {
    exists|i: int| 0 <= i < text.len() && text[i] == ':'
}

/// The address and port as one text: `ip:port`, with the address in square
/// brackets where it holds colons itself.
pub open spec fn endpoint(ip: Seq<char>, port: u16) -> Seq<char> {
    if has_colon(ip) {
        "["@ + ip + "]:"@ + decimal(port as int)
    } else {
        ip + ":"@ + decimal(port as int)
    }
}

/// Whether `text` holds a colon.
fn contains_colon(text: &str) -> (found: bool)
    ensures
        found == has_colon(text@),
{
    let n: usize = text.unicode_len();
    let mut i: usize = 0;
    while i < n
        invariant
            n == text@.len(),
            i <= n,
            forall|j: int| 0 <= j < i ==> text@[j] != ':',
        decreases n - i,
    {
        if text.get_char(i) == ':' {
            return true;
        }
        i += 1;
    }
    false
}

impl SockAddr {
    /// What `to_string` returns.
    pub open spec fn text(self) -> Seq<char> {
        endpoint(self.ip@, self.port)
    }

    /// The address and port as one text, which is also the serial by which
    /// `adb` knows the television.
    pub fn to_string(&self) -> (s: String)
        ensures
            s@ == self.text(),
    {
        let bracketed = contains_colon(self.ip.as_str());
        let mut s = String::new();
        if bracketed {
            s.append("[");
            s.append(self.ip.as_str());
            s.append("]:");
        } else {
            s.append(self.ip.as_str());
            s.append(":");
        }
        push_decimal(&mut s, self.port as i64);
        s
    }
}

} // verus!
