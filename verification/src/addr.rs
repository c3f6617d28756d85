//! IPv4 addresses as plain 32-bit values, with verified conversion from
//! octets and verified dotted-quad rendering.  The planner enumerates
//! addresses by integer successor on this representation.

use vstd::prelude::*;
use crate::numfmt::{dec_seq, dec_string};

verus! {

/// An IPv4 address, stored as its 32-bit numeric value
/// (`a.b.c.d` is `a*2^24 + b*2^16 + c*2^8 + d`).
#[derive(Clone, Copy, PartialEq, Eq, Structural, Debug)]
pub struct Ipv4Address {
    pub bits: u32,
}

/// Most significant octet of a 32-bit address value.
pub open spec fn oct0(n: u32) -> nat {
    (n as nat) / 0x100_0000
}

pub open spec fn oct1(n: u32) -> nat {
    ((n as nat) / 0x1_0000) % 256
}

pub open spec fn oct2(n: u32) -> nat {
    ((n as nat) / 0x100) % 256
}

/// Least significant octet of a 32-bit address value.
pub open spec fn oct3(n: u32) -> nat {
    (n as nat) % 256
}

/// The dotted-quad rendering of a 32-bit address value.
pub open spec fn ipv4_chars(n: u32) -> Seq<char> {
    dec_seq(oct0(n)) + seq!['.'] + dec_seq(oct1(n)) + seq!['.'] + dec_seq(oct2(n)) + seq!['.']
        + dec_seq(oct3(n))
}

impl Ipv4Address {
    /// Builds the address `a.b.c.d`.
    pub fn from_octets(a: u8, b: u8, c: u8, d: u8) -> (r: Ipv4Address)
        ensures
            r.bits == (a as nat) * 0x100_0000 + (b as nat) * 0x1_0000 + (c as nat) * 0x100 + (
            d as nat),
    {
        Ipv4Address {
            bits: (a as u32) * 0x100_0000 + (b as u32) * 0x1_0000 + (c as u32) * 0x100 + (d as u32),
        }
    }

    /// The four octets of the address, most significant first.
    pub fn octets(&self) -> (r: (u8, u8, u8, u8))
        ensures
            r.0 as nat == oct0(self.bits),
            r.1 as nat == oct1(self.bits),
            r.2 as nat == oct2(self.bits),
            r.3 as nat == oct3(self.bits),
    {
        let n = self.bits;
        assert(n / 0x100_0000 < 256) by {
            assert(n <= 0xFFFF_FFFFu32);
            vstd::arithmetic::div_mod::lemma_div_is_ordered(n as int, 0xFFFF_FFFF, 0x100_0000);
        }
        (
            (n / 0x100_0000) as u8,
            ((n / 0x1_0000) % 256) as u8,
            ((n / 0x100) % 256) as u8,
            (n % 256) as u8,
        )
    }

    /// Renders the address as `a.b.c.d`.
    pub fn dotted(&self) -> (r: String)
        ensures
            r@ == ipv4_chars(self.bits),
    {
        proof {
            reveal_strlit(".");
        }
        let (o0, o1, o2, o3) = self.octets();
        let mut s = dec_string(o0 as usize);
        s.append(".");
        s.append(dec_string(o1 as usize).as_str());
        s.append(".");
        s.append(dec_string(o2 as usize).as_str());
        s.append(".");
        s.append(dec_string(o3 as usize).as_str());
        assert(s@ =~= ipv4_chars(self.bits));
        s
    }
}

} // verus!
