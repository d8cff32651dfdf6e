//! Host address selection.
//!
//! The server advertises one IPv4 address in its ICE candidate: the first
//! interface address that is not loopback, not link-local and not the
//! broadcast address. The embedding program enumerates the interfaces and
//! hands the addresses here as plain octets.

use vstd::prelude::*;

verus! {

/// Whether an IPv4 address (as octets) may be advertised: not in the
/// loopback block 127.0.0.0/8, not in the link-local block 169.254.0.0/16,
/// and not the limited broadcast address.
pub open spec fn spec_usable_address(addr: (u8, u8, u8, u8)) -> bool {
    &&& addr.0 != 127
    &&& !(addr.0 == 169 && addr.1 == 254)
    &&& addr != (255u8, 255u8, 255u8, 255u8)
}

/// The first usable address of a candidate list, if any.
pub open spec fn spec_first_usable(s: Seq<(u8, u8, u8, u8)>) -> Option<(u8, u8, u8, u8)>
    decreases s.len(),
{
    if s.len() == 0 {
        None
    } else if spec_usable_address(s.first()) {
        Some(s.first())
    } else {
        spec_first_usable(s.drop_first())
    }
}

/// Whether one address may be advertised.
pub fn usable_address(addr: (u8, u8, u8, u8)) -> (r: bool)
    ensures
        r == spec_usable_address(addr),
{
    addr.0 != 127 && !(addr.0 == 169 && addr.1 == 254) && !(addr.0 == 255 && addr.1 == 255
        && addr.2 == 255 && addr.3 == 255)
}

/// The first candidate interface address that may be advertised, or `None`
/// when no interface offers a usable one.
pub fn select_host_address(candidates: &Vec<(u8, u8, u8, u8)>) -> (r: Option<(u8, u8, u8, u8)>)
    ensures
        r == spec_first_usable(candidates@),
{
    let n = candidates.len();
    proof {
        assert(candidates@.skip(0) =~= candidates@);
    }
    let mut i: usize = 0;
    while i < n
        invariant
            n == candidates@.len(),
            i <= n,
            spec_first_usable(candidates@) == spec_first_usable(candidates@.skip(i as int)),
        decreases n - i,
    {
        let addr = candidates[i];
        proof {
            assert(candidates@.skip(i as int).first() == candidates@[i as int]);
            assert(candidates@.skip(i as int).drop_first() =~= candidates@.skip(i + 1));
        }
        if usable_address(addr) {
            return Some(addr);
        }
        i = i + 1;
    }
    proof {
        assert(candidates@.skip(n as int).len() == 0);
    }
    None
}

} // verus!
