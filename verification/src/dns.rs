//! Choosing the observed DNS address out of a lookup's answers.
//!
//! A lookup returns the addresses published for the hostname, in answer
//! order, each marked as IPv4 or not.  The monitor watches an IPv4 record,
//! so the first IPv4 answer is the observed address and a lookup without one
//! observes nothing.  The lookup itself lives with the caller.

use vstd::prelude::*;

verus! {

/// One address a lookup returned: its textual form and whether it is IPv4.
pub struct ResolvedAddress {
    /// True iff the answer is an IPv4 address.
    pub is_ipv4: bool,
    /// The address in its textual form.
    pub address: String,
}

/// The first IPv4 answer's text, `None` where no answer is IPv4.
pub open spec fn spec_first_ipv4(addrs: Seq<ResolvedAddress>) -> Option<Seq<char>>
    decreases addrs.len(),
{
    if addrs.len() == 0 {
        None
    } else if addrs[0].is_ipv4 {
        Some(addrs[0].address@)
    } else {
        spec_first_ipv4(addrs.drop_first())
    }
}

/// Pick the observed address out of a lookup's answers: the first one marked
/// IPv4, or `None` where there is none.
pub fn first_ipv4(addrs: &Vec<ResolvedAddress>) -> (r: Option<String>)
    ensures
        r is Some <==> spec_first_ipv4(addrs@) is Some,
        r matches Some(s) ==> spec_first_ipv4(addrs@) == Some(s@),
{
    let len = addrs.len();
    let mut i: usize = 0;
    proof {
        assert(addrs@.subrange(0, len as int) =~= addrs@);
    }
    while i < len
        invariant
            len == addrs@.len(),
            i <= len,
            spec_first_ipv4(addrs@) == spec_first_ipv4(
                addrs@.subrange(i as int, len as int),
            ),
        decreases len - i,
    {
        proof {
            assert(addrs@.subrange(i as int, len as int)[0] == addrs@[i as int]);
            assert(addrs@.subrange(i as int, len as int).drop_first() =~= addrs@.subrange(
                (i + 1) as int,
                len as int,
            ));
        }
        if addrs[i].is_ipv4 {
            return Some(addrs[i].address.clone());
        }
        i = i + 1;
    }
    proof {
        assert(addrs@.subrange(len as int, len as int) =~= Seq::<ResolvedAddress>::empty());
    }
    None
}

} // verus!
