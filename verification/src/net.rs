//! Network model: IP addresses of both families as plain integers, CIDR
//! blocks with their containment rule, and per-topic authorization against
//! an allow-list of blocks.

use vstd::prelude::*;

verus! {

/// An IP address, held as the integer value of its bits: 32 for the v4
/// family, 128 for the v6 family.
#[derive(Clone, Copy, Debug, PartialEq, Eq, Structural)]
pub enum IpAddress {
    V4(u32),
    V6(u128),
}

/// A CIDR block: a network address and a prefix length.
#[derive(Clone, Copy, Debug)]
pub struct CidrBlock {
    pub addr: IpAddress,
    pub prefix_len: u8,
}

impl CidrBlock {
    /// The prefix length fits the address family.
    pub open spec fn wf(self) -> bool {
        match self.addr {
            IpAddress::V4(_) => self.prefix_len <= 32,
            IpAddress::V6(_) => self.prefix_len <= 128,
        }
    }

    /// Standard CIDR containment: the address is of the block's family and
    /// its leading `prefix_len` bits equal those of the network address.
    pub open spec fn contains_spec(self, address: IpAddress) -> bool {
        match (self.addr, address) {
            (IpAddress::V4(net), IpAddress::V4(a)) => self.prefix_len == 0 || (a >> (32
                - self.prefix_len) as u32) == (net >> (32 - self.prefix_len) as u32),
            (IpAddress::V6(net), IpAddress::V6(a)) => self.prefix_len == 0 || (a >> (128
                - self.prefix_len) as u128) == (net >> (128 - self.prefix_len) as u128),
            _ => false,
        }
    }

    /// Builds a block, rejecting a prefix length too long for the family.
    pub fn new(addr: IpAddress, prefix_len: u8) -> (r: Option<CidrBlock>)
        ensures
            match r {
                Some(b) => b.wf() && b.addr == addr && b.prefix_len == prefix_len,
                None => !(CidrBlock { addr, prefix_len }).wf(),
            },
    {
        let limit: u8 = match addr {
            IpAddress::V4(_) => 32,
            IpAddress::V6(_) => 128,
        };
        if prefix_len <= limit {
            Some(CidrBlock { addr, prefix_len })
        } else {
            None
        }
    }

    /// Whether the address falls within this block.
    pub fn contains(&self, address: IpAddress) -> (r: bool)
        requires
            self.wf(),
        ensures
            r == self.contains_spec(address),
    {
        match (self.addr, address) {
            (IpAddress::V4(net), IpAddress::V4(a)) => {
                if self.prefix_len == 0 {
                    true
                } else {
                    let shift: u32 = (32 - self.prefix_len) as u32;
                    (a >> shift) == (net >> shift)
                }
            },
            (IpAddress::V6(net), IpAddress::V6(a)) => {
                if self.prefix_len == 0 {
                    true
                } else {
                    let shift: u128 = (128 - self.prefix_len) as u128;
                    (a >> shift) == (net >> shift)
                }
            },
            _ => false,
        }
    }
}

/// A named channel's data: its recipients, in delivery order, and the CIDR
/// blocks whose addresses may post to it. An empty recipient list makes
/// delivery vacuous; an empty allow-list authorizes no address.
pub struct Topic {
    pub recipients: Vec<String>,
    pub allow_list: Vec<CidrBlock>,
}

impl Topic {
    /// Every block of the allow-list is well formed.
    pub open spec fn wf(self) -> bool {
        forall|i: int| 0 <= i < self.allow_list@.len() ==> self.allow_list@[i].wf()
    }

    /// The address is contained in at least one block of the allow-list.
    pub open spec fn allows(self, address: IpAddress) -> bool {
        exists|i: int| 0 <= i < self.allow_list@.len() && self.allow_list@[i].contains_spec(address)
    }

    /// Whether the address may post to this topic: any matching block
    /// authorizes; there is no block list and no precedence among blocks.
    pub fn is_allowed(&self, address: IpAddress) -> (r: bool)
        requires
            self.wf(),
        ensures
            r == self.allows(address),
    {
        let mut i: usize = 0;
        while i < self.allow_list.len()
            invariant
                i <= self.allow_list@.len(),
                self.wf(),
                forall|j: int| 0 <= j < i ==> !self.allow_list@[j].contains_spec(address),
            decreases self.allow_list@.len() - i,
        {
            if self.allow_list[i].contains(address) {
                return true;
            }
            i += 1;
        }
        false
    }
}

} // verus!
