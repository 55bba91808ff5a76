//! The kernel's rule descriptor and the constants of its control header, modelled as plain
//! values. Multi-byte fields that the kernel reads in network byte order are held as the
//! bytes in memory order, so that their content does not depend on the host's byte order.

use vstd::prelude::*;

verus! {

/// Rule action: let the packet through.
pub const PF_PASS: u8 = 0;
/// Rule action: discard the packet.
pub const PF_DROP: u8 = 1;

/// Direction: either way.
pub const PF_INOUT: u8 = 0;
/// Direction: inbound.
pub const PF_IN: u8 = 1;
/// Direction: outbound.
pub const PF_OUT: u8 = 2;

/// Address family: unspecified.
pub const PF_UNSPEC: u8 = 0;
/// Address family: IPv4.
pub const PF_INET: u8 = 2;
/// Address family: IPv6.
pub const PF_INET6: u8 = 30;

/// Address entry type tag: an address together with a mask.
pub const PF_ADDR_ADDRMASK: u8 = 0;

/// Port operator: no comparison.
pub const PF_OP_NONE: u8 = 0;
/// Port operator: strictly between the two ports.
pub const PF_OP_IRG: u8 = 1;
/// Port operator: equal.
pub const PF_OP_EQ: u8 = 2;
/// Port operator: not equal.
pub const PF_OP_NE: u8 = 3;
/// Port operator: less than.
pub const PF_OP_LT: u8 = 4;
/// Port operator: less than or equal.
pub const PF_OP_LE: u8 = 5;
/// Port operator: greater than.
pub const PF_OP_GT: u8 = 6;
/// Port operator: greater than or equal.
pub const PF_OP_GE: u8 = 7;
/// Port operator: outside the two ports.
pub const PF_OP_XRG: u8 = 8;
/// Port operator: between the two ports, both included.
pub const PF_OP_RRG: u8 = 9;

/// An address entry of a rule: a type tag and, for an address/mask entry, the address and
/// its mask, each as four bytes in network order.
#[derive(Debug, Clone, Copy, PartialEq, Eq, Hash)]
pub struct PfAddrWrap {
    pub type_: u8,
    pub addr: [u8; 4],
    pub mask: [u8; 4],
}

/// A port match: an operator and two port slots, each as two bytes in network order.
#[derive(Debug, Clone, Copy, PartialEq, Eq, Hash)]
pub struct PfPortRange {
    pub op: u8,
    pub port: [[u8; 2]; 2],
}

/// One side (source or destination) of a rule: the address entry and the port match.
#[derive(Debug, Clone, Copy, PartialEq, Eq, Hash)]
pub struct PfRuleAddr {
    pub addr: PfAddrWrap,
    pub range: PfPortRange,
}

/// The kernel's rule descriptor, as far as rules built here fill it.
#[derive(Debug, Clone, Copy, PartialEq, Eq, Hash)]
pub struct PfRule {
    pub action: u8,
    pub direction: u8,
    pub quick: u8,
    pub af: u8,
    pub proto: u8,
    pub src: PfRuleAddr,
    pub dst: PfRuleAddr,
}

impl PfAddrWrap {
    /// The all-zero address entry.
    pub open spec fn spec_zeroed() -> PfAddrWrap {
        PfAddrWrap { type_: 0, addr: [0u8, 0, 0, 0], mask: [0u8, 0, 0, 0] }
    }
}

impl PfPortRange {
    /// The all-zero port match.
    pub open spec fn spec_zeroed() -> PfPortRange {
        PfPortRange { op: 0, port: [[0u8, 0], [0u8, 0]] }
    }

    /// A zero-initialised port match.
    pub fn zeroed() -> (r: PfPortRange)
        ensures
            r == PfPortRange::spec_zeroed(),
    {
        PfPortRange { op: 0, port: [[0u8, 0], [0u8, 0]] }
    }
}

impl PfRuleAddr {
    /// The all-zero side of a rule.
    pub open spec fn spec_zeroed() -> PfRuleAddr {
        PfRuleAddr { addr: PfAddrWrap::spec_zeroed(), range: PfPortRange::spec_zeroed() }
    }
}

impl PfRule {
    /// The all-zero descriptor.
    pub open spec fn spec_zeroed() -> PfRule {
        PfRule {
            action: 0,
            direction: 0,
            quick: 0,
            af: 0,
            proto: 0,
            src: PfRuleAddr::spec_zeroed(),
            dst: PfRuleAddr::spec_zeroed(),
        }
    }

    /// A zero-initialised descriptor, as the kernel expects one to start.
    pub fn zeroed() -> (r: PfRule)
        ensures
            r == PfRule::spec_zeroed(),
    {
        let side = PfRuleAddr {
            addr: PfAddrWrap { type_: 0, addr: [0u8, 0, 0, 0], mask: [0u8, 0, 0, 0] },
            range: PfPortRange::zeroed(),
        };
        PfRule { action: 0, direction: 0, quick: 0, af: 0, proto: 0, src: side, dst: side }
    }
}

} // verus!
