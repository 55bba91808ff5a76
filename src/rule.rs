use vstd::prelude::*;

use crate::addr::Ipv4Addr;
use crate::conversion::ToFfi;
use crate::error::ErrorKind;
use crate::pfvar;

verus! {

/// Relies on libc::IPPROTO_IP, the protocol number 0 ("any protocol" in a rule).
#[verifier::external_body]
fn ipproto_ip() -> (r: u8)
    ensures
        r == 0,
{
    libc::IPPROTO_IP as u8
}

/// Relies on libc::IPPROTO_TCP, the protocol number 6.
#[verifier::external_body]
fn ipproto_tcp() -> (r: u8)
    ensures
        r == 6,
{
    libc::IPPROTO_TCP as u8
}

/// A packet-filter rule: what to do with the packets that it matches, and how it
/// matches them.
#[derive(Debug, Clone, Copy, PartialEq, Eq, Hash)]
pub struct FilterRule {
    action: RuleAction,
    direction: Direction,
    quick: bool,
    proto: Proto,
    af: AddrFamily,
    from: Ipv4Addr,
    to: Ipv4Addr,
}

/// Collects the fields of a [`FilterRule`]; every field but the action has a default.
#[derive(Debug, Clone, Copy, PartialEq, Eq, Hash)]
pub struct FilterRuleBuilder {
    pub action: Option<RuleAction>,
    pub direction: Option<Direction>,
    pub quick: Option<bool>,
    pub proto: Option<Proto>,
    pub af: Option<AddrFamily>,
    pub from: Option<Ipv4Addr>,
    pub to: Option<Ipv4Addr>,
}

/// The address `0.0.0.0`, the default of both addresses of a rule.
pub open spec fn spec_unspecified_addr() -> Ipv4Addr {
    Ipv4Addr { octets: [0u8, 0, 0, 0] }
}

impl Default for FilterRuleBuilder {
    fn default() -> (r: FilterRuleBuilder)
        ensures
            r == (FilterRuleBuilder {
                action: None,
                direction: None,
                quick: None,
                proto: None,
                af: None,
                from: None,
                to: None,
            }),
    {
        FilterRuleBuilder {
            action: None,
            direction: None,
            quick: None,
            proto: None,
            af: None,
            from: None,
            to: None,
        }
    }
}

impl FilterRuleBuilder {
    pub fn action(self, value: RuleAction) -> (r: FilterRuleBuilder)
        ensures
            r == (FilterRuleBuilder { action: Some(value), ..self }),
    {
        FilterRuleBuilder { action: Some(value), ..self }
    }

    pub fn direction(self, value: Direction) -> (r: FilterRuleBuilder)
        ensures
            r == (FilterRuleBuilder { direction: Some(value), ..self }),
    {
        FilterRuleBuilder { direction: Some(value), ..self }
    }

    pub fn quick(self, value: bool) -> (r: FilterRuleBuilder)
        ensures
            r == (FilterRuleBuilder { quick: Some(value), ..self }),
    {
        FilterRuleBuilder { quick: Some(value), ..self }
    }

    pub fn proto(self, value: Proto) -> (r: FilterRuleBuilder)
        ensures
            r == (FilterRuleBuilder { proto: Some(value), ..self }),
    {
        FilterRuleBuilder { proto: Some(value), ..self }
    }

    pub fn af(self, value: AddrFamily) -> (r: FilterRuleBuilder)
        ensures
            r == (FilterRuleBuilder { af: Some(value), ..self }),
    {
        FilterRuleBuilder { af: Some(value), ..self }
    }

    pub fn from(self, value: Ipv4Addr) -> (r: FilterRuleBuilder)
        ensures
            r == (FilterRuleBuilder { from: Some(value), ..self }),
    {
        FilterRuleBuilder { from: Some(value), ..self }
    }

    pub fn to(self, value: Ipv4Addr) -> (r: FilterRuleBuilder)
        ensures
            r == (FilterRuleBuilder { to: Some(value), ..self }),
    {
        FilterRuleBuilder { to: Some(value), ..self }
    }

    /// The rule with the fields given so far and the defaults for the others: direction
    /// `Any`, not quick, protocol `Any`, family `Any`, both addresses `0.0.0.0`. Fails when
    /// no action was given, since the action has no default.
    pub fn build(&self) -> (r: Result<FilterRule, ErrorKind>)
        ensures
            r is Ok <==> self.action is Some,
            r matches Ok(rule) ==> {
                &&& rule.spec_action() == self.action->0
                &&& rule.spec_direction() == self.direction.unwrap_or(Direction::Any)
                &&& rule.spec_quick() == self.quick.unwrap_or(false)
                &&& rule.spec_proto() == self.proto.unwrap_or(Proto::Any)
                &&& rule.spec_af() == self.af.unwrap_or(AddrFamily::Any)
                &&& rule.spec_from() == self.from.unwrap_or(spec_unspecified_addr())
                &&& rule.spec_to() == self.to.unwrap_or(spec_unspecified_addr())
            },
    {
        let action = match self.action {
            Some(a) => a,
            None => {
                return Err(ErrorKind::InvalidArgument("`action` must be initialized"));
            },
        };
        let direction = match self.direction {
            Some(d) => d,
            None => Direction::default(),
        };
        let quick = match self.quick {
            Some(q) => q,
            None => false,
        };
        let proto = match self.proto {
            Some(p) => p,
            None => Proto::default(),
        };
        let af = match self.af {
            Some(f) => f,
            None => AddrFamily::default(),
        };
        let from = match self.from {
            Some(a) => a,
            None => Ipv4Addr::from_octets([0u8, 0, 0, 0]),
        };
        let to = match self.to {
            Some(a) => a,
            None => Ipv4Addr::from_octets([0u8, 0, 0, 0]),
        };
        Ok(FilterRule { action, direction, quick, proto, af, from, to })
    }
}

/// The address entry that matches exactly the host `a`: an address/mask pair with `a` in
/// network byte order and a mask of all ones.
pub open spec fn spec_host_entry(a: Ipv4Addr) -> pfvar::PfAddrWrap {
    pfvar::PfAddrWrap {
        type_: pfvar::PF_ADDR_ADDRMASK,
        addr: a.spec_to_ffi(),
        mask: [0xffu8, 0xff, 0xff, 0xff],
    }
}

impl FilterRule {
    pub closed spec fn spec_action(&self) -> RuleAction {
        self.action
    }

    pub closed spec fn spec_direction(&self) -> Direction {
        self.direction
    }

    pub closed spec fn spec_quick(&self) -> bool {
        self.quick
    }

    pub closed spec fn spec_proto(&self) -> Proto {
        self.proto
    }

    pub closed spec fn spec_af(&self) -> AddrFamily {
        self.af
    }

    pub closed spec fn spec_from(&self) -> Ipv4Addr {
        self.from
    }

    pub closed spec fn spec_to(&self) -> Ipv4Addr {
        self.to
    }

    /// The descriptor `d` once this rule has been written into it: the scalar fields hold
    /// the kernel codes, both address entries match their host exactly, and the port
    /// matches are left as they were.
    pub open spec fn spec_written_into(&self, d: pfvar::PfRule) -> pfvar::PfRule {
        pfvar::PfRule {
            action: self.spec_action().spec_to_ffi(),
            direction: self.spec_direction().spec_to_ffi(),
            quick: self.spec_quick().spec_to_ffi(),
            af: self.spec_af().spec_to_ffi(),
            proto: self.spec_proto().spec_to_ffi(),
            src: pfvar::PfRuleAddr { addr: spec_host_entry(self.spec_from()), range: d.src.range },
            dst: pfvar::PfRuleAddr { addr: spec_host_entry(self.spec_to()), range: d.dst.range },
        }
    }

    fn set_addr(addr: Ipv4Addr, pf_addr: &mut pfvar::PfRuleAddr)
        ensures
            final(pf_addr).addr == spec_host_entry(addr),
            final(pf_addr).range == old(pf_addr).range,
    {
        pf_addr.addr.type_ = pfvar::PF_ADDR_ADDRMASK;
        pf_addr.addr.addr = addr.to_ffi();
        pf_addr.addr.mask = [0xffu8, 0xff, 0xff, 0xff];
    }

    /// Writes this rule into the descriptor `pf_rule`. This cannot fail.
    pub fn copy_to(&self, pf_rule: &mut pfvar::PfRule) -> (r: Result<(), ErrorKind>)
        ensures
            r is Ok,
            *final(pf_rule) == self.spec_written_into(*old(pf_rule)),
    {
        pf_rule.action = self.action.to_ffi();
        pf_rule.direction = self.direction.to_ffi();
        pf_rule.quick = self.quick.to_ffi();
        pf_rule.af = self.af.to_ffi();
        pf_rule.proto = self.proto.to_ffi();
        Self::set_addr(self.from, &mut pf_rule.src);
        Self::set_addr(self.to, &mut pf_rule.dst);
        Ok(())
    }

    pub fn action(&self) -> (r: RuleAction)
        ensures
            r == self.spec_action(),
    {
        self.action
    }

    pub fn direction(&self) -> (r: Direction)
        ensures
            r == self.spec_direction(),
    {
        self.direction
    }

    pub fn quick(&self) -> (r: bool)
        ensures
            r == self.spec_quick(),
    {
        self.quick
    }

    pub fn proto(&self) -> (r: Proto)
        ensures
            r == self.spec_proto(),
    {
        self.proto
    }

    pub fn af(&self) -> (r: AddrFamily)
        ensures
            r == self.spec_af(),
    {
        self.af
    }

    pub fn from(&self) -> (r: Ipv4Addr)
        ensures
            r == self.spec_from(),
    {
        self.from
    }

    pub fn to(&self) -> (r: Ipv4Addr)
        ensures
            r == self.spec_to(),
    {
        self.to
    }
}

/// What should happen to a packet that matches a rule.
#[derive(Debug, Clone, Copy, PartialEq, Eq, Hash, Structural)]
pub enum RuleAction {
    Pass,
    Drop,
}

impl ToFfi<u8> for RuleAction {
    open spec fn spec_to_ffi(&self) -> u8 {
        match *self {
            RuleAction::Pass => pfvar::PF_PASS,
            RuleAction::Drop => pfvar::PF_DROP,
        }
    }

    fn to_ffi(&self) -> (r: u8) {
        match *self {
            RuleAction::Pass => pfvar::PF_PASS,
            RuleAction::Drop => pfvar::PF_DROP,
        }
    }
}


/// Which way a packet must be flowing for a rule to match it.
#[derive(Debug, Clone, Copy, PartialEq, Eq, Hash, Structural)]
pub enum Direction {
    Any,
    In,
    Out,
}

impl Default for Direction {
    fn default() -> (r: Direction)
        ensures
            r == Direction::Any,
    {
        Direction::Any
    }
}

impl ToFfi<u8> for Direction {
    open spec fn spec_to_ffi(&self) -> u8 {
        match *self {
            Direction::Any => pfvar::PF_INOUT,
            Direction::In => pfvar::PF_IN,
            Direction::Out => pfvar::PF_OUT,
        }
    }

    fn to_ffi(&self) -> (r: u8) {
        match *self {
            Direction::Any => pfvar::PF_INOUT,
            Direction::In => pfvar::PF_IN,
            Direction::Out => pfvar::PF_OUT,
        }
    }
}

/// The transport protocol that a rule matches.
#[derive(Debug, Clone, Copy, PartialEq, Eq, Hash, Structural)]
pub enum Proto {
    Any,
    Tcp,
}

impl Default for Proto {
    fn default() -> (r: Proto)
        ensures
            r == Proto::Any,
    {
        Proto::Any
    }
}

/// A protocol goes to the kernel as its IP protocol number.
impl ToFfi<u8> for Proto {
    open spec fn spec_to_ffi(&self) -> u8 {
        match *self {
            Proto::Any => 0,
            Proto::Tcp => 6,
        }
    }

    fn to_ffi(&self) -> (r: u8) {
        match *self {
            Proto::Any => ipproto_ip(),
            Proto::Tcp => ipproto_tcp(),
        }
    }
}

/// The address family that a rule matches.
#[derive(Debug, Clone, Copy, PartialEq, Eq, Hash, Structural)]
pub enum AddrFamily {
    Any,
    Ipv4,
    Ipv6,
}

impl Default for AddrFamily {
    fn default() -> (r: AddrFamily)
        ensures
            r == AddrFamily::Any,
    {
        AddrFamily::Any
    }
}

impl ToFfi<u8> for AddrFamily {
    open spec fn spec_to_ffi(&self) -> u8 {
        match *self {
            AddrFamily::Any => pfvar::PF_UNSPEC,
            AddrFamily::Ipv4 => pfvar::PF_INET,
            AddrFamily::Ipv6 => pfvar::PF_INET6,
        }
    }

    fn to_ffi(&self) -> (r: u8) {
        match *self {
            AddrFamily::Any => pfvar::PF_UNSPEC,
            AddrFamily::Ipv4 => pfvar::PF_INET,
            AddrFamily::Ipv6 => pfvar::PF_INET6,
        }
    }
}


/// The two bytes of a port in network byte order, high byte first.
pub open spec fn spec_port_bytes(p: u16) -> [u8; 2] {
    [(p / 256) as u8, (p % 256) as u8]
}

fn port_bytes(p: u16) -> (r: [u8; 2])
    ensures
        r == spec_port_bytes(p),
{
    [(p / 256) as u8, (p % 256) as u8]
}

/// The ports that a rule matches.
#[derive(Debug, Clone, Copy, PartialEq, Eq, Hash, Structural)]
pub enum Port {
    /// Every port.
    Any,
    /// The ports that compare with the given one as the modifier says.
    One(u16, PortUnaryModifier),
    /// The ports that lie as the modifier says with respect to the range from the first to
    /// the second port; the first must not be greater than the second.
    Range(u16, u16, PortRangeModifier),
}

impl Port {
    /// Whether this port match can be encoded: a range must not have its bounds inverted.
    pub open spec fn spec_is_valid(&self) -> bool {
        match *self {
            Port::Range(low, high, _) => low <= high,
            _ => true,
        }
    }

    /// The port match that the kernel reads for this value, when it is valid.
    pub open spec fn spec_encoded(&self) -> pfvar::PfPortRange {
        match *self {
            Port::Any => pfvar::PfPortRange {
                op: pfvar::PF_OP_NONE,
                port: [[0u8, 0], [0u8, 0]],
            },
            Port::One(p, m) => pfvar::PfPortRange {
                op: m.spec_to_ffi(),
                port: [spec_port_bytes(p), [0u8, 0]],
            },
            Port::Range(low, high, m) => pfvar::PfPortRange {
                op: m.spec_to_ffi(),
                port: [spec_port_bytes(low), spec_port_bytes(high)],
            },
        }
    }

    /// Writes this port match into `pf_port_range`. A range whose lower bound is greater
    /// than its upper bound is refused before anything is written.
    pub fn copy_to(&self, pf_port_range: &mut pfvar::PfPortRange) -> (r: Result<(), ErrorKind>)
        ensures
            r is Ok <==> self.spec_is_valid(),
            r is Ok ==> *final(pf_port_range) == self.spec_encoded(),
            r is Err ==> *final(pf_port_range) == *old(pf_port_range),
    {
        match *self {
            Port::Any => {
                pf_port_range.op = pfvar::PF_OP_NONE;
                pf_port_range.port = [[0u8, 0], [0u8, 0]];
            },
            Port::One(port, modifier) => {
                pf_port_range.op = modifier.to_ffi();
                pf_port_range.port = [port_bytes(port), [0u8, 0]];
            },
            Port::Range(start_port, end_port, modifier) => {
                if start_port > end_port {
                    return Err(ErrorKind::InvalidArgument("Lower port is greater than upper port."));
                }
                pf_port_range.op = modifier.to_ffi();
                pf_port_range.port = [port_bytes(start_port), port_bytes(end_port)];
            },
        }
        Ok(())
    }
}

/// How a single port is compared with the packet's port.
#[derive(Debug, Clone, Copy, PartialEq, Eq, Hash, Structural)]
pub enum PortUnaryModifier {
    Equal,
    NotEqual,
    Greater,
    Less,
    GreaterOrEqual,
    LessOrEqual,
}

impl ToFfi<u8> for PortUnaryModifier {
    open spec fn spec_to_ffi(&self) -> u8 {
        match *self {
            PortUnaryModifier::Equal => pfvar::PF_OP_EQ,
            PortUnaryModifier::NotEqual => pfvar::PF_OP_NE,
            PortUnaryModifier::Greater => pfvar::PF_OP_GT,
            PortUnaryModifier::Less => pfvar::PF_OP_LT,
            PortUnaryModifier::GreaterOrEqual => pfvar::PF_OP_GE,
            PortUnaryModifier::LessOrEqual => pfvar::PF_OP_LE,
        }
    }

    fn to_ffi(&self) -> (r: u8) {
        match *self {
            PortUnaryModifier::Equal => pfvar::PF_OP_EQ,
            PortUnaryModifier::NotEqual => pfvar::PF_OP_NE,
            PortUnaryModifier::Greater => pfvar::PF_OP_GT,
            PortUnaryModifier::Less => pfvar::PF_OP_LT,
            PortUnaryModifier::GreaterOrEqual => pfvar::PF_OP_GE,
            PortUnaryModifier::LessOrEqual => pfvar::PF_OP_LE,
        }
    }
}

/// How the packet's port must lie with respect to a range of ports.
#[derive(Debug, Clone, Copy, PartialEq, Eq, Hash, Structural)]
pub enum PortRangeModifier {
    /// Strictly between the bounds.
    Exclusive,
    /// Between the bounds, both included.
    Inclusive,
    /// Outside the bounds.
    Except,
}

impl ToFfi<u8> for PortRangeModifier {
    open spec fn spec_to_ffi(&self) -> u8 {
        match *self {
            PortRangeModifier::Exclusive => pfvar::PF_OP_IRG,
            PortRangeModifier::Inclusive => pfvar::PF_OP_RRG,
            PortRangeModifier::Except => pfvar::PF_OP_XRG,
        }
    }

    fn to_ffi(&self) -> (r: u8) {
        match *self {
            PortRangeModifier::Exclusive => pfvar::PF_OP_IRG,
            PortRangeModifier::Inclusive => pfvar::PF_OP_RRG,
            PortRangeModifier::Except => pfvar::PF_OP_XRG,
        }
    }
}


/// Each enumeration maps distinct variants to distinct kernel codes, so the kernel can
/// always tell which variant was meant.
pub proof fn lemma_kernel_codes_distinct()
    ensures
        forall|a: RuleAction, b: RuleAction|
            #[trigger] a.spec_to_ffi() == #[trigger] b.spec_to_ffi() ==> a == b,
        forall|a: Direction, b: Direction|
            #[trigger] a.spec_to_ffi() == #[trigger] b.spec_to_ffi() ==> a == b,
        forall|a: Proto, b: Proto| #[trigger] a.spec_to_ffi() == #[trigger] b.spec_to_ffi() ==> a == b,
        forall|a: AddrFamily, b: AddrFamily|
            #[trigger] a.spec_to_ffi() == #[trigger] b.spec_to_ffi() ==> a == b,
        forall|a: PortUnaryModifier, b: PortUnaryModifier|
            #[trigger] a.spec_to_ffi() == #[trigger] b.spec_to_ffi() ==> a == b,
        forall|a: PortRangeModifier, b: PortRangeModifier|
            #[trigger] a.spec_to_ffi() == #[trigger] b.spec_to_ffi() ==> a == b,
{
}

/// The two bytes of a port are in network byte order: high byte first, and reading them
/// back that way gives the port.
pub proof fn lemma_port_bytes_network_order(p: u16)
    ensures
        spec_port_bytes(p)@[0] as int * 256 + spec_port_bytes(p)@[1] as int == p as int,
{
}

/// What the kernel reads for each form of port match: no comparison and two zero slots
/// for any port; the operator, the port and a zero second slot for a single port; the
/// operator and both bounds for a range, which is accepted exactly when its bounds are in
/// order.
pub proof fn lemma_port_encoding(port: Port)
    ensures
        port is Any ==> {
            &&& port.spec_is_valid()
            &&& port.spec_encoded().op == pfvar::PF_OP_NONE
            &&& port.spec_encoded().port@[0] == [0u8, 0]
            &&& port.spec_encoded().port@[1] == [0u8, 0]
        },
        port matches Port::One(p, m) ==> {
            &&& port.spec_is_valid()
            &&& port.spec_encoded().op == m.spec_to_ffi()
            &&& port.spec_encoded().port@[0] == spec_port_bytes(p)
            &&& port.spec_encoded().port@[1] == [0u8, 0]
        },
        port matches Port::Range(low, high, m) ==> {
            &&& port.spec_is_valid() <==> low <= high
            &&& port.spec_encoded().op == m.spec_to_ffi()
            &&& port.spec_encoded().port@[0] == spec_port_bytes(low)
            &&& port.spec_encoded().port@[1] == spec_port_bytes(high)
        },
{
}

/// The entry written for a host address is an address/mask pair whose mask is all ones,
/// and reading its address slot back in network byte order gives the address again.
pub proof fn lemma_host_entry_round_trip(a: Ipv4Addr)
    ensures
        spec_host_entry(a).type_ == pfvar::PF_ADDR_ADDRMASK,
        spec_host_entry(a).mask@ == seq![0xffu8, 0xff, 0xff, 0xff],
        (Ipv4Addr { octets: spec_host_entry(a).addr }) == a,
{
}

} // verus!
