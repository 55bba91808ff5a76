use pfrule::pfvar::{self, PfPortRange, PfRule};
use pfrule::{
    copy_str_to, AddrFamily, Direction, ErrorKind, FilterRuleBuilder, Ipv4Addr, Port,
    PortRangeModifier, PortUnaryModifier, Proto, RuleAction, ToFfi,
};

fn all_codes_distinct(codes: &[u8]) -> bool {
    for i in 0..codes.len() {
        for j in (i + 1)..codes.len() {
            if codes[i] == codes[j] {
                return false;
            }
        }
    }
    true
}

#[test]
fn rule_action_codes() {
    assert_eq!(RuleAction::Pass.to_ffi(), pfvar::PF_PASS);
    assert_eq!(RuleAction::Drop.to_ffi(), pfvar::PF_DROP);
    assert_eq!(RuleAction::Drop.to_ffi(), RuleAction::Drop.to_ffi());
    assert!(all_codes_distinct(&[RuleAction::Pass.to_ffi(), RuleAction::Drop.to_ffi()]));
}

#[test]
fn direction_codes() {
    assert_eq!(Direction::Any.to_ffi(), 0);
    assert_eq!(Direction::In.to_ffi(), 1);
    assert_eq!(Direction::Out.to_ffi(), 2);
    assert!(all_codes_distinct(&[
        Direction::Any.to_ffi(),
        Direction::In.to_ffi(),
        Direction::Out.to_ffi()
    ]));
}

#[test]
fn proto_codes_are_ip_protocol_numbers() {
    assert_eq!(Proto::Any.to_ffi(), 0);
    assert_eq!(Proto::Tcp.to_ffi(), 6);
    assert_eq!(Proto::Tcp.to_ffi(), libc::IPPROTO_TCP as u8);
}

#[test]
fn addr_family_codes() {
    assert_eq!(AddrFamily::Any.to_ffi(), pfvar::PF_UNSPEC);
    assert_eq!(AddrFamily::Ipv4.to_ffi(), pfvar::PF_INET);
    assert_eq!(AddrFamily::Ipv6.to_ffi(), pfvar::PF_INET6);
    assert!(all_codes_distinct(&[
        AddrFamily::Any.to_ffi(),
        AddrFamily::Ipv4.to_ffi(),
        AddrFamily::Ipv6.to_ffi()
    ]));
}

#[test]
fn port_modifier_codes() {
    let unary = [
        PortUnaryModifier::Equal.to_ffi(),
        PortUnaryModifier::NotEqual.to_ffi(),
        PortUnaryModifier::Greater.to_ffi(),
        PortUnaryModifier::Less.to_ffi(),
        PortUnaryModifier::GreaterOrEqual.to_ffi(),
        PortUnaryModifier::LessOrEqual.to_ffi(),
    ];
    let range = [
        PortRangeModifier::Exclusive.to_ffi(),
        PortRangeModifier::Inclusive.to_ffi(),
        PortRangeModifier::Except.to_ffi(),
    ];
    assert_eq!(unary, [2, 3, 6, 4, 7, 5]);
    assert_eq!(range, [1, 9, 8]);
    let mut all = unary.to_vec();
    all.extend_from_slice(&range);
    all.push(pfvar::PF_OP_NONE);
    assert!(all_codes_distinct(&all));
}

#[test]
fn bool_codes() {
    assert_eq!(true.to_ffi(), 1);
    assert_eq!(false.to_ffi(), 0);
}

#[test]
fn defaults() {
    assert_eq!(Direction::default(), Direction::Any);
    assert_eq!(Proto::default(), Proto::Any);
    assert_eq!(AddrFamily::default(), AddrFamily::Any);
}

#[test]
fn port_any_clears_both_slots() {
    let mut pr = PfPortRange { op: 7, port: [[1, 2], [3, 4]] };
    assert_eq!(Port::Any.copy_to(&mut pr), Ok(()));
    assert_eq!(pr.op, pfvar::PF_OP_NONE);
    assert_eq!(pr.port, [[0, 0], [0, 0]]);
}

#[test]
fn port_one_in_network_order() {
    let mut pr = PfPortRange { op: 0, port: [[9, 9], [9, 9]] };
    assert_eq!(Port::One(8080, PortUnaryModifier::Equal).copy_to(&mut pr), Ok(()));
    assert_eq!(pr.op, pfvar::PF_OP_EQ);
    assert_eq!(pr.port[0], [0x1f, 0x90]);
    assert_eq!(u16::from_ne_bytes(pr.port[0]), 8080u16.to_be());
    assert_eq!(pr.port[1], [0, 0]);
}

#[test]
fn port_range_in_order_is_written() {
    let mut pr = PfPortRange::zeroed();
    assert_eq!(Port::Range(80, 443, PortRangeModifier::Inclusive).copy_to(&mut pr), Ok(()));
    assert_eq!(pr.op, pfvar::PF_OP_RRG);
    assert_eq!(pr.port, [[0, 80], [1, 187]]);
    assert_eq!(u16::from_ne_bytes(pr.port[0]), 80u16.to_be());
    assert_eq!(u16::from_ne_bytes(pr.port[1]), 443u16.to_be());
}

#[test]
fn port_range_equal_bounds_is_accepted() {
    let mut pr = PfPortRange::zeroed();
    assert_eq!(Port::Range(22, 22, PortRangeModifier::Except).copy_to(&mut pr), Ok(()));
    assert_eq!(pr.op, pfvar::PF_OP_XRG);
    assert_eq!(pr.port, [[0, 22], [0, 22]]);
}

#[test]
fn port_range_inverted_is_refused_untouched() {
    let mut pr = PfPortRange { op: 5, port: [[1, 2], [3, 4]] };
    let r = Port::Range(443, 80, PortRangeModifier::Inclusive).copy_to(&mut pr);
    assert!(matches!(r, Err(ErrorKind::InvalidArgument(_))));
    assert_eq!(pr, PfPortRange { op: 5, port: [[1, 2], [3, 4]] });
}

#[test]
fn string_that_fits_exactly() {
    let mut buf = [7i8; 16];
    assert_eq!(copy_str_to("abcdefghijklmno", &mut buf), Ok(()));
    for (i, b) in "abcdefghijklmno".bytes().enumerate() {
        assert_eq!(buf[i], b as i8);
    }
    assert_eq!(buf[15], 0);
}

#[test]
fn string_one_byte_too_long() {
    let mut buf = [7i8; 16];
    let r = copy_str_to("abcdefghijklmnop", &mut buf);
    assert!(matches!(r, Err(ErrorKind::InvalidArgument(_))));
    assert_eq!(buf, [7i8; 16]);
}

#[test]
fn string_with_null_byte_is_refused() {
    let mut buf = [7i8; 16];
    let r = copy_str_to("ab\0cd", &mut buf);
    assert!(matches!(r, Err(ErrorKind::InvalidArgument(_))));
    assert_eq!(buf, [7i8; 16]);
}

#[test]
fn string_leaves_tail_untouched() {
    let mut buf = [7i8; 8];
    assert_eq!(copy_str_to("em0", &mut buf), Ok(()));
    assert_eq!(buf, [101, 109, 48, 0, 7, 7, 7, 7]);
}

#[test]
fn empty_string() {
    let mut buf = [7i8; 1];
    assert_eq!(copy_str_to("", &mut buf), Ok(()));
    assert_eq!(buf, [0]);
    let mut none: [i8; 0] = [];
    assert!(copy_str_to("", &mut none).is_err());
}

#[test]
fn non_ascii_string_bytes() {
    let mut buf = [7i8; 4];
    assert_eq!(copy_str_to("é", &mut buf), Ok(()));
    assert_eq!(buf, [0xc3u8 as i8, 0xa9u8 as i8, 0, 7]);
}

#[test]
fn address_in_network_order() {
    let a = Ipv4Addr::new(192, 168, 1, 20);
    assert_eq!(a.to_ffi(), [192, 168, 1, 20]);
    assert_eq!(u32::from_ne_bytes(a.to_ffi()), 0xc0a8_0114u32.to_be());
    assert_eq!(Ipv4Addr::from_octets(a.to_ffi()), a);
}

#[test]
fn builder_fills_defaults() {
    let rule = FilterRuleBuilder::default().action(RuleAction::Drop).build().unwrap();
    assert_eq!(rule.action(), RuleAction::Drop);
    assert_eq!(rule.direction(), Direction::Any);
    assert!(!rule.quick());
    assert_eq!(rule.proto(), Proto::Any);
    assert_eq!(rule.af(), AddrFamily::Any);
    assert_eq!(rule.from(), Ipv4Addr::new(0, 0, 0, 0));
    assert_eq!(rule.to(), Ipv4Addr::new(0, 0, 0, 0));
}

#[test]
fn builder_without_action_fails() {
    let r = FilterRuleBuilder::default().direction(Direction::In).build();
    assert!(matches!(r, Err(ErrorKind::InvalidArgument(_))));
}

#[test]
fn rule_into_zeroed_descriptor() {
    let rule = FilterRuleBuilder::default()
        .action(RuleAction::Pass)
        .direction(Direction::In)
        .proto(Proto::Tcp)
        .af(AddrFamily::Ipv4)
        .from(Ipv4Addr::new(10, 0, 0, 1))
        .to(Ipv4Addr::new(10, 0, 0, 2))
        .build()
        .unwrap();
    let mut pf = PfRule::zeroed();
    assert_eq!(rule.copy_to(&mut pf), Ok(()));
    assert_eq!(pf.action, pfvar::PF_PASS);
    assert_eq!(pf.direction, pfvar::PF_IN);
    assert_eq!(pf.proto, 6);
    assert_eq!(pf.af, pfvar::PF_INET);
    assert_eq!(pf.quick, 0);
    assert_eq!(pf.src.addr.type_, pfvar::PF_ADDR_ADDRMASK);
    assert_eq!(pf.src.addr.addr, [10, 0, 0, 1]);
    assert_eq!(u32::from_ne_bytes(pf.src.addr.addr), 0x0a00_0001u32.to_be());
    assert_eq!(pf.src.addr.mask, [0xff; 4]);
    assert_eq!(pf.dst.addr.type_, pfvar::PF_ADDR_ADDRMASK);
    assert_eq!(pf.dst.addr.addr, [10, 0, 0, 2]);
    assert_eq!(pf.dst.addr.mask, [0xff; 4]);
    assert_eq!(pf.src.range, PfPortRange::zeroed());
}

#[test]
fn quick_rule_and_ports_on_same_descriptor() {
    let rule = FilterRuleBuilder::default()
        .action(RuleAction::Drop)
        .quick(true)
        .direction(Direction::Out)
        .build()
        .unwrap();
    let mut pf = PfRule::zeroed();
    assert_eq!(Port::One(53, PortUnaryModifier::NotEqual).copy_to(&mut pf.dst.range), Ok(()));
    assert_eq!(rule.copy_to(&mut pf), Ok(()));
    assert_eq!(pf.quick, 1);
    assert_eq!(pf.action, pfvar::PF_DROP);
    assert_eq!(pf.direction, pfvar::PF_OUT);
    assert_eq!(pf.dst.range.op, pfvar::PF_OP_NE);
    assert_eq!(pf.dst.range.port, [[0, 53], [0, 0]]);
    assert_eq!(pf.src.addr.addr, [0, 0, 0, 0]);
}
