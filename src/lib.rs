//! Encoding of packet-filter rules into the fixed layout of the kernel's rule descriptor.
//!
//! Every conversion here is either total and infallible (the enumerations, booleans and
//! addresses) or validates its input before it writes anything (port ranges and strings).

pub mod addr;
pub mod conversion;
pub mod error;
pub mod pfvar;
pub mod rule;

pub use addr::Ipv4Addr;
pub use conversion::{copy_str_to, ToFfi};
pub use error::ErrorKind;
pub use rule::{
    AddrFamily, Direction, FilterRule, FilterRuleBuilder, Port, PortRangeModifier, PortUnaryModifier,
    Proto, RuleAction,
};
