//! The proxy-node record handed to filter scripts.
use vstd::prelude::*;

verus! {

/// One proxy server entry.
#[derive(Clone, Debug, PartialEq, Eq)]
pub struct Proxy {
    /// Protocol name, such as `ss` or `vmess`.
    pub proxy_type: String,
    /// Display name of the node.
    pub remark: String,
    /// Group the node belongs to.
    pub group: String,
    /// Server address.
    pub hostname: String,
    /// Server port.
    pub port: u16,
    /// UDP support, where known.
    pub udp: Option<bool>,
    /// TCP Fast Open support, where known.
    pub tfo: Option<bool>,
    /// Whether certificate verification is skipped, where known.
    pub skip_cert_verify: Option<bool>,
}

/// One rename or emoji rule: a pattern and what replaces a match.
#[derive(Clone, Debug, PartialEq, Eq)]
pub struct RegexMatchConfig {
    /// Pattern that selects node names.
    pub regex: String,
    /// Text that replaces a match.
    pub replace: String,
}

/// An ordered list of rename or emoji rules.
pub type RegexMatchConfigs = Vec<RegexMatchConfig>;

} // verus!
