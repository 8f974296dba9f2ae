//! The configuration of the server, as it is handed in once at start.

use vstd::prelude::*;
use vstd::string::StrSliceExecFns;
use crate::text::{parse_u16, parse_u16_spec};

verus! {

/// The value of `auth_method` that selects login by token.
pub open spec fn auth_method_token() -> Seq<char> {
    "token"@
}

/// The value of `auth_method` that selects OIDC, which is not available.
pub open spec fn auth_method_oidc() -> Seq<char> {
    "oidc"@
}

/// Options of the control plane.
#[derive(Debug)]
pub struct CoreConfig {
    /// `token` or `oidc`.
    pub auth_method: String,
    /// The address on which the control plane listens.
    pub bind_addr: String,
    /// The TCP ports that may be given out, written `min-max`; `max` itself
    /// is not given out.
    pub allow_ports: String,
}

/// Options of the public HTTP listener.
#[derive(Debug)]
pub struct HttpConfig {
    /// The address on which the public HTTP listener listens.
    pub bind_addr: String,
    /// The domain under which HTTP entrypoints are given out.
    pub default_domain: String,
}

impl Clone for HttpConfig {
    fn clone(&self) -> (r: HttpConfig)
        ensures
            r.bind_addr@ == self.bind_addr@,
            r.default_domain@ == self.default_domain@,
    {
        HttpConfig {
            bind_addr: self.bind_addr.clone(),
            default_domain: self.default_domain.clone(),
        }
    }
}

/// The whole configuration.
#[derive(Debug)]
pub struct Config {
    pub core: CoreConfig,
    pub http: HttpConfig,
    /// Pairs of a user name and that user's token.
    pub tokens: Vec<(String, String)>,
}

/// Whether `i` is the place of the first `-` in `s`.
pub open spec fn is_first_dash(s: Seq<char>, i: int) -> bool {
    &&& 0 <= i < s.len()
    &&& s[i] == '-'
    &&& forall|j: int| 0 <= j < i ==> s[j] != '-'
}

/// The bounds that a port range `min-max` denotes: the text before the first
/// `-` and the text after it, each read as an unsigned 16-bit number.
pub open spec fn port_range_spec(s: Seq<char>) -> Option<(u16, u16)> {
    if exists|i: int| is_first_dash(s, i) {
        let i = choose|i: int| is_first_dash(s, i);
        match (parse_u16_spec(s.take(i)), parse_u16_spec(s.skip(i + 1))) {
            (Some(min), Some(max)) => Some((min, max)),
            _ => None,
        }
    } else {
        None
    }
}

/// Reads a port range written `min-max`. `None` where the text holds no `-`
/// or one of the two sides is no 16-bit number.
pub fn parse_port_range(s: &str) -> (r: Option<(u16, u16)>)
    ensures
        r == port_range_spec(s@),
{
    let len: usize = s.unicode_len();
    let mut i: usize = 0;
    while i < len
        invariant
            i <= len,
            len == s@.len(),
            forall|j: int| 0 <= j < i ==> s@[j] != '-',
        decreases len - i,
    {
        if s.get_char(i) == '-' {
            assert(is_first_dash(s@, i as int));
            let ghost chosen = choose|k: int| is_first_dash(s@, k);
            assert(chosen == i);
            let left = s.substring_char(0, i);
            let right = s.substring_char(i + 1, len);
            assert(left@ == s@.take(i as int));
            assert(right@ == s@.skip(i + 1));
            let min = parse_u16(left);
            let max = parse_u16(right);
            return match (min, max) {
                (Some(a), Some(b)) => Some((a, b)),
                _ => None,
            };
        }
        i = i + 1;
    }
    None
}

} // verus!
