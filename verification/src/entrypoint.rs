//! Entrypoint keys and the set of the keys that are live.
//!
//! A key names one public address: `http://<subdomain>.<domain>` in lowercase,
//! or `tcp://0.0.0.0:<port>`. The live keys are kept in a `DashSet`; the
//! functions here reach it through exclusive references only.

use vstd::prelude::*;
use vstd::string::{StrSliceExecFns, StringExecFns};
use dashmap::DashSet;
use crate::text::{
    decimal_digits,
    law_numeral_reads_back,
    lemma_decimal_injective,
    lowercase_of,
    parse_u16,
    parse_u16_spec,
    push_decimal,
    to_lowercase,
};

verus! {

/// The concurrent hash set of the `dashmap` crate, taken as it is: nothing
/// here looks inside a value of it.
#[verifier::external_type_specification]
#[verifier::external_body]
#[verifier::reject_recursive_types(K)]
#[verifier::reject_recursive_types(S)]
pub struct ExDashSet<K, S>(DashSet<K, S>);

/// The keys that a `DashSet` of strings holds, by their characters.
pub uninterp spec fn live_keys(set: DashSet<String>) -> Set<Seq<char>>;

/// An empty set of live keys.
///
/// Trusted: stands for `DashSet::new`, which makes a set that holds nothing.
#[verifier::external_body]
pub(crate) fn live_set_new() -> (set: DashSet<String>)
    ensures
        live_keys(set) == Set::<Seq<char>>::empty(),
{
    DashSet::new()
}

/// Whether `key` is live.
///
/// Trusted: stands for `DashSet::contains`, which tells whether the set holds
/// a key equal to the one given.
#[verifier::external_body]
pub(crate) fn live_set_contains(set: &DashSet<String>, key: &str) -> (r: bool)
    ensures
        r == live_keys(*set).contains(key@),
{
    set.contains(key)
}

/// Makes `key` live; tells whether it was not live before.
///
/// Trusted: stands for `DashSet::insert`, which adds the key and returns
/// true if the set did not hold it already. The set is reached through an
/// exclusive reference, so nothing else changes it meanwhile.
#[verifier::external_body]
pub(crate) fn live_set_insert(set: &mut DashSet<String>, key: String) -> (r: bool)
    ensures
        live_keys(*final(set)) == live_keys(*old(set)).insert(key@),
        r == !live_keys(*old(set)).contains(key@),
{
    set.insert(key)
}

/// Makes `key` not live.
///
/// Trusted: stands for `DashSet::remove`, which takes the key out of the set
/// if it is there and leaves the other keys.
#[verifier::external_body]
pub(crate) fn live_set_remove(set: &mut DashSet<String>, key: &str)
    ensures
        live_keys(*final(set)) == live_keys(*old(set)).remove(key@),
{
    set.remove(key);
}

/// What every HTTP key starts with, before it is put in lowercase.
pub open spec fn http_scheme() -> Seq<char> {
    "http://"@
}

/// What every TCP key starts with.
pub open spec fn tcp_prefix() -> Seq<char> {
    "tcp://0.0.0.0:"@
}

/// The key of the HTTP entrypoint for `subdomain` under `domain`.
pub open spec fn http_key(subdomain: Seq<char>, domain: Seq<char>) -> Seq<char> {
    lowercase_of(http_scheme() + subdomain + "."@ + domain)
}

/// The key under which the HTTP listener looks up a request for `host`.
pub open spec fn host_key(host: Seq<char>) -> Seq<char> {
    lowercase_of(http_scheme() + host)
}

/// A host is looked up under the key of its entrypoint.
///
/// A request for the host `<subdomain>.<domain>` is looked up under the key
/// that the entrypoint for `subdomain` under `domain` was given.
pub proof fn law_host_finds_its_entrypoint(subdomain: Seq<char>, domain: Seq<char>)
    ensures
        host_key(subdomain + "."@ + domain) == http_key(subdomain, domain),
{
    assert(http_scheme() + (subdomain + "."@ + domain) =~= http_scheme() + subdomain + "."@
        + domain);
}

/// The key of the TCP entrypoint on `port`.
pub open spec fn tcp_key(port: u16) -> Seq<char> {
    tcp_prefix() + decimal_digits(port as nat)
}

/// The port that a TCP key names; `None` for any other text.
pub open spec fn tcp_key_port(key: Seq<char>) -> Option<u16> {
    if key.len() >= tcp_prefix().len() && key.take(tcp_prefix().len() as int) == tcp_prefix() {
        parse_u16_spec(key.skip(tcp_prefix().len() as int))
    } else {
        None
    }
}

/// Distinct ports have distinct keys.
pub proof fn lemma_tcp_key_injective(p: u16, q: u16)
    requires
        tcp_key(p) == tcp_key(q),
    ensures
        p == q,
{
    let n = tcp_prefix().len() as int;
    assert(tcp_key(p).skip(n) =~= decimal_digits(p as nat));
    assert(tcp_key(q).skip(n) =~= decimal_digits(q as nat));
    lemma_decimal_injective(p as nat, q as nat);
}

/// The key of a port names that port.
///
/// Reading the port out of the key that was built for a port gives that
/// port back.
pub proof fn law_tcp_key_names_its_port(p: u16)
    ensures
        tcp_key_port(tcp_key(p)) == Some(p),
{
    let n = tcp_prefix().len() as int;
    assert(tcp_key(p).skip(n) =~= decimal_digits(p as nat));
    assert(tcp_key(p).take(n) =~= tcp_prefix());
    law_numeral_reads_back(p);
}

/// Builds the key of the HTTP entrypoint for `subdomain` under `domain`.
pub fn make_http_key(subdomain: &str, domain: &str) -> (key: String)
    ensures
        key@ == http_key(subdomain@, domain@),
{
    let mut s = String::from_str("http://");
    s.append(subdomain);
    s.append(".");
    s.append(domain);
    to_lowercase(s.as_str())
}

/// Builds the key under which a request for `host` is looked up.
pub fn make_host_key(host: &str) -> (key: String)
    ensures
        key@ == host_key(host@),
{
    let mut s = String::from_str("http://");
    s.append(host);
    to_lowercase(s.as_str())
}

/// Builds the key of the TCP entrypoint on `port`.
pub fn make_tcp_key(port: u16) -> (key: String)
    ensures
        key@ == tcp_key(port),
{
    let mut s = String::from_str("tcp://0.0.0.0:");
    push_decimal(&mut s, port);
    s
}

/// Reads the port out of the key of a TCP entrypoint; `None` for any other
/// text.
pub fn parse_tcp_key(key: &str) -> (r: Option<u16>)
    ensures
        r == tcp_key_port(key@),
{
    proof {
        reveal_strlit("tcp://0.0.0.0:");
    }
    let len: usize = key.unicode_len();
    if len < 14 {
        return None;
    }
    let head = String::from_str(key.substring_char(0, 14));
    let prefix = String::from_str("tcp://0.0.0.0:");
    if head == prefix {
        parse_u16(key.substring_char(14, len))
    } else {
        None
    }
}

} // verus!
