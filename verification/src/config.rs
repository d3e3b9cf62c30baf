use vstd::prelude::*;
use vstd::string::StringExecFns;

verus! {

/// Which IP family a configuration targets.
#[derive(Clone, Copy, Debug, PartialEq, Eq, Structural)]
pub enum IpKind {
    V4,
    V6,
    Both,
}

/// Configuration for the functions that call the remote API: the endpoint
/// url together with the IP family that the endpoint serves.
///
/// A configuration is immutable after construction; the one transform is
/// [`cfg_add_ip`], which appends one path segment and returns a new value.
#[derive(Clone, Debug)]
pub struct Config {
    pub ip_kind: IpKind,
    pub url: String,
}

/// The address endpoint that answers over IPv4 or IPv6, whichever the caller has.
pub open spec fn addr_url_both() -> Seq<char> {
    "https://api.seeip.org"@
}

/// The address endpoint that answers over IPv4 only.
pub open spec fn addr_url_v4() -> Seq<char> {
    "https://ipv4.seeip.org"@
}

/// The address endpoint that answers over IPv6 only.
pub open spec fn addr_url_v6() -> Seq<char> {
    "https://ipv6.seeip.org"@
}

/// The geographical endpoint that answers over IPv4 or IPv6.
pub open spec fn geo_url_both() -> Seq<char> {
    "https://api.seeip.org/geoip"@
}

/// The geographical endpoint that answers over IPv4 only.
pub open spec fn geo_url_v4() -> Seq<char> {
    "https://ipv4.seeip.org/geoip"@
}

/// The geographical endpoint that answers over IPv6 only.
pub open spec fn geo_url_v6() -> Seq<char> {
    "https://ipv6.seeip.org/geoip"@
}

/// Holds of a url that begins with the `https://` scheme.
pub open spec fn spec_https_prefix(s: Seq<char>) -> bool {
    s.len() >= 8 && s.subrange(0, 8) == "https://"@
}

/// The default configuration which supports both IPv4 and IPv6.
pub fn default_config() -> (c: Config)
    ensures
        c.ip_kind == IpKind::Both,
        c.url@ == addr_url_both(),
{
    Config { ip_kind: IpKind::Both, url: "https://api.seeip.org".to_string() }
}

/// Only use IPv4 configuration.
pub fn ipv4_config() -> (c: Config)
    ensures
        c.ip_kind == IpKind::V4,
        c.url@ == addr_url_v4(),
{
    Config { ip_kind: IpKind::V4, url: "https://ipv4.seeip.org".to_string() }
}

/// Only use IPv6 configuration.
pub fn ipv6_config() -> (c: Config)
    ensures
        c.ip_kind == IpKind::V6,
        c.url@ == addr_url_v6(),
{
    Config { ip_kind: IpKind::V6, url: "https://ipv6.seeip.org".to_string() }
}

/// The default configuration for geo which supports both IPv4 and IPv6.
pub fn geo_default_config() -> (c: Config)
    ensures
        c.ip_kind == IpKind::Both,
        c.url@ == geo_url_both(),
{
    Config { ip_kind: IpKind::Both, url: "https://api.seeip.org/geoip".to_string() }
}

/// Only use IPv4 configuration for geo.
pub fn geo_ipv4_config() -> (c: Config)
    ensures
        c.ip_kind == IpKind::V4,
        c.url@ == geo_url_v4(),
{
    Config { ip_kind: IpKind::V4, url: "https://ipv4.seeip.org/geoip".to_string() }
}

/// Only use IPv6 configuration for geo.
pub fn geo_ipv6_config() -> (c: Config)
    ensures
        c.ip_kind == IpKind::V6,
        c.url@ == geo_url_v6(),
{
    Config { ip_kind: IpKind::V6, url: "https://ipv6.seeip.org/geoip".to_string() }
}

/// Append an IP to an existing config: the url grows by one path segment,
/// `/` followed by `ip_addr`, and the IP family is kept.
pub fn cfg_add_ip(seeip_cfg: Config, ip_addr: &str) -> (r: Config)
    ensures
        r.ip_kind == seeip_cfg.ip_kind,
        r.url@ == seeip_cfg.url@ + "/"@ + ip_addr@,
{
    let Config { ip_kind, url } = seeip_cfg;
    let ip_url = url.concat("/").concat(ip_addr);
    Config { ip_kind, url: ip_url }
}

/// Every endpoint url is non-empty and begins with `https://`, and within
/// each of the two endpoint groups the urls of the three IP families are
/// pairwise distinct.
pub proof fn lemma_endpoint_urls_wellformed()
    ensures
        addr_url_both().len() > 0 && spec_https_prefix(addr_url_both()),
        addr_url_v4().len() > 0 && spec_https_prefix(addr_url_v4()),
        addr_url_v6().len() > 0 && spec_https_prefix(addr_url_v6()),
        geo_url_both().len() > 0 && spec_https_prefix(geo_url_both()),
        geo_url_v4().len() > 0 && spec_https_prefix(geo_url_v4()),
        geo_url_v6().len() > 0 && spec_https_prefix(geo_url_v6()),
        addr_url_both() != addr_url_v4(),
        addr_url_both() != addr_url_v6(),
        addr_url_v4() != addr_url_v6(),
        geo_url_both() != geo_url_v4(),
        geo_url_both() != geo_url_v6(),
        geo_url_v4() != geo_url_v6(),
{
    reveal_strlit("https://");
    reveal_strlit("https://api.seeip.org");
    reveal_strlit("https://ipv4.seeip.org");
    reveal_strlit("https://ipv6.seeip.org");
    reveal_strlit("https://api.seeip.org/geoip");
    reveal_strlit("https://ipv4.seeip.org/geoip");
    reveal_strlit("https://ipv6.seeip.org/geoip");
    assert(addr_url_both().subrange(0, 8) =~= "https://"@);
    assert(addr_url_v4().subrange(0, 8) =~= "https://"@);
    assert(addr_url_v6().subrange(0, 8) =~= "https://"@);
    assert(geo_url_both().subrange(0, 8) =~= "https://"@);
    assert(geo_url_v4().subrange(0, 8) =~= "https://"@);
    assert(geo_url_v6().subrange(0, 8) =~= "https://"@);
    assert(addr_url_v4()[11] == '4' && addr_url_v6()[11] == '6');
    assert(geo_url_v4()[11] == '4' && geo_url_v6()[11] == '6');
}

} // verus!
