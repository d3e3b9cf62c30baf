//! Client for the seeip.org IP-information API: fetch the caller's public
//! IP address, or geographical information for the caller or for an
//! arbitrary IP address.
//!
//! Every entry point pairs one endpoint configuration from [`config`] with
//! the matching call in [`utils`], and hands the result back unchanged:
//! the IP address as a string, or a [`utils::GeoInfo`] record, or one
//! [`utils::ApiError`] saying how the single request failed.

pub mod config;
mod jsonwire;
mod transport;
pub mod utils;

use vstd::prelude::*;
use crate::utils::{call_addr, call_geo, spec_is_success, ApiError, GeoInfo};

verus! {

/// Return the callers IPv4 or IPv6 address.
pub fn get_ip() -> (r: Result<String, ApiError>)
    ensures
        r matches Err(ApiError::RemoteStatusError(s)) ==> !spec_is_success(s),
{
    let seeip_cfg = config::default_config();
    call_addr(seeip_cfg)
}

/// Return the callers IPv4 address.
pub fn get_ip_v4() -> (r: Result<String, ApiError>)
    ensures
        r matches Err(ApiError::RemoteStatusError(s)) ==> !spec_is_success(s),
{
    let seeip_cfg = config::ipv4_config();
    call_addr(seeip_cfg)
}

/// Return the callers IPv6 address.
pub fn get_ip_v6() -> (r: Result<String, ApiError>)
    ensures
        r matches Err(ApiError::RemoteStatusError(s)) ==> !spec_is_success(s),
{
    let seeip_cfg = config::ipv6_config();
    call_addr(seeip_cfg)
}

/// Return geographical info from the callers IPv4 or IPv6 address.
pub fn get_caller_geo() -> (r: Result<GeoInfo, ApiError>)
    ensures
        r matches Err(ApiError::RemoteStatusError(s)) ==> !spec_is_success(s),
{
    let seeip_cfg = config::geo_default_config();
    call_geo(seeip_cfg)
}

/// Return geographical info from the callers IPv4 address.
pub fn get_caller_geo_v4() -> (r: Result<GeoInfo, ApiError>)
    ensures
        r matches Err(ApiError::RemoteStatusError(s)) ==> !spec_is_success(s),
{
    let seeip_cfg = config::geo_ipv4_config();
    call_geo(seeip_cfg)
}

/// Return geographical info from the callers IPv6 address.
pub fn get_caller_geo_v6() -> (r: Result<GeoInfo, ApiError>)
    ensures
        r matches Err(ApiError::RemoteStatusError(s)) ==> !spec_is_success(s),
{
    let seeip_cfg = config::geo_ipv6_config();
    call_geo(seeip_cfg)
}

/// Return geographical info for a passed IPv4 or IPv6 address.
pub fn get_geo(ip_addr: &str) -> (r: Result<GeoInfo, ApiError>)
    ensures
        r matches Err(ApiError::RemoteStatusError(s)) ==> !spec_is_success(s),
{
    let seeip_cfg = config::geo_default_config();
    let ip_seeip_cfg = config::cfg_add_ip(seeip_cfg, ip_addr);
    call_geo(ip_seeip_cfg)
}

/// Return geographical info for a passed IPv4 address.
pub fn get_geo_v4(ip_addr: &str) -> (r: Result<GeoInfo, ApiError>)
    ensures
        r matches Err(ApiError::RemoteStatusError(s)) ==> !spec_is_success(s),
{
    let seeip_cfg = config::geo_ipv4_config();
    let ip_seeip_cfg = config::cfg_add_ip(seeip_cfg, ip_addr);
    call_geo(ip_seeip_cfg)
}

/// Return geographical info for a passed IPv6 address.
pub fn get_geo_v6(ip_addr: &str) -> (r: Result<GeoInfo, ApiError>)
    ensures
        r matches Err(ApiError::RemoteStatusError(s)) ==> !spec_is_success(s),
{
    let seeip_cfg = config::geo_ipv6_config();
    let ip_seeip_cfg = config::cfg_add_ip(seeip_cfg, ip_addr);
    call_geo(ip_seeip_cfg)
}

} // verus!
