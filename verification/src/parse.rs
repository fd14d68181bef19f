//! Reading proxy settings out of a service's settings dictionary.

use crate::error::Error;
use crate::property::{Dictionary, PropertyValue, PropertyView};
use crate::proxy::{
    Autoproxy, AutoproxyView, ProxyEndpoint, ProxyEndpointView, ProxySnapshot, ProxySnapshotView,
    ProxyType, Sysproxy, SysproxyView,
};
use crate::{error, property, text};
use vstd::prelude::*;
use vstd::string::*;

verus! {

/// A settings dictionary.
pub type Settings = Map<Seq<char>, PropertyView>;

/// The number under `key`, where there is one and it is a 32-bit integer.
pub open spec fn number_at(settings: Settings, key: Seq<char>) -> Option<i32> {
    if settings.contains_key(key) {
        match settings[key] {
            PropertyView::Number(n) => n,
            _ => None,
        }
    } else {
        None
    }
}

/// The text under `key`; empty where there is none.
pub open spec fn text_at(settings: Settings, key: Seq<char>) -> Seq<char> {
    if settings.contains_key(key) {
        match settings[key] {
            PropertyView::Text(s) => s,
            _ => Seq::empty(),
        }
    } else {
        Seq::empty()
    }
}

/// Whether a number other than zero stands under `key`.
pub open spec fn flag_at(settings: Settings, key: Seq<char>) -> bool {
    number_at(settings, key) matches Some(n) && n != 0
}

/// The port under `key`; zero where there is no number or it is no port.
pub open spec fn port_at(settings: Settings, key: Seq<char>) -> u16 {
    match number_at(settings, key) {
        Some(n) => if 0 <= n <= u16::MAX {
            n as u16
        } else {
            0
        },
        None => 0,
    }
}

/// The texts among the items of a list, in order.
pub open spec fn present(items: Seq<Option<Seq<char>>>) -> Seq<Seq<char>>
    decreases items.len(),
{
    if items.len() == 0 {
        Seq::empty()
    } else {
        match items.last() {
            Some(s) => present(items.drop_last()).push(s),
            None => present(items.drop_last()),
        }
    }
}

/// The hosts that bypass the proxy.
pub open spec fn bypass_list(settings: Settings) -> Seq<Seq<char>> {
    if settings.contains_key("ExceptionsList"@) {
        match settings["ExceptionsList"@] {
            PropertyView::List(items) => present(items),
            _ => Seq::empty(),
        }
    } else {
        Seq::empty()
    }
}

/// The hosts that bypass the proxy, separated by commas.
pub open spec fn bypass_text(settings: Settings) -> Seq<char> {
    text::joined(bypass_list(settings), ","@)
}

/// The proxy of one protocol: enabled where it is switched on and has a host and a port.
pub open spec fn proxy_at(settings: Settings, proxy_type: ProxyType) -> SysproxyView {
    let host = text_at(settings, proxy_type.host_key());
    let port = port_at(settings, proxy_type.port_key());
    SysproxyView {
        enable: flag_at(settings, proxy_type.enable_key()) && host.len() > 0 && port != 0,
        host,
        port,
        bypass: Seq::empty(),
    }
}

/// The address of the PAC script, where a pair of quotation marks stands for none.
pub open spec fn pac_url(settings: Settings) -> Seq<char> {
    let url = text_at(settings, "ProxyAutoConfigURLString"@);
    if url == "\"\""@ {
        Seq::empty()
    } else {
        url
    }
}

/// Automatic configuration: enabled where it is switched on and has an address.
pub open spec fn auto_at(settings: Settings) -> AutoproxyView {
    let url = pac_url(settings);
    AutoproxyView {
        enable: flag_at(settings, "ProxyAutoConfigEnable"@) && url.len() > 0,
        url,
    }
}

/// The proxy in use: that of SOCKS, or else HTTPS, or else HTTP, whichever is the first enabled
/// one. Where none is enabled the settings of SOCKS are shown.
pub open spec fn system_proxy(settings: Settings) -> SysproxyView {
    let socks = proxy_at(settings, ProxyType::Socks);
    let https = proxy_at(settings, ProxyType::Https);
    let http = proxy_at(settings, ProxyType::Http);
    let used = if socks.enable {
        socks
    } else if https.enable {
        https
    } else if http.enable {
        http
    } else {
        socks
    };
    SysproxyView { bypass: bypass_text(settings), ..used }
}

/// The proxy of one protocol, with its switch kept apart from its usability.
pub open spec fn endpoint_at(settings: Settings, proxy_type: ProxyType) -> ProxyEndpointView {
    let proxy = proxy_at(settings, proxy_type);
    ProxyEndpointView {
        host: proxy.host,
        port: proxy.port,
        enable: proxy.enable,
        switched_on: flag_at(settings, proxy_type.enable_key()),
    }
}

/// Every proxy setting of a dictionary.
pub open spec fn snapshot_of(settings: Settings) -> ProxySnapshotView {
    ProxySnapshotView {
        socks: endpoint_at(settings, ProxyType::Socks),
        http: endpoint_at(settings, ProxyType::Http),
        https: endpoint_at(settings, ProxyType::Https),
        auto: auto_at(settings),
        auto_switched_on: flag_at(settings, "ProxyAutoConfigEnable"@),
        bypass: bypass_text(settings),
    }
}

/// Reads a 32-bit integer.
fn read_number(dict: &Dictionary, key: &str) -> (number: Option<i32>)
    ensures
        number == number_at(dict@, key@),
{
    match dict.find(key) {
        Some(PropertyValue::Number(n)) => *n,
        _ => None,
    }
}

/// Reads a switch.
pub fn read_bool_flag(dict: &Dictionary, key: &str) -> (flag: bool)
    ensures
        flag == flag_at(dict@, key@),
{
    match read_number(dict, key) {
        Some(n) => n != 0,
        None => false,
    }
}

/// Reads a port.
pub fn read_port(dict: &Dictionary, key: &str) -> (port: u16)
    ensures
        port == port_at(dict@, key@),
{
    match read_number(dict, key) {
        Some(n) => if 0 <= n && n <= u16::MAX as i32 {
            n as u16
        } else {
            0
        },
        None => 0,
    }
}

/// Reads a text, such as a host name.
pub fn read_host(dict: &Dictionary, key: &str) -> (host: String)
    ensures
        host@ == text_at(dict@, key@),
{
    match dict.find(key) {
        Some(PropertyValue::Text(s)) => s.clone(),
        _ => String::new(),
    }
}

/// Reads the proxy of one protocol. The bypass list is left empty.
pub fn parse_proxies_from_dict(dict: &Dictionary, proxy_type: ProxyType) -> (proxy: Result<
    Sysproxy,
    Error,
>)
    ensures
        error::outcome(proxy) == Ok::<_, error::ErrorView>(proxy_at(dict@, proxy_type)),
{
    let switched_on = read_bool_flag(dict, proxy_type.as_enable());
    let port = read_port(dict, proxy_type.as_port());
    let host = read_host(dict, proxy_type.as_host());
    let enable = switched_on && !host.as_str().is_empty() && port != 0;
    Ok(Sysproxy { enable, host, port, bypass: String::new() })
}

/// Reads the automatic configuration.
pub fn parse_proxyauto_from_dict(dict: &Dictionary) -> (auto: Result<Autoproxy, Error>)
    ensures
        error::outcome(auto) == Ok::<_, error::ErrorView>(auto_at(dict@)),
{
    let switched_on = read_bool_flag(dict, "ProxyAutoConfigEnable");
    let url = read_host(dict, "ProxyAutoConfigURLString");
    let url = if text::same_text(url.as_str(), "\"\"") {
        String::new()
    } else {
        url
    };
    let enable = switched_on && !url.as_str().is_empty();
    Ok(Autoproxy { enable, url })
}

/// Reads the hosts that bypass the proxy; items that are no texts are passed over.
pub fn parse_bypass_from_dict(dict: &Dictionary) -> (hosts: Result<Vec<String>, Error>)
    ensures
        hosts matches Ok(list) && text::texts(list@) == bypass_list(dict@),
{
    let mut hosts: Vec<String> = Vec::new();
    if let Some(PropertyValue::List(items)) = dict.find("ExceptionsList") {
        let ghost all = items@.map_values(|item: Option<String>| property::optional_text(item));
        proof {
            assert(all.take(0) == Seq::<Option<Seq<char>>>::empty());
            assert(text::texts(hosts@) =~= present(all.take(0)));
        }
        let mut i: usize = 0;
        while i < items.len()
            invariant
                i <= items.len(),
                all == items@.map_values(|item: Option<String>| property::optional_text(item)),
                text::texts(hosts@) == present(all.take(i as int)),
            decreases items.len() - i,
        {
            let ghost before = text::texts(hosts@);
            proof {
                assert(all.take(i + 1).drop_last() == all.take(i as int));
                assert(all.take(i + 1).last() == all[i as int]);
            }
            if let Some(host) = &items[i] {
                hosts.push(host.clone());
                proof {
                    assert(text::texts(hosts@) =~= before.push(host@));
                }
            }
            i = i + 1;
        }
        proof {
            assert(all.take(i as int) == all);
        }
    } else {
        proof {
            assert(text::texts(hosts@) =~= Seq::<Seq<char>>::empty());
        }
    }
    Ok(hosts)
}

/// Reads the hosts that bypass the proxy as a comma-separated list.
pub fn read_bypass(dict: &Dictionary) -> (bypass: Result<String, Error>)
    ensures
        error::outcome(bypass) == Ok::<_, error::ErrorView>(bypass_text(dict@)),
{
    let hosts = parse_bypass_from_dict(dict)?;
    Ok(text::join(&hosts, ","))
}

/// Reads the proxy of one protocol, with its switch apart from its usability.
pub fn read_endpoint(dict: &Dictionary, proxy_type: ProxyType) -> (endpoint: Result<
    ProxyEndpoint,
    Error,
>)
    ensures
        error::outcome(endpoint) == Ok::<_, error::ErrorView>(endpoint_at(dict@, proxy_type)),
{
    let switched_on = read_bool_flag(dict, proxy_type.as_enable());
    let parsed = parse_proxies_from_dict(dict, proxy_type)?;
    Ok(
        ProxyEndpoint {
            host: parsed.host,
            port: parsed.port,
            enable: parsed.enable,
            switched_on,
        },
    )
}

/// Reads the proxy in use.
pub fn read_system_proxy(dict: &Dictionary) -> (proxy: Result<Sysproxy, Error>)
    ensures
        error::outcome(proxy) == Ok::<_, error::ErrorView>(system_proxy(dict@)),
{
    let mut socks = parse_proxies_from_dict(dict, ProxyType::Socks)?;
    let http = parse_proxies_from_dict(dict, ProxyType::Http)?;
    let https = parse_proxies_from_dict(dict, ProxyType::Https)?;
    socks.bypass = read_bypass(dict)?;
    if !socks.enable {
        if http.enable {
            socks.enable = true;
            socks.host = http.host;
            socks.port = http.port;
        }
        if https.enable {
            socks.enable = true;
            socks.host = https.host;
            socks.port = https.port;
        }
    }
    Ok(socks)
}

/// Reads every proxy setting.
pub fn read_snapshot(dict: &Dictionary) -> (snapshot: Result<ProxySnapshot, Error>)
    ensures
        error::outcome(snapshot) == Ok::<_, error::ErrorView>(snapshot_of(dict@)),
{
    Ok(
        ProxySnapshot {
            socks: read_endpoint(dict, ProxyType::Socks)?,
            http: read_endpoint(dict, ProxyType::Http)?,
            https: read_endpoint(dict, ProxyType::Https)?,
            auto: parse_proxyauto_from_dict(dict)?,
            auto_switched_on: read_bool_flag(dict, "ProxyAutoConfigEnable"),
            bypass: read_bypass(dict)?,
        },
    )
}

} // verus!
