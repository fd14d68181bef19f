//! The proxy settings and the names that they go by.

use vstd::prelude::*;

verus! {

/// The protocols that have a proxy of their own.
#[derive(Debug, Clone, Copy, PartialEq, Eq, Structural)]
pub enum ProxyType {
    Http,
    Https,
    Socks,
}

/// One manual proxy, with the hosts that bypass it as a comma-separated list.
#[derive(Debug, PartialEq, Eq)]
pub struct Sysproxy {
    pub enable: bool,
    pub host: String,
    pub port: u16,
    pub bypass: String,
}

/// What a [`Sysproxy`] stands for.
pub struct SysproxyView {
    pub enable: bool,
    pub host: Seq<char>,
    pub port: u16,
    pub bypass: Seq<char>,
}

/// Automatic proxy configuration by a PAC script.
#[derive(Debug, PartialEq, Eq)]
pub struct Autoproxy {
    pub enable: bool,
    pub url: String,
}

/// What an [`Autoproxy`] stands for.
pub struct AutoproxyView {
    pub enable: bool,
    pub url: Seq<char>,
}

/// The proxy of one protocol as it is configured.
#[derive(Debug, PartialEq, Eq)]
pub struct ProxyEndpoint {
    pub host: String,
    pub port: u16,
    /// Switched on, and with a host and a port to use.
    pub enable: bool,
    /// Switched on, usable or not.
    pub switched_on: bool,
}

/// What a [`ProxyEndpoint`] stands for.
pub struct ProxyEndpointView {
    pub host: Seq<char>,
    pub port: u16,
    pub enable: bool,
    pub switched_on: bool,
}

/// Every proxy setting of one service at one time.
#[derive(Debug, PartialEq, Eq)]
pub struct ProxySnapshot {
    pub socks: ProxyEndpoint,
    pub http: ProxyEndpoint,
    pub https: ProxyEndpoint,
    pub auto: Autoproxy,
    /// PAC is switched on, usable or not.
    pub auto_switched_on: bool,
    pub bypass: String,
}

/// What a [`ProxySnapshot`] stands for.
pub struct ProxySnapshotView {
    pub socks: ProxyEndpointView,
    pub http: ProxyEndpointView,
    pub https: ProxyEndpointView,
    pub auto: AutoproxyView,
    pub auto_switched_on: bool,
    pub bypass: Seq<char>,
}

/// The wanted state: one manual proxy for every protocol, and PAC.
#[derive(Debug, PartialEq, Eq)]
pub struct ProxyConfig {
    pub system: Sysproxy,
    pub auto: Autoproxy,
}

/// What a [`ProxyConfig`] stands for.
pub struct ProxyConfigView {
    pub system: SysproxyView,
    pub auto: AutoproxyView,
}

impl View for Sysproxy {
    type V = SysproxyView;

    open spec fn view(&self) -> SysproxyView {
        SysproxyView {
            enable: self.enable,
            host: self.host@,
            port: self.port,
            bypass: self.bypass@,
        }
    }
}

impl View for Autoproxy {
    type V = AutoproxyView;

    open spec fn view(&self) -> AutoproxyView {
        AutoproxyView { enable: self.enable, url: self.url@ }
    }
}

impl View for ProxyEndpoint {
    type V = ProxyEndpointView;

    open spec fn view(&self) -> ProxyEndpointView {
        ProxyEndpointView {
            host: self.host@,
            port: self.port,
            enable: self.enable,
            switched_on: self.switched_on,
        }
    }
}

impl View for ProxySnapshot {
    type V = ProxySnapshotView;

    open spec fn view(&self) -> ProxySnapshotView {
        ProxySnapshotView {
            socks: self.socks@,
            http: self.http@,
            https: self.https@,
            auto: self.auto@,
            auto_switched_on: self.auto_switched_on,
            bypass: self.bypass@,
        }
    }
}

impl View for ProxyConfig {
    type V = ProxyConfigView;

    open spec fn view(&self) -> ProxyConfigView {
        ProxyConfigView { system: self.system@, auto: self.auto@ }
    }
}

impl Clone for Sysproxy {
    fn clone(&self) -> (copy: Sysproxy)
        ensures
            copy@ == self@,
    {
        Sysproxy {
            enable: self.enable,
            host: self.host.clone(),
            port: self.port,
            bypass: self.bypass.clone(),
        }
    }
}

impl Clone for Autoproxy {
    fn clone(&self) -> (copy: Autoproxy)
        ensures
            copy@ == self@,
    {
        Autoproxy { enable: self.enable, url: self.url.clone() }
    }
}

impl ProxyConfig {
    /// The manual and the automatic part.
    pub fn components(&self) -> (parts: (&Sysproxy, &Autoproxy))
        ensures
            parts.0@ == self@.system,
            parts.1@ == self@.auto,
    {
        (&self.system, &self.auto)
    }
}

impl ProxyType {
    /// The settings key of the switch.
    pub open spec fn enable_key(self) -> Seq<char> {
        match self {
            ProxyType::Http => "HTTPEnable"@,
            ProxyType::Https => "HTTPSEnable"@,
            ProxyType::Socks => "SOCKSEnable"@,
        }
    }

    /// The settings key of the host.
    pub open spec fn host_key(self) -> Seq<char> {
        match self {
            ProxyType::Http => "HTTPProxy"@,
            ProxyType::Https => "HTTPSProxy"@,
            ProxyType::Socks => "SOCKSProxy"@,
        }
    }

    /// The settings key of the port.
    pub open spec fn port_key(self) -> Seq<char> {
        match self {
            ProxyType::Http => "HTTPPort"@,
            ProxyType::Https => "HTTPSPort"@,
            ProxyType::Socks => "SOCKSPort"@,
        }
    }

    /// The `networksetup` option that sets host and port.
    pub open spec fn set_option(self) -> Seq<char> {
        match self {
            ProxyType::Http => "-setwebproxy"@,
            ProxyType::Https => "-setsecurewebproxy"@,
            ProxyType::Socks => "-setsocksfirewallproxy"@,
        }
    }

    /// The `networksetup` option that turns the switch.
    pub open spec fn state_option(self) -> Seq<char> {
        match self {
            ProxyType::Http => "-setwebproxystate"@,
            ProxyType::Https => "-setsecurewebproxystate"@,
            ProxyType::Socks => "-setsocksfirewallproxystate"@,
        }
    }

    pub fn as_enable(&self) -> (key: &'static str)
        ensures
            key@ == self.enable_key(),
    {
        match self {
            ProxyType::Http => "HTTPEnable",
            ProxyType::Https => "HTTPSEnable",
            ProxyType::Socks => "SOCKSEnable",
        }
    }

    pub fn as_host(&self) -> (key: &'static str)
        ensures
            key@ == self.host_key(),
    {
        match self {
            ProxyType::Http => "HTTPProxy",
            ProxyType::Https => "HTTPSProxy",
            ProxyType::Socks => "SOCKSProxy",
        }
    }

    pub fn as_port(&self) -> (key: &'static str)
        ensures
            key@ == self.port_key(),
    {
        match self {
            ProxyType::Http => "HTTPPort",
            ProxyType::Https => "HTTPSPort",
            ProxyType::Socks => "SOCKSPort",
        }
    }

    pub fn as_set_str(&self) -> (option: &'static str)
        ensures
            option@ == self.set_option(),
    {
        match self {
            ProxyType::Http => "-setwebproxy",
            ProxyType::Https => "-setsecurewebproxy",
            ProxyType::Socks => "-setsocksfirewallproxy",
        }
    }

    pub fn as_state_cmd(&self) -> (option: &'static str)
        ensures
            option@ == self.state_option(),
    {
        match self {
            ProxyType::Http => "-setwebproxystate",
            ProxyType::Https => "-setsecurewebproxystate",
            ProxyType::Socks => "-setsocksfirewallproxystate",
        }
    }
}

} // verus!
