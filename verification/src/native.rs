//! Writing every proxy setting in one transaction on the network preferences, without a process
//! of another program.

use crate::error::{Error, ErrorView};
use crate::parse::Settings;
use crate::property::{Dictionary, PropertyValue, PropertyView};
use crate::proxy::{AutoproxyView, ProxyConfig, ProxyConfigView, ProxyType, SysproxyView};
use crate::services::ActiveService;
use crate::system::{Action, ActionView, Reply, ReplyView, Step, StepView, Task};
use crate::{error, networksetup, property, text};
use vstd::prelude::*;
use vstd::string::*;

verus! {

/// A switch as a number.
pub open spec fn switch(enable: bool) -> PropertyView {
    PropertyView::Number(
        Some(
            if enable {
                1i32
            } else {
                0i32
            },
        ),
    )
}

/// Settings with the proxy of one protocol assigned.
pub open spec fn with_proxy(
    settings: Settings,
    proxy_type: ProxyType,
    host: Seq<char>,
    port: u16,
    enable: bool,
) -> Settings {
    settings.insert(proxy_type.host_key(), PropertyView::Text(host)).insert(
        proxy_type.port_key(),
        PropertyView::Number(Some(port as i32)),
    ).insert(proxy_type.enable_key(), switch(enable))
}

/// The bypass list as a settings value.
pub open spec fn exceptions(bypass: Seq<char>) -> PropertyView {
    PropertyView::List(
        networksetup::domains(bypass).map_values(|domain: Seq<char>| Some(domain)),
    )
}

/// Settings with the proxy of every protocol and the bypass list assigned.
pub open spec fn with_global(settings: Settings, proxy: SysproxyView) -> Settings {
    let http = with_proxy(settings, ProxyType::Http, proxy.host, proxy.port, proxy.enable);
    let https = with_proxy(http, ProxyType::Https, proxy.host, proxy.port, proxy.enable);
    let socks = with_proxy(https, ProxyType::Socks, proxy.host, proxy.port, proxy.enable);
    socks.insert("ExceptionsList"@, exceptions(proxy.bypass))
}

/// Settings with automatic configuration assigned.
pub open spec fn with_pac(settings: Settings, auto: AutoproxyView) -> Settings {
    settings.insert("ProxyAutoConfigURLString"@, PropertyView::Text(auto.url)).insert(
        "ProxyAutoConfigEnable"@,
        switch(auto.enable),
    )
}

/// Settings with a whole configuration assigned.
pub open spec fn with_config(settings: Settings, config: ProxyConfigView) -> Settings {
    with_pac(with_global(settings, config.system), config.auto)
}

/// Where a [`NativeProxyWriter`] stands.
#[derive(Debug)]
pub enum NativePhase {
    Finding(ActiveService),
    Locking(PropertyValue),
    CopyingService(PropertyValue),
    CopyingProtocol,
    /// Releasing the service, whether or not its protocol was found.
    ReleasingService { protocol: bool },
    Reading,
    Setting { keep_current: bool },
    Committing,
    Applying,
    Unlocking,
    /// Giving back the lock after a failure. A protocol that is still held is released after it.
    Abandoning { failed: &'static str, protocol: bool },
    /// Releasing the protocol, after a failure or after success.
    ReleasingProtocol { failure: Option<&'static str> },
}

/// What a [`NativePhase`] stands for.
pub enum NativePhaseView {
    Finding(ActiveService),
    Locking(PropertyView),
    CopyingService(PropertyView),
    CopyingProtocol,
    ReleasingService { protocol: bool },
    Reading,
    Setting { keep_current: bool },
    Committing,
    Applying,
    Unlocking,
    Abandoning { failed: Seq<char>, protocol: bool },
    ReleasingProtocol { failure: Option<Seq<char>> },
}

impl View for NativePhase {
    type V = NativePhaseView;

    open spec fn view(&self) -> NativePhaseView {
        match self {
            NativePhase::Finding(find) => NativePhaseView::Finding(*find),
            NativePhase::Locking(id) => NativePhaseView::Locking(id@),
            NativePhase::CopyingService(id) => NativePhaseView::CopyingService(id@),
            NativePhase::CopyingProtocol => NativePhaseView::CopyingProtocol,
            NativePhase::ReleasingService { protocol } => NativePhaseView::ReleasingService {
                protocol: *protocol,
            },
            NativePhase::Reading => NativePhaseView::Reading,
            NativePhase::Setting { keep_current } => NativePhaseView::Setting {
                keep_current: *keep_current,
            },
            NativePhase::Committing => NativePhaseView::Committing,
            NativePhase::Applying => NativePhaseView::Applying,
            NativePhase::Unlocking => NativePhaseView::Unlocking,
            NativePhase::Abandoning { failed, protocol } => NativePhaseView::Abandoning {
                failed: failed@,
                protocol: *protocol,
            },
            NativePhase::ReleasingProtocol { failure } => NativePhaseView::ReleasingProtocol {
                failure: match failure {
                    Some(what) => Some(what@),
                    None => None,
                },
            },
        }
    }
}

impl NativePhaseView {
    /// The action that a phase waits for.
    pub open spec fn wanted(self, config: Settings) -> ActionView {
        match self {
            NativePhaseView::Finding(find) => ActiveService::wanted(find),
            NativePhaseView::Locking(_) => ActionView::Lock,
            NativePhaseView::CopyingService(id) => ActionView::CopyService(id),
            NativePhaseView::CopyingProtocol => ActionView::CopyProtocol("Proxies"@),
            NativePhaseView::ReleasingService { .. } => ActionView::ReleaseService,
            NativePhaseView::Reading => ActionView::ReadConfiguration,
            NativePhaseView::Setting { keep_current } => ActionView::SetConfiguration {
                keep_current,
                assignments: config,
            },
            NativePhaseView::Committing => ActionView::CommitChanges,
            NativePhaseView::Applying => ActionView::ApplyChanges,
            NativePhaseView::Unlocking => ActionView::Unlock,
            NativePhaseView::Abandoning { .. } => ActionView::Unlock,
            NativePhaseView::ReleasingProtocol { .. } => ActionView::ReleaseProtocol,
        }
    }

    /// The phase after a failure that leaves the lock, and maybe the protocol, to be given back.
    pub open spec fn abandon(failed: Seq<char>, protocol: bool) -> StepView<
        NativePhaseView,
        Result<(), ErrorView>,
    > {
        StepView::Ask(NativePhaseView::Abandoning { failed, protocol })
    }

    /// Where the reply to its action takes a phase.
    pub open spec fn after(self, reply: ReplyView) -> StepView<
        NativePhaseView,
        Result<(), ErrorView>,
    > {
        match self {
            NativePhaseView::Finding(find) => match ActiveService::after(find, reply) {
                StepView::Ask(next) => StepView::Ask(NativePhaseView::Finding(next)),
                StepView::Done(Ok(id)) => StepView::Ask(NativePhaseView::Locking(id)),
                StepView::Done(Err(e)) => StepView::Done(Err(e)),
            },
            NativePhaseView::Locking(id) => if reply.accepted() {
                StepView::Ask(NativePhaseView::CopyingService(id))
            } else {
                StepView::Done(Err(ErrorView::SystemConfiguration("lock preferences"@)))
            },
            NativePhaseView::CopyingService(_) => if reply.accepted() {
                StepView::Ask(NativePhaseView::CopyingProtocol)
            } else {
                NativePhaseView::abandon("resolve active network service"@, false)
            },
            NativePhaseView::CopyingProtocol => StepView::Ask(
                NativePhaseView::ReleasingService { protocol: reply.accepted() },
            ),
            NativePhaseView::ReleasingService { protocol } => if protocol {
                StepView::Ask(NativePhaseView::Reading)
            } else {
                NativePhaseView::abandon("resolve proxy protocol"@, false)
            },
            NativePhaseView::Reading => StepView::Ask(
                NativePhaseView::Setting { keep_current: reply->Configuration_0 is Some },
            ),
            NativePhaseView::Setting { .. } => if reply.accepted() {
                StepView::Ask(NativePhaseView::Committing)
            } else {
                NativePhaseView::abandon("stage proxy configuration"@, true)
            },
            NativePhaseView::Committing => if reply.accepted() {
                StepView::Ask(NativePhaseView::Applying)
            } else {
                NativePhaseView::abandon("commit proxy configuration"@, true)
            },
            NativePhaseView::Applying => if reply.accepted() {
                StepView::Ask(NativePhaseView::Unlocking)
            } else {
                NativePhaseView::abandon("apply proxy configuration"@, true)
            },
            NativePhaseView::Unlocking => if reply.accepted() {
                StepView::Ask(NativePhaseView::ReleasingProtocol { failure: None })
            } else {
                NativePhaseView::abandon("unlock preferences"@, true)
            },
            NativePhaseView::Abandoning { failed, protocol } => if protocol {
                StepView::Ask(NativePhaseView::ReleasingProtocol { failure: Some(failed) })
            } else {
                StepView::Done(Err(ErrorView::SystemConfiguration(failed)))
            },
            NativePhaseView::ReleasingProtocol { failure } => match failure {
                Some(what) => StepView::Done(Err(ErrorView::SystemConfiguration(what))),
                None => StepView::Done(Ok(())),
            },
        }
    }
}

/// A transaction on the preferences: the assignments to make, and how far it came.
#[derive(Debug)]
pub struct NativeProxyWriter {
    pub config: Dictionary,
    pub phase: NativePhase,
}

/// What a [`NativeProxyWriter`] stands for.
pub struct NativeProxyWriterView {
    pub config: Settings,
    pub phase: NativePhaseView,
}

impl View for NativeProxyWriter {
    type V = NativeProxyWriterView;

    open spec fn view(&self) -> NativeProxyWriterView {
        NativeProxyWriterView { config: self.config@, phase: self.phase@ }
    }
}

impl NativeProxyWriter {
    /// A transaction that is about to look for the active service, with nothing to assign.
    pub fn open() -> (writer: NativeProxyWriter)
        ensures
            writer@ == (NativeProxyWriterView {
                config: Map::empty(),
                phase: NativePhaseView::Finding(ActiveService::Opening),
            }),
    {
        NativeProxyWriter {
            config: Dictionary::new(),
            phase: NativePhase::Finding(ActiveService::Opening),
        }
    }

    /// Assigns a number.
    pub fn set_number(&mut self, key: &'static str, value: i32)
        ensures
            final(self)@ == (NativeProxyWriterView {
                config: old(self)@.config.insert(key@, PropertyView::Number(Some(value))),
                ..old(self)@
            }),
    {
        self.config.set(key.to_owned(), PropertyValue::Number(Some(value)));
    }

    /// Assigns a text.
    pub fn set_string(&mut self, key: &'static str, value: &str)
        ensures
            final(self)@ == (NativeProxyWriterView {
                config: old(self)@.config.insert(key@, PropertyView::Text(value@)),
                ..old(self)@
            }),
    {
        self.config.set(key.to_owned(), PropertyValue::Text(value.to_owned()));
    }

    /// Assigns a switch.
    fn set_switch(&mut self, key: &'static str, enable: bool)
        ensures
            final(self)@ == (NativeProxyWriterView {
                config: old(self)@.config.insert(key@, switch(enable)),
                ..old(self)@
            }),
    {
        let value: i32 = if enable {
            1
        } else {
            0
        };
        self.set_number(key, value);
    }

    /// Assigns the proxy of one protocol.
    fn set_one(&mut self, proxy_type: ProxyType, host: &str, port: u16, enable: bool)
        ensures
            final(self)@ == (NativeProxyWriterView {
                config: with_proxy(old(self)@.config, proxy_type, host@, port, enable),
                ..old(self)@
            }),
    {
        self.set_string(proxy_type.as_host(), host);
        self.set_number(proxy_type.as_port(), port as i32);
        self.set_switch(proxy_type.as_enable(), enable);
    }

    /// Assigns one proxy to every protocol, and the bypass list.
    pub fn set_global(&mut self, host: &str, port: u16, bypass: &str, enable: bool)
        ensures
            final(self)@ == (NativeProxyWriterView {
                config: with_global(
                    old(self)@.config,
                    SysproxyView { enable, host: host@, port, bypass: bypass@ },
                ),
                ..old(self)@
            }),
    {
        self.set_one(ProxyType::Http, host, port, enable);
        self.set_one(ProxyType::Https, host, port, enable);
        self.set_one(ProxyType::Socks, host, port, enable);
        let domains = networksetup::split_domains(bypass);
        let mut items: Vec<Option<String>> = Vec::new();
        let mut i: usize = 0;
        while i < domains.len()
            invariant
                i == items.len() <= domains.len(),
                forall|j: int| 0 <= j < i ==> #[trigger] items@[j] == Some(domains@[j]),
            decreases domains.len() - i,
        {
            items.push(Some(domains[i].clone()));
            i = i + 1;
        }
        proof {
            assert(items@.map_values(|item: Option<String>| property::optional_text(item))
                =~= text::texts(domains@).map_values(|domain: Seq<char>| Some(domain)));
        }
        self.config.set("ExceptionsList".to_owned(), PropertyValue::List(items));
    }

    /// Assigns automatic configuration.
    pub fn set_pac(&mut self, url: &str, enable: bool)
        ensures
            final(self)@ == (NativeProxyWriterView {
                config: with_pac(old(self)@.config, AutoproxyView { enable, url: url@ }),
                ..old(self)@
            }),
    {
        self.set_string("ProxyAutoConfigURLString", url);
        self.set_switch("ProxyAutoConfigEnable", enable);
    }

    /// Assigns a whole configuration.
    pub fn stage(&mut self, config: &ProxyConfig)
        ensures
            final(self)@ == (NativeProxyWriterView {
                config: with_config(old(self)@.config, config@),
                ..old(self)@
            }),
    {
        let (system, auto) = config.components();
        self.set_global(system.host.as_str(), system.port, system.bypass.as_str(), system.enable);
        self.set_pac(auto.url.as_str(), auto.enable);
    }
}

impl Task for NativeProxyWriter {
    type Output = Result<(), Error>;

    type Seen = Result<(), ErrorView>;

    open spec fn seen(output: Result<(), Error>) -> Result<(), ErrorView> {
        error::outcome(output)
    }

    open spec fn wanted(state: NativeProxyWriterView) -> ActionView {
        state.phase.wanted(state.config)
    }

    open spec fn after(state: NativeProxyWriterView, reply: ReplyView) -> StepView<
        NativeProxyWriterView,
        Result<(), ErrorView>,
    > {
        match state.phase.after(reply) {
            StepView::Ask(phase) => StepView::Ask(
                NativeProxyWriterView { config: state.config, phase },
            ),
            StepView::Done(result) => StepView::Done(result),
        }
    }

    fn action(&self) -> (action: Action) {
        match &self.phase {
            NativePhase::Finding(find) => find.action(),
            NativePhase::Locking(_) => Action::Lock,
            NativePhase::CopyingService(id) => Action::CopyService(id.clone()),
            NativePhase::CopyingProtocol => Action::CopyProtocol("Proxies".to_owned()),
            NativePhase::ReleasingService { .. } => Action::ReleaseService,
            NativePhase::Reading => Action::ReadConfiguration,
            NativePhase::Setting { keep_current } => Action::SetConfiguration {
                keep_current: *keep_current,
                assignments: self.config.clone(),
            },
            NativePhase::Committing => Action::CommitChanges,
            NativePhase::Applying => Action::ApplyChanges,
            NativePhase::Unlocking => Action::Unlock,
            NativePhase::Abandoning { .. } => Action::Unlock,
            NativePhase::ReleasingProtocol { .. } => Action::ReleaseProtocol,
        }
    }

    fn reply(self, reply: Reply) -> (step: Step<NativeProxyWriter, Result<(), Error>>) {
        let config = self.config;
        let accepted = reply.accepted();
        let phase = match self.phase {
            NativePhase::Finding(find) => match find.reply(reply) {
                Step::Ask(next) => NativePhase::Finding(next),
                Step::Done(Ok(id)) => NativePhase::Locking(id),
                Step::Done(Err(e)) => {
                    return Step::Done(Err(e));
                },
            },
            NativePhase::Locking(id) => {
                if !accepted {
                    return Step::Done(Err(Error::SystemConfiguration("lock preferences")));
                }
                NativePhase::CopyingService(id)
            },
            NativePhase::CopyingService(_) => if accepted {
                NativePhase::CopyingProtocol
            } else {
                NativePhase::Abandoning { failed: "resolve active network service", protocol: false }
            },
            NativePhase::CopyingProtocol => NativePhase::ReleasingService { protocol: accepted },
            NativePhase::ReleasingService { protocol } => if protocol {
                NativePhase::Reading
            } else {
                NativePhase::Abandoning { failed: "resolve proxy protocol", protocol: false }
            },
            NativePhase::Reading => match reply {
                Reply::Configuration(current) => NativePhase::Setting {
                    keep_current: current.is_some(),
                },
                _ => vstd::pervasive::unreached(),
            },
            NativePhase::Setting { .. } => if accepted {
                NativePhase::Committing
            } else {
                NativePhase::Abandoning { failed: "stage proxy configuration", protocol: true }
            },
            NativePhase::Committing => if accepted {
                NativePhase::Applying
            } else {
                NativePhase::Abandoning { failed: "commit proxy configuration", protocol: true }
            },
            NativePhase::Applying => if accepted {
                NativePhase::Unlocking
            } else {
                NativePhase::Abandoning { failed: "apply proxy configuration", protocol: true }
            },
            NativePhase::Unlocking => if accepted {
                NativePhase::ReleasingProtocol { failure: None }
            } else {
                NativePhase::Abandoning { failed: "unlock preferences", protocol: true }
            },
            NativePhase::Abandoning { failed, protocol } => {
                if !protocol {
                    return Step::Done(Err(Error::SystemConfiguration(failed)));
                }
                NativePhase::ReleasingProtocol { failure: Some(failed) }
            },
            NativePhase::ReleasingProtocol { failure } => {
                match failure {
                    Some(what) => {
                        return Step::Done(Err(Error::SystemConfiguration(what)));
                    },
                    None => {
                        return Step::Done(Ok(()));
                    },
                }
            },
        };
        Step::Ask(NativeProxyWriter { config, phase })
    }
}

/// Starts to write a whole configuration to the active service, as one transaction.
///
/// No authorization is asked for: the caller must have permission to write network preferences.
pub fn apply_privileged_native(config: &ProxyConfig) -> (step: Step<
    NativeProxyWriter,
    Result<(), Error>,
>)
    ensures
        step matches Step::Ask(task) && task@ == (NativeProxyWriterView {
            config: with_config(Map::empty(), config@),
            phase: NativePhaseView::Finding(ActiveService::Opening),
        }),
{
    let mut writer = NativeProxyWriter::open();
    writer.stage(config);
    Step::Ask(writer)
}

} // verus!
