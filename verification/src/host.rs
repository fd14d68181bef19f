//! What the operations come to on a host that answers faithfully: one with a dynamic store, network
//! services and preferences that keep what is saved in them.

use crate::error::ErrorView;
use crate::laws;
use crate::native::{NativePhaseView, NativeProxyWriter, NativeProxyWriterView};
use crate::networksetup::{CommandRun, CommandRunView, WriteSequence};
use crate::parse::Settings;
use crate::property::PropertyView;
use crate::preferences::LockProbe;
use crate::proxy::{AutoproxyView, ProxyConfigView, ProxyType, SysproxyView};
use crate::read::{Goal, Reading, ReadingView};
use crate::services::{
    ActiveService, DictionaryRead, DictionaryReadView, ProxiesQuery, ProxiesQueryView,
    ResolveProxies, ResolveProxiesView, ServiceName, ServiceNameView,
};
use crate::system::{
    ActionView, CommandOutputView, NetworkServiceView, ReplyView, StepView, StoreView, Task,
};
use crate::write::{ActiveWrite, ActiveWriteView, TargetView};
use crate::{native, networksetup, read, services};
use vstd::prelude::*;

verus! {

/// A network service of the preferences.
pub struct HostService {
    pub name: Option<Seq<char>>,
    /// The proxy protocol, where the service has one, and its configuration, where it has been
    /// configured.
    pub proxies: Option<Option<Settings>>,
}

/// A host.
pub struct Host {
    /// The dynamic store, where it can be opened.
    pub store: Option<Map<Seq<char>, StoreView>>,
    pub listed: Seq<NetworkServiceView>,
    /// The services that can be copied, by what is taken as their id.
    pub services: Map<PropertyView, HostService>,
    /// Whether the host lets the preferences be locked, unlocked, set, saved and put into effect.
    pub lock: bool,
    pub unlock: bool,
    pub set: bool,
    pub commit: bool,
    pub apply: bool,
    /// What running `networksetup` comes to.
    pub run: spec_fn(Seq<Seq<char>>) -> Result<CommandOutputView, std::io::Error>,
    /// The service that was copied last.
    pub copied: PropertyView,
    /// The configuration of its proxy protocol that waits to be saved.
    pub staged: Settings,
}

/// The value of a key, where it has one.
pub open spec fn lookup<K, V>(map: Map<K, V>, key: K) -> Option<V> {
    if map.contains_key(key) {
        Some(map[key])
    } else {
        None
    }
}

impl Host {
    /// The configuration of the copied service's proxies, where there is one.
    pub open spec fn configuration(self) -> Option<Settings> {
        match lookup(self.services, self.copied) {
            Some(HostService { proxies: Some(configuration), .. }) => configuration,
            _ => None,
        }
    }

    /// The reply to an action.
    pub open spec fn answer(self, action: ActionView) -> ReplyView {
        match action {
            ActionView::OpenStore => ReplyView::Answer(self.store is Some),
            ActionView::ReadStore(key) => ReplyView::Stored(
                match self.store {
                    Some(store) => lookup(store, key),
                    None => None,
                },
            ),
            ActionView::ListServices => ReplyView::Services(self.listed),
            ActionView::CopyService(id) => ReplyView::Answer(self.services.contains_key(id)),
            ActionView::ReadServiceName => ReplyView::Name(self.services[self.copied].name),
            ActionView::CopyProtocol(name) => ReplyView::Answer(
                name == "Proxies"@ && self.services[self.copied].proxies is Some,
            ),
            ActionView::ReadConfiguration => ReplyView::Configuration(self.configuration()),
            ActionView::ReleaseService | ActionView::ReleaseProtocol => ReplyView::Released,
            ActionView::Lock => ReplyView::Answer(self.lock),
            ActionView::Unlock => ReplyView::Answer(self.unlock),
            ActionView::SetConfiguration { .. } => ReplyView::Answer(self.set),
            ActionView::CommitChanges => ReplyView::Answer(self.commit),
            ActionView::ApplyChanges => ReplyView::Answer(self.apply),
            ActionView::Run(args) => ReplyView::Ran((self.run)(args)),
        }
    }

    /// The host after an action.
    pub open spec fn after(self, action: ActionView) -> Host {
        match action {
            ActionView::CopyService(id) => Host { copied: id, ..self },
            ActionView::SetConfiguration { keep_current, assignments } => {
                let base = match self.configuration() {
                    Some(current) => if keep_current {
                        current
                    } else {
                        Map::empty()
                    },
                    None => Map::empty(),
                };
                if self.set {
                    Host { staged: base.union_prefer_right(assignments), ..self }
                } else {
                    self
                }
            },
            ActionView::CommitChanges => if self.commit {
                Host {
                    services: self.services.insert(
                        self.copied,
                        HostService {
                            proxies: Some(Some(self.staged)),
                            ..self.services[self.copied]
                        },
                    ),
                    ..self
                }
            } else {
                self
            },
            _ => self,
        }
    }

    /// The id of the active service.
    pub open spec fn active_id(self) -> Result<PropertyView, ErrorView> {
        match self.store {
            Some(store) => services::primary_service(lookup(store, services::global_key())),
            None => Err(ErrorView::SCDynamicStore),
        }
    }

    /// The name of the active service.
    pub open spec fn active_name(self) -> Result<Seq<char>, ErrorView> {
        match self.active_id() {
            Ok(id) => match lookup(self.services, id) {
                Some(service) => services::text_or(service.name, ErrorView::NetworkInterface),
                None => Err(ErrorView::NetworkInterface),
            },
            Err(e) => Err(e),
        }
    }

    /// The settings that the preferences hold of a service.
    pub open spec fn saved_settings(self, id: PropertyView) -> Result<Settings, ErrorView> {
        match lookup(self.services, id) {
            Some(HostService { proxies: Some(Some(settings)), .. }) => Ok(settings),
            _ => Err(ErrorView::SCPreferences),
        }
    }

    /// The settings that the dynamic store holds of a service.
    pub open spec fn stored_settings(self, id: PropertyView) -> Result<Settings, ErrorView> {
        match (self.store, id) {
            (None, _) => Err(ErrorView::SCDynamicStore),
            (Some(store), PropertyView::Text(name)) => services::stored_settings(
                lookup(store, services::setup_key(name)),
            ),
            (Some(_), _) => services::stored_settings(None),
        }
    }

    /// The settings of a service: those of the preferences, or else those of the dynamic store.
    pub open spec fn settings_of(self, id: PropertyView) -> Result<Settings, ErrorView> {
        match self.saved_settings(id) {
            Ok(settings) => Ok(settings),
            Err(_) => self.stored_settings(id),
        }
    }

    /// The settings of the active service.
    pub open spec fn active_settings(self) -> Result<Settings, ErrorView> {
        match self.active_id() {
            Ok(id) => self.settings_of(id),
            Err(e) => Err(e),
        }
    }

    /// The settings of the service whose interface goes by `name`.
    pub open spec fn named_settings(self, name: Seq<char>) -> Result<Settings, ErrorView> {
        match services::first_named(self.listed, name) {
            Some(id) => self.saved_settings(PropertyView::Text(id)),
            None => Err(ErrorView::NetworkInterface),
        }
    }
}

/// Where a host takes a task, and where the task takes the host, with `fuel` actions at most.
pub open spec fn played<T: Task>(
    step: StepView<T::V, T::Seen>,
    host: Host,
    fuel: nat,
) -> (StepView<T::V, T::Seen>, Host)
    decreases fuel,
{
    match step {
        StepView::Ask(state) => if fuel == 0 {
            (step, host)
        } else {
            let action = T::wanted(state);
            played::<T>(
                T::after(state, host.answer(action)),
                host.after(action),
                (fuel - 1) as nat,
            )
        },
        StepView::Done(_) => (step, host),
    }
}

/// Looking for the id of the active service gives what the dynamic store has under its key, and
/// changes no settings.
pub proof fn searches_give_the_active_id(host: Host)
    ensures
        ({
            let end = played::<ActiveService>(StepView::Ask(ActiveService::Opening), host, 2);
            &&& end.0 == StepView::<ActiveService, Result<PropertyView, ErrorView>>::Done(
                host.active_id(),
            )
            &&& end.1.services == host.services
        }),
{
    reveal_with_fuel(played, 3);
}

/// Looking for the name of the active service gives it, and changes no settings.
pub proof fn names_give_the_active_name(host: Host)
    ensures
        ({
            let end = played::<ServiceName>(
                StepView::Ask(ServiceNameView::Finding(ActiveService::Opening)),
                host,
                5,
            );
            &&& end.0 == StepView::<ServiceNameView, Result<Seq<char>, ErrorView>>::Done(
                host.active_name(),
            )
            &&& end.1.services == host.services
        }),
{
    reveal_with_fuel(played, 6);
}

/// Reading the settings of a service from the preferences gives those saved there, and changes no
/// settings.
pub proof fn queries_give_the_saved_settings(id: PropertyView, host: Host)
    ensures
        ({
            let end = played::<ProxiesQuery>(
                StepView::Ask(ProxiesQueryView::CopyingService(id)),
                host,
                5,
            );
            &&& end.0 == StepView::<ProxiesQueryView, Result<Settings, ErrorView>>::Done(
                host.saved_settings(id),
            )
            &&& end.1.services == host.services
        }),
{
    reveal_with_fuel(played, 6);
}

/// With the dynamic store to fall back on, it gives those of the preferences, or else those of the
/// dynamic store, and changes no settings.
pub proof fn resolutions_give_the_settings(id: PropertyView, host: Host)
    ensures
        ({
            let end = played::<ResolveProxies>(
                StepView::Ask(ResolveProxiesView::start(id)),
                host,
                7,
            );
            &&& end.0 == StepView::<ResolveProxiesView, Result<Settings, ErrorView>>::Done(
                host.settings_of(id),
            )
            &&& end.1.services == host.services
        }),
{
    reveal_with_fuel(played, 8);
}

/// The settings dictionary of the active service is the one that its settings make up. No settings
/// change.
pub proof fn active_dictionary_is_the_settings(host: Host)
    ensures
        ({
            let end = played::<DictionaryRead>(
                StepView::Ask(DictionaryReadView::Finding(ActiveService::Opening)),
                host,
                9,
            );
            &&& end.0 == StepView::<DictionaryReadView, Result<Settings, ErrorView>>::Done(
                host.active_settings(),
            )
            &&& end.1.services == host.services
        }),
{
    reveal_with_fuel(played, 10);
}

/// The settings dictionary of a named service is the one that the preferences hold. No settings
/// change.
pub proof fn named_dictionary_is_the_settings(name: Seq<char>, host: Host)
    ensures
        ({
            let end = played::<DictionaryRead>(
                StepView::Ask(DictionaryReadView::Listing(name)),
                host,
                6,
            );
            &&& end.0 == StepView::<DictionaryReadView, Result<Settings, ErrorView>>::Done(
                host.named_settings(name),
            )
            &&& end.1.services == host.services
        }),
{
    reveal_with_fuel(played, 7);
}

/// A goal, read from settings that may not be there.
pub open spec fn read_from<G: Goal>(
    goal: G,
    settings: Result<Settings, ErrorView>,
) -> Result<<G::Out as View>::V, ErrorView> {
    match settings {
        Ok(found) => Ok(goal.of(found)),
        Err(e) => Err(e),
    }
}

/// The first state of reading `goal` from the active service.
pub open spec fn active_reading<G: Goal>(goal: G) -> ReadingView<G> {
    ReadingView { goal, dictionary: DictionaryReadView::Finding(ActiveService::Opening) }
}

/// Reading from the active service gives what its settings hold, and changes no settings. The
/// preferences go before the dynamic store.
pub proof fn active_reads_give_the_settings<G: Goal>(goal: G, host: Host)
    ensures
        played::<Reading<G>>(StepView::Ask(active_reading(goal)), host, 9).0
            == StepView::<ReadingView<G>, Result<<G::Out as View>::V, ErrorView>>::Done(
            read_from(goal, host.active_settings()),
        ),
        played::<Reading<G>>(StepView::Ask(active_reading(goal)), host, 9).1.services
            == host.services,
{
    reveal_with_fuel(played, 10);
}

/// Reading from a named service gives what its settings in the preferences hold, and changes no
/// settings.
pub proof fn named_reads_give_the_settings<G: Goal>(goal: G, name: Seq<char>, host: Host)
    ensures
        ({
            let start = ReadingView { goal, dictionary: DictionaryReadView::Listing(name) };
            let end = played::<Reading<G>>(StepView::Ask(start), host, 9);
            &&& end.0 == StepView::<ReadingView<G>, Result<<G::Out as View>::V, ErrorView>>::Done(
                read_from(goal, host.named_settings(name)),
            )
            &&& end.1.services == host.services
        }),
{
    reveal_with_fuel(played, 10);
}

/// Trying the lock tells whether the host lets the preferences be locked, and changes no settings.
pub proof fn lock_probe_tells_the_lock(host: Host)
    ensures
        played::<LockProbe>(StepView::Ask(LockProbe::Locking), host, 2) == (StepView::<
            LockProbe,
            bool,
        >::Done(host.lock), host),
{
    reveal_with_fuel(played, 3);
}

/// What running the commands from the `done`-th on comes to.
pub open spec fn carried_out(
    commands: Seq<Seq<Seq<char>>>,
    host: Host,
    done: nat,
) -> Result<(), ErrorView>
    decreases commands.len() - done,
{
    if done >= commands.len() {
        Ok(())
    } else {
        match networksetup::attempt(commands[done as int], (host.run)(commands[done as int])) {
            Ok(_) => carried_out(commands, host, done + 1),
            Err(e) => Err(
                (WriteSequence { completed: done as u8, total: commands.len() as u8 }).failed(e),
            ),
        }
    }
}

/// A run of commands comes to what carrying them out comes to.
proof fn run_is_carried_out(run: CommandRunView, host: Host, fuel: nat)
    requires
        run.commands.len() <= u8::MAX,
        run.writes.completed < run.writes.total == run.commands.len(),
        fuel >= run.commands.len() - run.writes.completed,
    ensures
        played::<ActiveWrite>(StepView::Ask(ActiveWriteView::Running(run)), host, fuel)
            == (StepView::<ActiveWriteView, Result<(), ErrorView>>::Done(
            carried_out(run.commands, host, run.writes.completed as nat),
        ), host),
    decreases run.commands.len() - run.writes.completed,
{
    reveal_with_fuel(played, 2);
    reveal_with_fuel(carried_out, 2);
    let ran = (host.run)(run.due());
    if networksetup::attempt(run.due(), ran) is Ok && run.writes.completed + 1
        < run.commands.len() {
        let next = CommandRunView { writes: run.writes.advanced(), ..run };
        run_is_carried_out(next, host, (fuel - 1) as nat);
    }
}

/// From the command that is due on, a run comes to what carrying out the rest comes to.
proof fn rest_is_carried_out(run: CommandRunView, host: Host, fuel: nat)
    requires
        run.writes.completed < run.writes.total == run.commands.len(),
        fuel >= run.commands.len() - run.writes.completed,
    ensures
        played::<CommandRun>(StepView::Ask(run), host, fuel) == (StepView::<
            CommandRunView,
            Result<(), ErrorView>,
        >::Done(carried_out(run.commands, host, run.writes.completed as nat)), host),
    decreases run.commands.len() - run.writes.completed,
{
    reveal_with_fuel(played, 2);
    reveal_with_fuel(carried_out, 2);
    let ran = (host.run)(run.due());
    if networksetup::attempt(run.due(), ran) is Ok && run.writes.completed + 1
        < run.commands.len() {
        let next = CommandRunView { writes: run.writes.advanced(), ..run };
        rest_is_carried_out(next, host, (fuel - 1) as nat);
    }
}

/// A run of commands carries them out, in order and up to the first that fails, whose failure tells
/// how many were accepted. It asks the host for nothing else.
pub proof fn runs_are_carried_out(commands: Seq<Seq<Seq<char>>>, host: Host)
    requires
        0 < commands.len() <= u8::MAX,
    ensures
        played::<CommandRun>(
            StepView::Ask(CommandRunView::start(commands)),
            host,
            commands.len(),
        ) == (StepView::<CommandRunView, Result<(), ErrorView>>::Done(
            carried_out(commands, host, 0),
        ), host),
{
    rest_is_carried_out(CommandRunView::start(commands), host, commands.len());
}

/// Writing with `networksetup` carries out the commands of the target for the active service, in
/// order and up to the first that fails, whose failure tells how many were accepted.
pub proof fn active_writes_are_carried_out(target: TargetView, host: Host)
    ensures
        played::<ActiveWrite>(StepView::Ask(ActiveWriteView::start(target)), host, 12).0
            == StepView::<ActiveWriteView, Result<(), ErrorView>>::Done(
            match host.active_name() {
                Ok(service) => carried_out(target.commands(service), host, 0),
                Err(e) => Err(e),
            },
        ),
{
    reveal_with_fuel(played, 6);
    if let Ok(service) = host.active_name() {
        let run = CommandRunView::start(target.commands(service));
        let named = Host { copied: host.active_id()->Ok_0, ..host };
        carried_out_depends_on_run(run.commands, host, named, 0);
        run_is_carried_out(run, named, 7);
    }
}

/// Carrying out commands depends on nothing of the host but what running them comes to.
proof fn carried_out_depends_on_run(
    commands: Seq<Seq<Seq<char>>>,
    host: Host,
    other: Host,
    done: nat,
)
    requires
        host.run == other.run,
    ensures
        carried_out(commands, host, done) == carried_out(commands, other, done),
    decreases commands.len() - done,
{
    if done < commands.len() {
        carried_out_depends_on_run(commands, host, other, done + 1);
    }
}

/// The first state of a transaction that assigns `config`.
pub open spec fn transaction(config: ProxyConfigView) -> NativeProxyWriterView {
    NativeProxyWriterView {
        config: native::with_config(Map::empty(), config),
        phase: NativePhaseView::Finding(ActiveService::Opening),
    }
}

/// A refused step of a transaction.
pub open spec fn refused(what: Seq<char>) -> Result<(), ErrorView> {
    Err(ErrorView::SystemConfiguration(what))
}

/// What a transaction comes to: success, or the first step that the host refuses.
pub open spec fn transacted(host: Host) -> Result<(), ErrorView> {
    match host.active_id() {
        Err(e) => Err(e),
        Ok(id) => if !host.lock {
            refused("lock preferences"@)
        } else if !host.services.contains_key(id) {
            refused("resolve active network service"@)
        } else if host.services[id].proxies is None {
            refused("resolve proxy protocol"@)
        } else if !host.set {
            refused("stage proxy configuration"@)
        } else if !host.commit {
            refused("commit proxy configuration"@)
        } else if !host.apply {
            refused("apply proxy configuration"@)
        } else if !host.unlock {
            refused("unlock preferences"@)
        } else {
            Ok(())
        },
    }
}

/// A transaction reports the first step that is refused. If it gets as far as saving, the settings
/// of the active service are what they were, with the configuration assigned, and nothing else
/// changes; if it does not, no settings change.
pub proof fn transactions_assign_the_configuration(config: ProxyConfigView, host: Host)
    ensures
        ({
            let end = played::<NativeProxyWriter>(StepView::Ask(transaction(config)), host, 13);
            let id = host.active_id()->Ok_0;
            let saves = host.active_id() is Ok && host.lock && host.services.contains_key(id)
                && host.services[id].proxies is Some && host.set && host.commit;
            let before = match host.services[id].proxies->Some_0 {
                Some(settings) => settings,
                None => Map::empty(),
            };
            &&& end.0 == StepView::<NativeProxyWriterView, Result<(), ErrorView>>::Done(
                transacted(host),
            )
            &&& end.1.store == host.store
            &&& end.1.services == if saves {
                host.services.insert(
                    id,
                    HostService {
                        proxies: Some(Some(native::with_config(before, config))),
                        ..host.services[id]
                    },
                )
            } else {
                host.services
            }
        }),
{
    reveal_with_fuel(played, 14);
    let id = host.active_id()->Ok_0;
    let before = match host.services[id].proxies->Some_0 {
        Some(settings) => settings,
        None => Map::empty(),
    };
    laws::assignments_overlay_settings(before, config);
}

/// What a transaction wrote is what is read afterwards: the proxy in use, every protocol, the
/// bypass list and automatic configuration. Switches are read as on where what they switch can be
/// used, and a pair of quotation marks is read as no address.
pub proof fn transactions_are_read_back(config: ProxyConfigView, host: Host)
    requires
        transacted(host) is Ok,
    ensures
        ({
            let end = played::<NativeProxyWriter>(StepView::Ask(transaction(config)), host, 13);
            let proxy = SysproxyView { enable: laws::usable(config.system), ..config.system };
            let url = if config.auto.url == "\"\""@ {
                Seq::empty()
            } else {
                config.auto.url
            };
            let auto = AutoproxyView { enable: config.auto.enable && url.len() > 0, url };
            let system = played::<Reading<read::SystemProxy>>(
                StepView::Ask(active_reading(read::SystemProxy)),
                end.1,
                9,
            ).0;
            let automatic = played::<Reading<read::AutomaticProxy>>(
                StepView::Ask(active_reading(read::AutomaticProxy)),
                end.1,
                9,
            ).0;
            let every = played::<Reading<read::EverySetting>>(
                StepView::Ask(active_reading(read::EverySetting)),
                end.1,
                9,
            ).0;
            &&& system == StepView::<
                ReadingView<read::SystemProxy>,
                Result<SysproxyView, ErrorView>,
            >::Done(Ok(proxy))
            &&& automatic == StepView::<
                ReadingView<read::AutomaticProxy>,
                Result<AutoproxyView, ErrorView>,
            >::Done(Ok(auto))
            &&& every matches StepView::Done(Ok(all)) && all.auto == auto
                && all.auto_switched_on == config.auto.enable && all.bypass
                == config.system.bypass && all.http == all.socks && all.https == all.socks
                && all.socks.host == proxy.host && all.socks.port == proxy.port
                && all.socks.enable == proxy.enable && all.socks.switched_on
                == config.system.enable
        }),
{
    let end = played::<NativeProxyWriter>(StepView::Ask(transaction(config)), host, 13).1;
    let id = host.active_id()->Ok_0;
    let before = match host.services[id].proxies->Some_0 {
        Some(settings) => settings,
        None => Map::empty(),
    };
    transactions_assign_the_configuration(config, host);
    assert(end.active_settings() == Ok::<Settings, ErrorView>(
        native::with_config(before, config),
    ));
    active_reads_give_the_settings(read::SystemProxy, end);
    active_reads_give_the_settings(read::AutomaticProxy, end);
    active_reads_give_the_settings(read::EverySetting, end);
    laws::system_proxy_is_read_back(before, config);
    laws::auto_is_read_back(before, config);
    laws::bypass_is_read_back(before, config);
    laws::proxies_are_read_back(before, config, ProxyType::Http);
    laws::proxies_are_read_back(before, config, ProxyType::Https);
    laws::proxies_are_read_back(before, config, ProxyType::Socks);
}

} // verus!
