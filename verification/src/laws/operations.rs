//! What each operation finds, asks for and comes to on a host, told from the entries of its dynamic
//! store and the services of its preferences.

use crate::error::{Error, ErrorView};
use crate::host::Host;
use crate::native::NativeProxyWriter;
use crate::networksetup::{CommandRun, CommandRunView};
use crate::parse::Settings;
use crate::preferences::LockProbe;
use crate::property::{Dictionary, PropertyView};
use crate::proxy::{ProxyConfigView, ProxyType};
use crate::read::{
    AutomaticProxy, BypassList, EverySetting, Goal, OneProxy, Reading, SystemProxy,
};
use crate::services::{
    ActiveService, DictionaryRead, DictionaryReadView, ServiceName, ServiceNameView,
};
use crate::system::{ActionView, NetworkServiceView, ReplyView, Step, StepView, StoreView, Task};
use crate::write::{ActiveWrite, ActiveWriteView, TargetView};
use crate::{host, native, networksetup, parse, read, services};
use vstd::prelude::*;

verus! {

/// The first service that goes by a name is the one that is found, by its id. One that has no id
/// hides those after it.
pub proof fn first_service_of_the_name_is_found(
    listed: Seq<NetworkServiceView>,
    name: Seq<char>,
    i: int,
)
    requires
        0 <= i < listed.len(),
        listed[i].display_name == Some(name),
        forall|j: int| 0 <= j < i ==> (#[trigger] listed[j]).display_name != Some(name),
    ensures
        services::first_named(listed, name) == listed[i].id,
    decreases i,
{
    if i > 0 {
        let rest = listed.drop_first();
        assert(listed[0].display_name != Some(name));
        assert forall|j: int| 0 <= j < i - 1 implies (#[trigger] rest[j]).display_name != Some(
            name,
        ) by {
            assert(rest[j] == listed[j + 1]);
        }
        first_service_of_the_name_is_found(rest, name, i - 1);
    }
}

/// Where no service goes by a name, none is found.
pub proof fn unknown_name_is_not_found(listed: Seq<NetworkServiceView>, name: Seq<char>)
    requires
        forall|j: int| 0 <= j < listed.len() ==> (#[trigger] listed[j]).display_name != Some(name),
    ensures
        services::first_named(listed, name) is None,
    decreases listed.len(),
{
    if listed.len() > 0 {
        let rest = listed.drop_first();
        assert(listed[0].display_name != Some(name));
        assert forall|j: int| 0 <= j < rest.len() implies (#[trigger] rest[j]).display_name != Some(
            name,
        ) by {
            assert(rest[j] == listed[j + 1]);
        }
        unknown_name_is_not_found(rest, name);
    }
}

/// The id of the active service is the value under `PrimaryService`, whatever other entries the
/// dictionary has. Without a dictionary, or without that entry, no service is active.
pub proof fn primary_service_is_the_active_one(entries: Settings, id: PropertyView)
    ensures
        entries.contains_key("PrimaryService"@) && entries["PrimaryService"@] == id
            ==> services::primary_service(Some(StoreView::Dictionary(entries))) == Ok::<
            _,
            ErrorView,
        >(id),
        services::primary_service(
            Some(StoreView::Dictionary(entries.insert("PrimaryService"@, id))),
        ) == Ok::<_, ErrorView>(id),
        !entries.contains_key("PrimaryService"@) ==> services::primary_service(
            Some(StoreView::Dictionary(entries)),
        ) == Err::<PropertyView, _>(ErrorView::NoActiveNetworkService),
        services::primary_service(Some(StoreView::Other)) == Err::<PropertyView, _>(
            ErrorView::NoActiveNetworkService,
        ),
        services::primary_service(None) == Err::<PropertyView, _>(
            ErrorView::NoActiveNetworkService,
        ),
{
}

/// Whether `id` stands under `PrimaryService` in the dictionary that the dynamic store of a host has
/// under `State:/Network/Global/IPv4`.
pub open spec fn is_active(h: Host, id: PropertyView) -> bool {
    &&& h.store matches Some(store)
    &&& store.contains_key("State:/Network/Global/IPv4"@)
    &&& store["State:/Network/Global/IPv4"@] matches StoreView::Dictionary(entries)
    &&& entries.contains_key("PrimaryService"@)
    &&& entries["PrimaryService"@] == id
}

/// Whether the preferences of a host hold `settings` for the proxies of a service.
pub open spec fn has_settings(h: Host, id: PropertyView, settings: Settings) -> bool {
    &&& h.services.contains_key(id)
    &&& h.services[id].proxies == Some(Some(settings))
}

/// Whether the preferences of a host hold no settings for the proxies of a service: no service, no
/// protocol, or no configuration of it.
pub open spec fn lacks_settings(h: Host, id: PropertyView) -> bool {
    h.services.contains_key(id) ==> h.services[id].proxies is None
        || h.services[id].proxies->Some_0 is None
}

/// The actions that a task asks a host for, in order, up to a number of them.
pub open spec fn asked<T: Task>(step: StepView<T::V, T::Seen>, h: Host, fuel: nat) -> Seq<
    ActionView,
>
    decreases fuel,
{
    match step {
        StepView::Ask(state) => if fuel == 0 {
            Seq::empty()
        } else {
            let action = T::wanted(state);
            seq![action] + asked::<T>(
                T::after(state, h.answer(action)),
                h.after(action),
                (fuel - 1) as nat,
            )
        },
        StepView::Done(_) => Seq::empty(),
    }
}

/// Whether a task is over, with the given result.
pub open spec fn comes_to<S, T>(
    step: StepView<S, Result<T, ErrorView>>,
    result: Result<T, ErrorView>,
) -> bool {
    step == StepView::<S, Result<T, ErrorView>>::Done(result)
}

/// Looking for the active service finds the value under `PrimaryService`, and looking for its name
/// gives the name that the preferences have for it.
pub proof fn active_service_is_found(h: Host, id: PropertyView)
    requires
        is_active(h, id),
    ensures
        ({
            let found = host::played::<ActiveService>(
                StepView::Ask(ActiveService::Opening),
                h,
                2,
            ).0;
            let named = host::played::<ServiceName>(
                StepView::Ask(ServiceNameView::Finding(ActiveService::Opening)),
                h,
                5,
            ).0;
            &&& comes_to(found, Ok(id))
            &&& h.services.contains_key(id) && h.services[id].name is Some ==> comes_to(
                named,
                Ok(h.services[id].name->Some_0),
            )
            &&& !h.services.contains_key(id) || h.services[id].name is None ==> comes_to(
                named,
                Err(ErrorView::NetworkInterface),
            )
        }),
{
    reveal_with_fuel(host::played, 6);
}

/// Reading from the active service gives what its settings in the preferences hold of the goal.
pub proof fn active_service_is_read<G: Goal>(
    step: Step<Reading<G>, Result<G::Out, Error>>,
    goal: G,
    h: Host,
    id: PropertyView,
    settings: Settings,
)
    requires
        read::reads_active(step, goal),
        is_active(h, id),
        has_settings(h, id, settings),
    ensures
        step matches Step::Ask(task) && comes_to(
            host::played::<Reading<G>>(StepView::Ask(task@), h, 9).0,
            Ok(goal.of(settings)),
        ),
{
    reveal_with_fuel(host::played, 10);
}

/// Where the preferences have no settings for the active service, reading from it gives what the
/// dictionary holds that the dynamic store has under `Setup:/Network/Service/`, the id of the
/// service, and `/Proxies`. Where there is none, that is the failure.
pub proof fn store_stands_in_for_the_preferences<G: Goal>(
    step: Step<Reading<G>, Result<G::Out, Error>>,
    goal: G,
    h: Host,
    id: Seq<char>,
)
    requires
        read::reads_active(step, goal),
        is_active(h, PropertyView::Text(id)),
        lacks_settings(h, PropertyView::Text(id)),
    ensures
        ({
            let store = h.store->Some_0;
            let key = "Setup:/Network/Service/"@ + id + "/Proxies"@;
            step matches Step::Ask(task) && {
                let end = host::played::<Reading<G>>(StepView::Ask(task@), h, 9).0;
                &&& store.contains_key(key) && store[key] is Dictionary ==> comes_to(
                    end,
                    Ok(goal.of(store[key]->Dictionary_0)),
                )
                &&& store.contains_key(key) && store[key] is Other ==> comes_to(
                    end,
                    Err(ErrorView::ParseStr("Not a dictionary"@)),
                )
                &&& !store.contains_key(key) ==> comes_to(
                    end,
                    Err(
                        ErrorView::ParseStr(
                            "Proxy settings not found in preferences or DynamicStore"@,
                        ),
                    ),
                )
            }
        }),
{
    reveal_with_fuel(host::played, 10);
}

/// Whether no service of a host is active: its store has no dictionary with the entry that names
/// one.
pub open spec fn none_is_active(h: Host) -> bool {
    h.store matches Some(store) && {
        ||| !store.contains_key("State:/Network/Global/IPv4"@)
        ||| store["State:/Network/Global/IPv4"@] is Other
        ||| !store["State:/Network/Global/IPv4"@]->Dictionary_0.contains_key("PrimaryService"@)
    }
}

/// Without a dynamic store, or without an active service, every operation on the active service
/// fails for that reason and changes no settings.
pub proof fn without_active_service_nothing_is_done<G: Goal>(
    goal: G,
    target: TargetView,
    config: ProxyConfigView,
    h: Host,
)
    requires
        h.store is None || none_is_active(h),
    ensures
        ({
            let cause = if h.store is None {
                ErrorView::SCDynamicStore
            } else {
                ErrorView::NoActiveNetworkService
            };
            let reading = host::played::<Reading<G>>(
                StepView::Ask(host::active_reading(goal)),
                h,
                9,
            );
            let writing = host::played::<ActiveWrite>(
                StepView::Ask(ActiveWriteView::start(target)),
                h,
                12,
            );
            let transaction = host::played::<NativeProxyWriter>(
                StepView::Ask(host::transaction(config)),
                h,
                13,
            );
            &&& comes_to(reading.0, Err(cause)) && reading.1 == h
            &&& comes_to(writing.0, Err(cause)) && writing.1 == h
            &&& comes_to(transaction.0, Err(cause)) && transaction.1 == h
        }),
{
    reveal_with_fuel(host::played, 3);
}

/// Reading from a named service gives what the preferences hold for the first service of that name
/// in the list, and fails where none has the name, the service has no id, or there are no settings.
pub proof fn named_service_is_read<G: Goal>(
    step: Step<Reading<G>, Result<G::Out, Error>>,
    goal: G,
    name: Seq<char>,
    h: Host,
    i: int,
)
    requires
        read::reads_service(step, goal, name, None),
        0 <= i < h.listed.len(),
        h.listed[i].display_name == Some(name),
        forall|j: int| 0 <= j < i ==> (#[trigger] h.listed[j]).display_name != Some(name),
    ensures
        ({
            let id = PropertyView::Text(h.listed[i].id->Some_0);
            step matches Step::Ask(task) && {
                let end = host::played::<Reading<G>>(StepView::Ask(task@), h, 9).0;
                &&& h.listed[i].id is Some && h.services.contains_key(id)
                    && h.services[id].proxies is Some && h.services[id].proxies->Some_0 is Some
                    ==> comes_to(end, Ok(goal.of(h.services[id].proxies->Some_0->Some_0)))
                &&& h.listed[i].id is Some && lacks_settings(h, id) ==> comes_to(
                    end,
                    Err(ErrorView::SCPreferences),
                )
                &&& h.listed[i].id is None ==> comes_to(end, Err(ErrorView::NetworkInterface))
            }
        }),
{
    first_service_of_the_name_is_found(h.listed, name, i);
    reveal_with_fuel(host::played, 10);
}

/// Reading from a service of a name that no service has fails.
pub proof fn unknown_service_is_refused<G: Goal>(
    step: Step<Reading<G>, Result<G::Out, Error>>,
    goal: G,
    name: Seq<char>,
    h: Host,
)
    requires
        read::reads_service(step, goal, name, None),
        forall|j: int|
            0 <= j < h.listed.len() ==> (#[trigger] h.listed[j]).display_name != Some(name),
    ensures
        step matches Step::Ask(task) && comes_to(
            host::played::<Reading<G>>(StepView::Ask(task@), h, 9).0,
            Err(ErrorView::NetworkInterface),
        ),
{
    unknown_name_is_not_found(h.listed, name);
    reveal_with_fuel(host::played, 3);
}

/// With a dictionary at hand nothing is asked for: what it holds of the goal is the result.
pub proof fn dictionary_at_hand_is_enough<G: Goal>(
    step: Step<Reading<G>, Result<G::Out, Error>>,
    goal: G,
    name: Seq<char>,
    dict: &Dictionary,
)
    requires
        read::reads_service(step, goal, name, Some(dict)),
    ensures
        step matches Step::Done(Ok(value)) && value@ == goal.of(dict@),
{
}

/// The settings dictionary of a named service is the one of the first service of that name.
pub proof fn named_dictionary_is_that_of_the_first(
    name: Seq<char>,
    h: Host,
    i: int,
    id: Seq<char>,
    settings: Settings,
)
    requires
        0 <= i < h.listed.len(),
        h.listed[i].display_name == Some(name),
        h.listed[i].id == Some(id),
        forall|j: int| 0 <= j < i ==> (#[trigger] h.listed[j]).display_name != Some(name),
        has_settings(h, PropertyView::Text(id), settings),
    ensures
        comes_to(
            host::played::<DictionaryRead>(
                StepView::Ask(DictionaryReadView::Listing(name)),
                h,
                6,
            ).0,
            Ok(settings),
        ),
{
    first_service_of_the_name_is_found(h.listed, name, i);
    reveal_with_fuel(host::played, 7);
}

/// Each goal stands for what its name says.
pub proof fn goals_stand_for_what_they_name(settings: Settings, t: ProxyType)
    ensures
        SystemProxy.of(settings) == parse::system_proxy(settings),
        EverySetting.of(settings) == parse::snapshot_of(settings),
        AutomaticProxy.of(settings) == parse::auto_at(settings),
        (OneProxy { proxy_type: t }).of(settings) == parse::proxy_at(settings, t),
        BypassList.of(settings) == parse::bypass_text(settings),
{
}

/// Reading from the active service asks for the store, the service, its proxy protocol and the
/// configuration of that, releases both, and asks for nothing else.
pub proof fn active_read_asks_in_order<G: Goal>(
    goal: G,
    h: Host,
    id: PropertyView,
    settings: Settings,
)
    requires
        is_active(h, id),
        has_settings(h, id, settings),
    ensures
        asked::<Reading<G>>(StepView::Ask(host::active_reading(goal)), h, 9) == seq![
            ActionView::OpenStore,
            ActionView::ReadStore("State:/Network/Global/IPv4"@),
            ActionView::CopyService(id),
            ActionView::CopyProtocol("Proxies"@),
            ActionView::ReadConfiguration,
            ActionView::ReleaseService,
            ActionView::ReleaseProtocol,
        ],
{
    reveal_with_fuel(asked, 9);
    assert(asked::<Reading<G>>(StepView::Ask(host::active_reading(goal)), h, 9) =~= seq![
        ActionView::OpenStore,
        ActionView::ReadStore("State:/Network/Global/IPv4"@),
        ActionView::CopyService(id),
        ActionView::CopyProtocol("Proxies"@),
        ActionView::ReadConfiguration,
        ActionView::ReleaseService,
        ActionView::ReleaseProtocol,
    ]);
}

/// Whether a host accepts the commands from `from` up to the one before `stop`, and refuses that one
/// if it is not the last.
pub open spec fn stops_at(
    h: Host,
    commands: Seq<Seq<Seq<char>>>,
    from: int,
    stop: int,
) -> bool {
    &&& from < stop <= commands.len()
    &&& forall|i: int|
        from <= i < stop - 1 ==> networksetup::attempt(
            #[trigger] commands[i],
            (h.run)(commands[i]),
        ) is Ok
    &&& stop < commands.len() ==> networksetup::attempt(
        commands[stop - 1],
        (h.run)(commands[stop - 1]),
    ) is Err
}

/// Commands as actions.
pub open spec fn runs_of(commands: Seq<Seq<Seq<char>>>) -> Seq<ActionView> {
    commands.map_values(|args: Seq<Seq<char>>| ActionView::Run(args))
}

/// What a run of commands still asks for.
proof fn run_asks_for_the_rest(run: CommandRunView, h: Host, fuel: nat, stop: int)
    requires
        run.commands.len() <= 255,
        stops_at(h, run.commands, run.writes.completed as int, stop),
        fuel >= stop - run.writes.completed,
    ensures
        asked::<CommandRun>(StepView::Ask(run), h, fuel) == runs_of(
            run.commands.subrange(run.writes.completed as int, stop),
        ),
        asked::<ActiveWrite>(StepView::Ask(ActiveWriteView::Running(run)), h, fuel) == runs_of(
            run.commands.subrange(run.writes.completed as int, stop),
        ),
    decreases stop - run.writes.completed,
{
    reveal_with_fuel(asked, 2);
    let done = run.writes.completed as int;
    let command = run.commands[done];
    let rest = run.commands.subrange(done, stop);
    if done + 1 < stop {
        assert(networksetup::attempt(command, (h.run)(command)) is Ok);
        let next = CommandRunView { writes: run.writes.advanced(), ..run };
        run_asks_for_the_rest(next, h, (fuel - 1) as nat, stop);
        assert(runs_of(rest) =~= seq![ActionView::Run(command)] + runs_of(
            run.commands.subrange(done + 1, stop),
        ));
    } else {
        assert(runs_of(rest) =~= seq![ActionView::Run(command)] + Seq::<ActionView>::empty());
    }
}

/// A run asks for its commands in order, up to the first one that is not accepted, and for nothing
/// else.
pub proof fn run_asks_for_its_commands(commands: Seq<Seq<Seq<char>>>, h: Host, stop: int)
    requires
        commands.len() <= 255,
        stops_at(h, commands, 0, stop),
    ensures
        asked::<CommandRun>(
            StepView::Ask(CommandRunView::start(commands)),
            h,
            commands.len(),
        ) == runs_of(commands.take(stop)),
{
    run_asks_for_the_rest(CommandRunView::start(commands), h, commands.len(), stop);
    assert(commands.subrange(0, stop) =~= commands.take(stop));
}

/// Writing to the active service asks for the store and for the name of the service that it names,
/// releases the service, and asks for the commands of the target for that name, in order and up to
/// the first one that is not accepted.
pub proof fn active_write_asks_for_the_commands(
    target: TargetView,
    h: Host,
    id: PropertyView,
    name: Seq<char>,
    stop: int,
)
    requires
        is_active(h, id),
        h.services.contains_key(id),
        h.services[id].name == Some(name),
        stops_at(h, target.commands(name), 0, stop),
    ensures
        asked::<ActiveWrite>(StepView::Ask(ActiveWriteView::start(target)), h, 12) == seq![
            ActionView::OpenStore,
            ActionView::ReadStore("State:/Network/Global/IPv4"@),
            ActionView::CopyService(id),
            ActionView::ReadServiceName,
            ActionView::ReleaseService,
        ] + runs_of(target.commands(name).take(stop)),
{
    reveal_with_fuel(asked, 6);
    let commands = target.commands(name);
    let run = CommandRunView::start(commands);
    let copied = Host { copied: id, ..h };
    assert(stops_at(copied, commands, 0, stop));
    run_asks_for_the_rest(run, copied, 7, stop);
    assert(commands.subrange(0, stop) =~= commands.take(stop));
    assert(asked::<ActiveWrite>(StepView::Ask(ActiveWriteView::start(target)), h, 12) =~= seq![
        ActionView::OpenStore,
        ActionView::ReadStore("State:/Network/Global/IPv4"@),
        ActionView::CopyService(id),
        ActionView::ReadServiceName,
        ActionView::ReleaseService,
    ] + runs_of(commands.take(stop)));
}

/// A transaction that nothing stands in the way of takes the lock, copies the service and its proxy
/// protocol, sets the assignments on top of what is configured, saves them, puts them into effect,
/// and gives all back.
pub proof fn transaction_asks_in_order(config: ProxyConfigView, h: Host, id: PropertyView)
    requires
        is_active(h, id),
        h.services.contains_key(id),
        h.services[id].proxies is Some,
        h.lock && h.set && h.commit && h.apply && h.unlock,
    ensures
        asked::<NativeProxyWriter>(StepView::Ask(host::transaction(config)), h, 13) == seq![
            ActionView::OpenStore,
            ActionView::ReadStore("State:/Network/Global/IPv4"@),
            ActionView::Lock,
            ActionView::CopyService(id),
            ActionView::CopyProtocol("Proxies"@),
            ActionView::ReleaseService,
            ActionView::ReadConfiguration,
            ActionView::SetConfiguration {
                keep_current: h.services[id].proxies->Some_0 is Some,
                assignments: native::with_config(Map::empty(), config),
            },
            ActionView::CommitChanges,
            ActionView::ApplyChanges,
            ActionView::Unlock,
            ActionView::ReleaseProtocol,
        ],
{
    reveal_with_fuel(asked, 14);
    assert(asked::<NativeProxyWriter>(StepView::Ask(host::transaction(config)), h, 13) =~= seq![
        ActionView::OpenStore,
        ActionView::ReadStore("State:/Network/Global/IPv4"@),
        ActionView::Lock,
        ActionView::CopyService(id),
        ActionView::CopyProtocol("Proxies"@),
        ActionView::ReleaseService,
        ActionView::ReadConfiguration,
        ActionView::SetConfiguration {
            keep_current: h.services[id].proxies->Some_0 is Some,
            assignments: native::with_config(Map::empty(), config),
        },
        ActionView::CommitChanges,
        ActionView::ApplyChanges,
        ActionView::Unlock,
        ActionView::ReleaseProtocol,
    ]);
}

/// A transaction succeeds if and only if every step of it is accepted, and otherwise reports the
/// first one that is not.
pub proof fn transaction_reports_the_first_refusal(
    config: ProxyConfigView,
    h: Host,
    id: PropertyView,
)
    requires
        is_active(h, id),
    ensures
        ({
            let end = host::played::<NativeProxyWriter>(
                StepView::Ask(host::transaction(config)),
                h,
                13,
            ).0;
            let known = h.services.contains_key(id);
            let ready = h.lock && known && h.services[id].proxies is Some;
            &&& end matches StepView::Done(result) && {
                &&& result is Ok <==> ready && h.set && h.commit && h.apply && h.unlock
                &&& !h.lock ==> result == Err::<(), _>(
                    ErrorView::SystemConfiguration("lock preferences"@),
                )
                &&& h.lock && !known ==> result == Err::<(), _>(
                    ErrorView::SystemConfiguration("resolve active network service"@),
                )
                &&& h.lock && known && !ready ==> result == Err::<(), _>(
                    ErrorView::SystemConfiguration("resolve proxy protocol"@),
                )
                &&& ready && !h.set ==> result == Err::<(), _>(
                    ErrorView::SystemConfiguration("stage proxy configuration"@),
                )
                &&& ready && h.set && !h.commit ==> result == Err::<(), _>(
                    ErrorView::SystemConfiguration("commit proxy configuration"@),
                )
                &&& ready && h.set && h.commit && !h.apply ==> result == Err::<(), _>(
                    ErrorView::SystemConfiguration("apply proxy configuration"@),
                )
                &&& ready && h.set && h.commit && h.apply && !h.unlock ==> result == Err::<(), _>(
                    ErrorView::SystemConfiguration("unlock preferences"@),
                )
            }
        }),
{
    reveal_with_fuel(host::played, 14);
}

/// A transaction that succeeds leaves the active service with its settings and the configuration
/// assigned on top of them, and every other service as it was.
pub proof fn transaction_changes_the_active_service(
    config: ProxyConfigView,
    h: Host,
    id: PropertyView,
    other: PropertyView,
)
    requires
        is_active(h, id),
        h.services.contains_key(id),
        h.services[id].proxies is Some,
        h.lock && h.set && h.commit && h.apply && h.unlock,
    ensures
        ({
            let after = host::played::<NativeProxyWriter>(
                StepView::Ask(host::transaction(config)),
                h,
                13,
            ).1;
            &&& after.services.contains_key(id)
            &&& after.services[id].name == h.services[id].name
            &&& h.services[id].proxies->Some_0 matches Some(before) ==> after.services[id].proxies
                == Some(Some(native::with_config(before, config)))
            &&& h.services[id].proxies->Some_0 is None ==> after.services[id].proxies == Some(
                Some(native::with_config(Map::empty(), config)),
            )
            &&& other != id ==> after.services.contains_key(other) == h.services.contains_key(other)
                && after.services[other] == h.services[other]
            &&& after.store == h.store
        }),
{
    host::transactions_assign_the_configuration(config, h);
}

/// Trying the lock asks for it, and for giving it back only if it was taken; it tells whether it was
/// taken.
pub proof fn lock_is_tried_once(h: Host)
    ensures
        host::played::<LockProbe>(StepView::Ask(LockProbe::Locking), h, 2).0 == StepView::<
            LockProbe,
            bool,
        >::Done(h.lock),
        h.lock ==> asked::<LockProbe>(StepView::Ask(LockProbe::Locking), h, 2) == seq![
            ActionView::Lock,
            ActionView::Unlock,
        ],
        !h.lock ==> asked::<LockProbe>(StepView::Ask(LockProbe::Locking), h, 2) == seq![
            ActionView::Lock,
        ],
{
    reveal_with_fuel(host::played, 3);
    reveal_with_fuel(asked, 3);
    let actions = asked::<LockProbe>(StepView::Ask(LockProbe::Locking), h, 2);
    if h.lock {
        assert(actions =~= seq![ActionView::Lock, ActionView::Unlock]);
    } else {
        assert(actions =~= seq![ActionView::Lock]);
    }
}

/// An action succeeded if and only if the reply is the answer yes.
pub proof fn only_yes_is_acceptance(reply: ReplyView)
    ensures
        reply.accepted() <==> reply == ReplyView::Answer(true),
        !ReplyView::Answer(false).accepted(),
{
}

} // verus!
