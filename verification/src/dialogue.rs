//! What holds of whole dialogues with the operating system: every task comes to an end, and what
//! it takes it gives back.

use crate::error::ErrorView;
use crate::native::{NativePhaseView, NativeProxyWriter, NativeProxyWriterView};
use crate::networksetup;
use crate::networksetup::{CommandRun, CommandRunView};
use crate::parse::Settings;
use crate::preferences::LockProbe;
use crate::property::PropertyView;
use crate::read::{Goal, Reading, ReadingView};
use crate::services::{
    ActiveService, DictionaryRead, DictionaryReadView, ProxiesQuery, ProxiesQueryView,
    ResolveProxies, ResolveProxiesView, ServiceName, ServiceNameView,
};
use crate::system::{ActionView, ReplyView, StepView, Task};
use crate::write::{ActiveWrite, ActiveWriteView, TargetView};
use vstd::prelude::*;

verus! {

/// Where a number of replies, given one after the other, takes a task.
pub open spec fn fed<T: Task>(step: StepView<T::V, T::Seen>, replies: Seq<ReplyView>) -> StepView<
    T::V,
    T::Seen,
>
    decreases replies.len(),
{
    match step {
        StepView::Ask(state) => if replies.len() == 0 {
            step
        } else {
            fed::<T>(T::after(state, replies.first()), replies.drop_first())
        },
        StepView::Done(_) => step,
    }
}

/// Whether each reply, as far as they are needed, is one to the action that was asked for.
pub open spec fn fitting<T: Task>(
    step: StepView<T::V, T::Seen>,
    replies: Seq<ReplyView>,
) -> bool
    decreases replies.len(),
{
    match step {
        StepView::Ask(state) => replies.len() > 0 ==> {
            &&& replies.first().answers(T::wanted(state))
            &&& fitting::<T>(T::after(state, replies.first()), replies.drop_first())
        },
        StepView::Done(_) => true,
    }
}

/// What has been taken from the operating system and not been given back.
pub struct Held {
    pub lock: bool,
    /// The lock was asked to be given back.
    pub unlock_tried: bool,
    pub service: bool,
    pub protocol: bool,
}

impl Held {
    /// Nothing was taken.
    pub open spec fn nothing() -> Held {
        Held { lock: false, unlock_tried: false, service: false, protocol: false }
    }

    /// Whether an action is in order: it speaks of things that are there, takes nothing twice, and
    /// changes the preferences under the lock only.
    pub open spec fn allows(self, action: ActionView) -> bool {
        match action {
            ActionView::CopyService(_) => !self.service,
            ActionView::ReadServiceName | ActionView::ReleaseService => self.service,
            ActionView::CopyProtocol(_) => self.service && !self.protocol,
            ActionView::ReadConfiguration | ActionView::ReleaseProtocol => self.protocol,
            ActionView::Lock => !self.lock,
            ActionView::Unlock => self.lock,
            ActionView::SetConfiguration { .. } => self.lock && self.protocol,
            ActionView::CommitChanges | ActionView::ApplyChanges => self.lock,
            _ => true,
        }
    }

    /// What is held after an action and its reply.
    pub open spec fn after(self, action: ActionView, reply: ReplyView) -> Held {
        match action {
            ActionView::CopyService(_) => Held { service: reply.accepted(), ..self },
            ActionView::ReleaseService => Held { service: false, ..self },
            ActionView::CopyProtocol(_) => Held { protocol: reply.accepted(), ..self },
            ActionView::ReleaseProtocol => Held { protocol: false, ..self },
            ActionView::Lock => Held { lock: reply.accepted(), unlock_tried: false, ..self },
            ActionView::Unlock => Held { lock: !reply.accepted(), unlock_tried: true, ..self },
            _ => self,
        }
    }

    /// Whether all was given back. A lock stays only where giving it back was refused.
    pub open spec fn settled(self) -> bool {
        &&& !self.service
        &&& !self.protocol
        &&& self.lock ==> self.unlock_tried
    }
}

/// Whether a task, whatever part of its replies has come in, asks for nothing out of order, and
/// has given back what it took once it is over.
pub open spec fn orderly<T: Task>(
    step: StepView<T::V, T::Seen>,
    held: Held,
    replies: Seq<ReplyView>,
) -> bool
    decreases replies.len(),
{
    match step {
        StepView::Ask(state) => {
            &&& held.allows(T::wanted(state))
            &&& replies.len() > 0 ==> orderly::<T>(
                T::after(state, replies.first()),
                held.after(T::wanted(state), replies.first()),
                replies.drop_first(),
            )
        },
        StepView::Done(_) => held.settled(),
    }
}

/// What each reply has to keep of `inv`, so that a task stays orderly.
spec fn keeps_order<T: Task>(inv: spec_fn(T::V, Held) -> bool) -> bool {
    forall|state: T::V, held: Held, reply: ReplyView| #[trigger]
        inv(state, held) && #[trigger] reply.answers(T::wanted(state)) ==> {
            let next = held.after(T::wanted(state), reply);
            match T::after(state, reply) {
                StepView::Ask(after) => inv(after, next),
                StepView::Done(_) => next.settled(),
            }
        }
}

/// A task stays orderly where an invariant says so.
proof fn stays_orderly<T: Task>(
    state: T::V,
    held: Held,
    replies: Seq<ReplyView>,
    inv: spec_fn(T::V, Held) -> bool,
)
    requires
        keeps_order::<T>(inv),
        forall|s: T::V, h: Held| #[trigger] inv(s, h) ==> h.allows(T::wanted(s)),
        inv(state, held),
        fitting::<T>(StepView::Ask(state), replies),
    ensures
        orderly::<T>(StepView::Ask(state), held, replies),
    decreases replies.len(),
{
    reveal_with_fuel(orderly, 2);
    if replies.len() > 0 {
        let reply = replies.first();
        assert(reply.answers(T::wanted(state)));
        match T::after(state, reply) {
            StepView::Ask(after) => {
                stays_orderly::<T>(
                    after,
                    held.after(T::wanted(state), reply),
                    replies.drop_first(),
                    inv,
                );
            },
            StepView::Done(_) => {},
        }
    }
}

/// A task that comes closer to its end with every reply gets there.
proof fn comes_to_an_end<T: Task>(
    state: T::V,
    replies: Seq<ReplyView>,
    inv: spec_fn(T::V) -> bool,
    left: spec_fn(T::V) -> nat,
)
    requires
        forall|s: T::V, r: ReplyView| #[trigger]
            inv(s) && #[trigger] r.answers(T::wanted(s)) ==> match T::after(s, r) {
                StepView::Ask(after) => inv(after) && left(after) < left(s),
                StepView::Done(_) => true,
            },
        inv(state),
        fitting::<T>(StepView::Ask(state), replies),
        0 < left(state) <= replies.len(),
        forall|s: T::V| #[trigger] inv(s) ==> left(s) > 0,
    ensures
        fed::<T>(StepView::Ask(state), replies) is Done,
    decreases replies.len(),
{
    reveal_with_fuel(fed, 2);
    let reply = replies.first();
    assert(inv(state) && reply.answers(T::wanted(state)));
    match T::after(state, reply) {
        StepView::Ask(after) => {
            comes_to_an_end::<T>(after, replies.drop_first(), inv, left);
        },
        StepView::Done(_) => {},
    }
}

/// What a query of the preferences holds.
spec fn query_holds(query: ProxiesQueryView, held: Held) -> bool {
    let nothing = Held::nothing();
    match query {
        ProxiesQueryView::CopyingService(_) => held == nothing,
        ProxiesQueryView::CopyingProtocol => held == (Held { service: true, ..nothing }),
        ProxiesQueryView::Reading => held == (Held { service: true, protocol: true, ..nothing }),
        ProxiesQueryView::ReleasingService { protocol, .. } => held == (Held {
            service: true,
            protocol,
            ..nothing
        }),
        ProxiesQueryView::ReleasingProtocol(_) => held == (Held { protocol: true, ..nothing }),
    }
}

/// What reading a dictionary holds.
spec fn read_holds(read: DictionaryReadView, held: Held) -> bool {
    match read {
        DictionaryReadView::Querying(query) => query_holds(query, held),
        DictionaryReadView::Resolving(ResolveProxiesView::Preferences { query, .. }) => query_holds(
            query,
            held,
        ),
        _ => held == Held::nothing(),
    }
}

/// What finding the name of a service holds.
spec fn name_holds(name: ServiceNameView, held: Held) -> bool {
    match name {
        ServiceNameView::Naming | ServiceNameView::Releasing(_) => held == (Held {
            service: true,
            ..Held::nothing()
        }),
        _ => held == Held::nothing(),
    }
}

/// What a transaction holds.
spec fn native_holds(phase: NativePhaseView, held: Held) -> bool {
    let nothing = Held::nothing();
    let locked = Held { lock: true, ..nothing };
    match phase {
        NativePhaseView::Finding(_) | NativePhaseView::Locking(_) => held == nothing,
        NativePhaseView::CopyingService(_) => held == locked,
        NativePhaseView::CopyingProtocol => held == (Held { service: true, ..locked }),
        NativePhaseView::ReleasingService { protocol } => held == (Held {
            service: true,
            protocol,
            ..locked
        }),
        NativePhaseView::Reading
        | NativePhaseView::Setting { .. }
        | NativePhaseView::Committing
        | NativePhaseView::Applying
        | NativePhaseView::Unlocking => held == (Held { protocol: true, ..locked }),
        NativePhaseView::Abandoning { protocol, .. } => held.lock && !held.service && held.protocol
            == protocol,
        NativePhaseView::ReleasingProtocol { .. } => held.unlock_tried && !held.service
            && held.protocol,
    }
}

/// Reading settings, of the active service or of a named one, releases every service and protocol
/// that it copies, on every path.
pub proof fn reads_are_orderly<G: Goal>(
    goal: G,
    dictionary: DictionaryReadView,
    replies: Seq<ReplyView>,
)
    requires
        dictionary is Listing || dictionary == DictionaryReadView::Finding(ActiveService::Opening),
        fitting::<Reading<G>>(StepView::Ask(ReadingView { goal, dictionary }), replies),
    ensures
        orderly::<Reading<G>>(
            StepView::Ask(ReadingView { goal, dictionary }),
            Held::nothing(),
            replies,
        ),
{
    let inv = |state: ReadingView<G>, held: Held| read_holds(state.dictionary, held);
    stays_orderly::<Reading<G>>(
        ReadingView { goal, dictionary },
        Held::nothing(),
        replies,
        inv,
    );
}

/// Reading a settings dictionary, of the active service or of a named one, releases every service
/// and protocol that it copies, on every path.
pub proof fn dictionary_reads_are_orderly(
    dictionary: DictionaryReadView,
    replies: Seq<ReplyView>,
)
    requires
        dictionary is Listing || dictionary == DictionaryReadView::Finding(ActiveService::Opening),
        fitting::<DictionaryRead>(StepView::Ask(dictionary), replies),
    ensures
        orderly::<DictionaryRead>(StepView::Ask(dictionary), Held::nothing(), replies),
{
    let inv = |state: DictionaryReadView, held: Held| read_holds(state, held);
    stays_orderly::<DictionaryRead>(dictionary, Held::nothing(), replies, inv);
}

/// Reading the settings of a service from the preferences releases the service and the protocol
/// that it copies, on every path.
pub proof fn queries_are_orderly(id: PropertyView, replies: Seq<ReplyView>)
    requires
        fitting::<ProxiesQuery>(StepView::Ask(ProxiesQueryView::CopyingService(id)), replies),
    ensures
        orderly::<ProxiesQuery>(
            StepView::Ask(ProxiesQueryView::CopyingService(id)),
            Held::nothing(),
            replies,
        ),
{
    let inv = |state: ProxiesQueryView, held: Held| query_holds(state, held);
    stays_orderly::<ProxiesQuery>(
        ProxiesQueryView::CopyingService(id),
        Held::nothing(),
        replies,
        inv,
    );
}

/// The same holds with the dynamic store to fall back on.
pub proof fn resolutions_are_orderly(id: PropertyView, replies: Seq<ReplyView>)
    requires
        fitting::<ResolveProxies>(StepView::Ask(ResolveProxiesView::start(id)), replies),
    ensures
        orderly::<ResolveProxies>(
            StepView::Ask(ResolveProxiesView::start(id)),
            Held::nothing(),
            replies,
        ),
{
    let inv = |state: ResolveProxiesView, held: Held|
        match state {
            ResolveProxiesView::Preferences { query, .. } => query_holds(query, held),
            _ => held == Held::nothing(),
        };
    stays_orderly::<ResolveProxies>(ResolveProxiesView::start(id), Held::nothing(), replies, inv);
}

/// Finding the id of the active service takes nothing.
pub proof fn searches_are_orderly(replies: Seq<ReplyView>)
    requires
        fitting::<ActiveService>(StepView::Ask(ActiveService::Opening), replies),
    ensures
        orderly::<ActiveService>(StepView::Ask(ActiveService::Opening), Held::nothing(), replies),
{
    let inv = |state: ActiveService, held: Held| held == Held::nothing();
    stays_orderly::<ActiveService>(ActiveService::Opening, Held::nothing(), replies, inv);
}

/// Finding the name of the active service releases the service that it copies, on every path.
pub proof fn names_are_orderly(replies: Seq<ReplyView>)
    requires
        fitting::<ServiceName>(
            StepView::Ask(ServiceNameView::Finding(ActiveService::Opening)),
            replies,
        ),
    ensures
        orderly::<ServiceName>(
            StepView::Ask(ServiceNameView::Finding(ActiveService::Opening)),
            Held::nothing(),
            replies,
        ),
{
    let inv = |state: ServiceNameView, held: Held| name_holds(state, held);
    stays_orderly::<ServiceName>(
        ServiceNameView::Finding(ActiveService::Opening),
        Held::nothing(),
        replies,
        inv,
    );
}

/// Running commands takes nothing.
pub proof fn runs_are_orderly(commands: Seq<Seq<Seq<char>>>, replies: Seq<ReplyView>)
    requires
        fitting::<CommandRun>(StepView::Ask(CommandRunView::start(commands)), replies),
    ensures
        orderly::<CommandRun>(
            StepView::Ask(CommandRunView::start(commands)),
            Held::nothing(),
            replies,
        ),
{
    let inv = |state: CommandRunView, held: Held| held == Held::nothing();
    stays_orderly::<CommandRun>(CommandRunView::start(commands), Held::nothing(), replies, inv);
}

/// Writing with `networksetup` to the active service releases the service that it copies to learn
/// its name, on every path.
pub proof fn writes_are_orderly(target: TargetView, replies: Seq<ReplyView>)
    requires
        fitting::<ActiveWrite>(StepView::Ask(ActiveWriteView::start(target)), replies),
    ensures
        orderly::<ActiveWrite>(
            StepView::Ask(ActiveWriteView::start(target)),
            Held::nothing(),
            replies,
        ),
{
    let inv = |state: ActiveWriteView, held: Held|
        match state {
            ActiveWriteView::Finding { name, .. } => name_holds(name, held),
            ActiveWriteView::Running(_) => held == Held::nothing(),
        };
    stays_orderly::<ActiveWrite>(ActiveWriteView::start(target), Held::nothing(), replies, inv);
}

/// A transaction changes the preferences under the lock only. It releases what it copies and asks
/// for the lock to be given back, on every path that took it.
pub proof fn transactions_are_orderly(config: Settings, replies: Seq<ReplyView>)
    requires
        fitting::<NativeProxyWriter>(
            StepView::Ask(
                NativeProxyWriterView {
                    config,
                    phase: NativePhaseView::Finding(ActiveService::Opening),
                },
            ),
            replies,
        ),
    ensures
        orderly::<NativeProxyWriter>(
            StepView::Ask(
                NativeProxyWriterView {
                    config,
                    phase: NativePhaseView::Finding(ActiveService::Opening),
                },
            ),
            Held::nothing(),
            replies,
        ),
{
    let inv = |state: NativeProxyWriterView, held: Held| native_holds(state.phase, held);
    let start = NativeProxyWriterView {
        config,
        phase: NativePhaseView::Finding(ActiveService::Opening),
    };
    stays_orderly::<NativeProxyWriter>(start, Held::nothing(), replies, inv);
}

/// Trying the lock asks for it to be given back if it was taken.
pub proof fn lock_probe_is_orderly(replies: Seq<ReplyView>)
    requires
        fitting::<LockProbe>(StepView::Ask(LockProbe::Locking), replies),
    ensures
        orderly::<LockProbe>(StepView::Ask(LockProbe::Locking), Held::nothing(), replies),
{
    let inv = |state: LockProbe, held: Held|
        match state {
            LockProbe::Locking => held == Held::nothing(),
            LockProbe::Unlocking => held == (Held { lock: true, ..Held::nothing() }),
        };
    stays_orderly::<LockProbe>(LockProbe::Locking, Held::nothing(), replies, inv);
}

/// Whether an action changes the preferences, or takes the lock on them.
pub open spec fn touches_preferences(action: ActionView) -> bool {
    action is Lock || action is SetConfiguration || action is CommitChanges
        || action is ApplyChanges
}

/// Reading settings changes nothing and runs no process, in any state.
pub proof fn reads_change_nothing<G: Goal>(state: ReadingView<G>)
    ensures
        !touches_preferences(Reading::<G>::wanted(state)),
        !(Reading::<G>::wanted(state) is Run),
{
}

/// Reading a settings dictionary changes nothing and runs no process, in any state.
pub proof fn dictionary_reads_change_nothing(state: DictionaryReadView)
    ensures
        !touches_preferences(DictionaryRead::wanted(state)),
        !(DictionaryRead::wanted(state) is Run),
{
}

/// Writing with `networksetup` leaves the preferences to that program, in any state.
pub proof fn writes_leave_preferences_alone(state: ActiveWriteView)
    ensures
        !touches_preferences(ActiveWrite::wanted(state)),
{
}

/// A transaction runs no process, in any state.
pub proof fn transactions_run_no_process(state: NativeProxyWriterView)
    ensures
        !(NativeProxyWriter::wanted(state) is Run),
{
}

/// The replies that finding the active service still takes.
spec fn find_left(find: ActiveService) -> nat {
    match find {
        ActiveService::Opening => 2,
        ActiveService::Reading => 1,
    }
}

/// The replies that a query of the preferences still takes, at most.
spec fn query_left(query: ProxiesQueryView) -> nat {
    match query {
        ProxiesQueryView::CopyingService(_) => 5,
        ProxiesQueryView::CopyingProtocol => 4,
        ProxiesQueryView::Reading => 3,
        ProxiesQueryView::ReleasingService { .. } => 2,
        ProxiesQueryView::ReleasingProtocol(_) => 1,
    }
}

/// The replies that a query with the dynamic store to fall back on still takes, at most.
spec fn resolve_left(resolve: ResolveProxiesView) -> nat {
    match resolve {
        ResolveProxiesView::Preferences { query, .. } => query_left(query) + 2,
        ResolveProxiesView::Opening(_) => 2,
        ResolveProxiesView::Reading(_) => 1,
    }
}

/// The replies that reading a dictionary still takes, at most.
spec fn read_left(read: DictionaryReadView) -> nat {
    match read {
        DictionaryReadView::Finding(find) => find_left(find) + 7,
        DictionaryReadView::Resolving(resolve) => resolve_left(resolve),
        DictionaryReadView::Listing(_) => 6,
        DictionaryReadView::Querying(query) => query_left(query),
    }
}

/// Reading settings comes to an end, after nine replies at most.
pub proof fn reads_come_to_an_end<G: Goal>(
    goal: G,
    dictionary: DictionaryReadView,
    replies: Seq<ReplyView>,
)
    requires
        dictionary is Listing || dictionary == DictionaryReadView::Finding(ActiveService::Opening),
        fitting::<Reading<G>>(StepView::Ask(ReadingView { goal, dictionary }), replies),
        replies.len() >= 9,
    ensures
        fed::<Reading<G>>(StepView::Ask(ReadingView { goal, dictionary }), replies) is Done,
{
    comes_to_an_end::<Reading<G>>(
        ReadingView { goal, dictionary },
        replies,
        |state: ReadingView<G>| true,
        |state: ReadingView<G>| read_left(state.dictionary),
    );
}

/// Reading a settings dictionary comes to an end, after nine replies at most.
pub proof fn dictionary_reads_come_to_an_end(
    dictionary: DictionaryReadView,
    replies: Seq<ReplyView>,
)
    requires
        dictionary is Listing || dictionary == DictionaryReadView::Finding(ActiveService::Opening),
        fitting::<DictionaryRead>(StepView::Ask(dictionary), replies),
        replies.len() >= 9,
    ensures
        fed::<DictionaryRead>(StepView::Ask(dictionary), replies) is Done,
{
    comes_to_an_end::<DictionaryRead>(
        dictionary,
        replies,
        |state: DictionaryReadView| true,
        |state: DictionaryReadView| read_left(state),
    );
}

/// Reading the settings of a service from the preferences comes to an end, after five replies at
/// most.
pub proof fn queries_come_to_an_end(id: PropertyView, replies: Seq<ReplyView>)
    requires
        fitting::<ProxiesQuery>(StepView::Ask(ProxiesQueryView::CopyingService(id)), replies),
        replies.len() >= 5,
    ensures
        fed::<ProxiesQuery>(StepView::Ask(ProxiesQueryView::CopyingService(id)), replies) is Done,
{
    comes_to_an_end::<ProxiesQuery>(
        ProxiesQueryView::CopyingService(id),
        replies,
        |state: ProxiesQueryView| true,
        |state: ProxiesQueryView| query_left(state),
    );
}

/// With the dynamic store to fall back on it comes to an end after seven replies at most.
pub proof fn resolutions_come_to_an_end(id: PropertyView, replies: Seq<ReplyView>)
    requires
        fitting::<ResolveProxies>(StepView::Ask(ResolveProxiesView::start(id)), replies),
        replies.len() >= 7,
    ensures
        fed::<ResolveProxies>(StepView::Ask(ResolveProxiesView::start(id)), replies) is Done,
{
    comes_to_an_end::<ResolveProxies>(
        ResolveProxiesView::start(id),
        replies,
        |state: ResolveProxiesView| true,
        |state: ResolveProxiesView| resolve_left(state),
    );
}

/// Finding the id of the active service comes to an end, after two replies at most.
pub proof fn searches_come_to_an_end(replies: Seq<ReplyView>)
    requires
        fitting::<ActiveService>(StepView::Ask(ActiveService::Opening), replies),
        replies.len() >= 2,
    ensures
        fed::<ActiveService>(StepView::Ask(ActiveService::Opening), replies) is Done,
{
    comes_to_an_end::<ActiveService>(
        ActiveService::Opening,
        replies,
        |state: ActiveService| true,
        |state: ActiveService| find_left(state),
    );
}

/// The replies that finding the name of a service still takes, at most.
spec fn name_left(name: ServiceNameView) -> nat {
    match name {
        ServiceNameView::Finding(find) => find_left(find) + 3,
        ServiceNameView::Copying(_) => 3,
        ServiceNameView::Naming => 2,
        ServiceNameView::Releasing(_) => 1,
    }
}

/// Finding the name of the active service comes to an end, after five replies at most.
pub proof fn names_come_to_an_end(replies: Seq<ReplyView>)
    requires
        fitting::<ServiceName>(
            StepView::Ask(ServiceNameView::Finding(ActiveService::Opening)),
            replies,
        ),
        replies.len() >= 5,
    ensures
        fed::<ServiceName>(
            StepView::Ask(ServiceNameView::Finding(ActiveService::Opening)),
            replies,
        ) is Done,
{
    comes_to_an_end::<ServiceName>(
        ServiceNameView::Finding(ActiveService::Opening),
        replies,
        |state: ServiceNameView| true,
        |state: ServiceNameView| name_left(state),
    );
}

/// Trying the lock comes to an end, after two replies at most.
pub proof fn lock_probe_comes_to_an_end(replies: Seq<ReplyView>)
    requires
        fitting::<LockProbe>(StepView::Ask(LockProbe::Locking), replies),
        replies.len() >= 2,
    ensures
        fed::<LockProbe>(StepView::Ask(LockProbe::Locking), replies) is Done,
{
    comes_to_an_end::<LockProbe>(
        LockProbe::Locking,
        replies,
        |state: LockProbe| true,
        |state: LockProbe| match state {
            LockProbe::Locking => 2nat,
            LockProbe::Unlocking => 1nat,
        },
    );
}

/// The commands that a run still has to go.
spec fn run_left(run: CommandRunView) -> nat {
    (run.commands.len() - run.writes.completed) as nat
}

/// A run of commands comes to an end, after as many replies as it has commands at most.
pub proof fn runs_come_to_an_end(commands: Seq<Seq<Seq<char>>>, replies: Seq<ReplyView>)
    requires
        0 < commands.len() <= u8::MAX,
        fitting::<CommandRun>(StepView::Ask(CommandRunView::start(commands)), replies),
        replies.len() >= commands.len(),
    ensures
        fed::<CommandRun>(StepView::Ask(CommandRunView::start(commands)), replies) is Done,
{
    comes_to_an_end::<CommandRun>(
        CommandRunView::start(commands),
        replies,
        |state: CommandRunView| state.writes.completed < state.commands.len() <= u8::MAX,
        |state: CommandRunView| run_left(state),
    );
}

/// Writing to the active service comes to an end, after twelve replies at most.
pub proof fn writes_come_to_an_end(target: TargetView, replies: Seq<ReplyView>)
    requires
        fitting::<ActiveWrite>(StepView::Ask(ActiveWriteView::start(target)), replies),
        replies.len() >= 12,
    ensures
        fed::<ActiveWrite>(StepView::Ask(ActiveWriteView::start(target)), replies) is Done,
{
    let inv = |state: ActiveWriteView|
        match state {
            ActiveWriteView::Finding { .. } => true,
            ActiveWriteView::Running(run) => run.writes.completed < run.commands.len() <= 7,
        };
    let left = |state: ActiveWriteView|
        match state {
            ActiveWriteView::Finding { name, .. } => name_left(name) + 7,
            ActiveWriteView::Running(run) => run_left(run),
        };
    comes_to_an_end::<ActiveWrite>(ActiveWriteView::start(target), replies, inv, left);
}

/// The replies that a transaction still takes, at most.
spec fn native_left(phase: NativePhaseView) -> nat {
    match phase {
        NativePhaseView::Finding(find) => find_left(find) + 11,
        NativePhaseView::Locking(_) => 11,
        NativePhaseView::CopyingService(_) => 10,
        NativePhaseView::CopyingProtocol => 9,
        NativePhaseView::ReleasingService { .. } => 8,
        NativePhaseView::Reading => 7,
        NativePhaseView::Setting { .. } => 6,
        NativePhaseView::Committing => 5,
        NativePhaseView::Applying => 4,
        NativePhaseView::Unlocking => 3,
        NativePhaseView::Abandoning { .. } => 2,
        NativePhaseView::ReleasingProtocol { .. } => 1,
    }
}

/// A transaction comes to an end, after thirteen replies at most.
pub proof fn transactions_come_to_an_end(config: Settings, replies: Seq<ReplyView>)
    requires
        fitting::<NativeProxyWriter>(
            StepView::Ask(
                NativeProxyWriterView {
                    config,
                    phase: NativePhaseView::Finding(ActiveService::Opening),
                },
            ),
            replies,
        ),
        replies.len() >= 13,
    ensures
        fed::<NativeProxyWriter>(
            StepView::Ask(
                NativeProxyWriterView {
                    config,
                    phase: NativePhaseView::Finding(ActiveService::Opening),
                },
            ),
            replies,
        ) is Done,
{
    let start = NativeProxyWriterView {
        config,
        phase: NativePhaseView::Finding(ActiveService::Opening),
    };
    comes_to_an_end::<NativeProxyWriter>(
        start,
        replies,
        |state: NativeProxyWriterView| true,
        |state: NativeProxyWriterView| native_left(state.phase),
    );
}

/// Whether the first `n` replies accept the commands that they answer.
pub open spec fn accepted_up_to(
    commands: Seq<Seq<Seq<char>>>,
    replies: Seq<ReplyView>,
    n: int,
) -> bool {
    forall|i: int|
        0 <= i < n ==> networksetup::attempt(commands[i], (#[trigger] replies[i])->Ran_0) is Ok
}

/// A run of which the first `n` commands were accepted is at its next command, or over.
proof fn run_after_accepted(
    commands: Seq<Seq<Seq<char>>>,
    done: nat,
    replies: Seq<ReplyView>,
    n: nat,
)
    requires
        done + n <= commands.len() <= u8::MAX,
        done < commands.len(),
        n <= replies.len(),
        forall|i: int|
            0 <= i < n ==> networksetup::attempt(
                commands[done + i],
                (#[trigger] replies[i])->Ran_0,
            ) is Ok,
    ensures
        ({
            let state = CommandRunView {
                commands,
                writes: networksetup::WriteSequence {
                    completed: done as u8,
                    total: commands.len() as u8,
                },
            };
            fed::<CommandRun>(StepView::Ask(state), replies) == if done + n < commands.len() {
                fed::<CommandRun>(
                    StepView::Ask(
                        CommandRunView {
                            writes: networksetup::WriteSequence {
                                completed: (done + n) as u8,
                                ..state.writes
                            },
                            ..state
                        },
                    ),
                    replies.skip(n as int),
                )
            } else {
                StepView::Done(Ok(()))
            }
        }),
    decreases n,
{
    reveal_with_fuel(fed, 2);
    if n == 0 {
        assert(replies.skip(0) == replies);
    } else {
        assert(networksetup::attempt(commands[done as int], replies[0]->Ran_0) is Ok);
        let rest = replies.drop_first();
        if done + 1 < commands.len() {
            assert forall|i: int| 0 <= i < n - 1 implies networksetup::attempt(
                commands[done + 1 + i],
                (#[trigger] rest[i])->Ran_0,
            ) is Ok by {
                assert(rest[i] == replies[i + 1]);
            }
            run_after_accepted(commands, done + 1, rest, (n - 1) as nat);
            assert(rest.skip(n - 1) == replies.skip(n as int));
        }
    }
}

/// A run of commands stops at the first one that fails: it reports how many were accepted before,
/// of how many, and why that one failed.
pub proof fn run_stops_at_first_failure(
    commands: Seq<Seq<Seq<char>>>,
    replies: Seq<ReplyView>,
    failing: nat,
)
    requires
        0 < commands.len() <= u8::MAX,
        failing < commands.len(),
        failing < replies.len(),
        accepted_up_to(commands, replies, failing as int),
        networksetup::attempt(commands[failing as int], replies[failing as int]->Ran_0) is Err,
    ensures
        fed::<CommandRun>(StepView::Ask(CommandRunView::start(commands)), replies)
            == StepView::<CommandRunView, Result<(), ErrorView>>::Done(
            Err(
                (networksetup::WriteSequence {
                    completed: failing as u8,
                    total: commands.len() as u8,
                }).failed(
                    networksetup::attempt(
                        commands[failing as int],
                        replies[failing as int]->Ran_0,
                    )->Err_0,
                ),
            ),
        ),
{
    reveal_with_fuel(fed, 2);
    run_after_accepted(commands, 0, replies, failing);
    assert(replies.skip(failing as int).first() == replies[failing as int]);
}

/// A run of commands succeeds where every one of them is accepted.
pub proof fn run_succeeds_when_all_accepted(
    commands: Seq<Seq<Seq<char>>>,
    replies: Seq<ReplyView>,
)
    requires
        0 < commands.len() <= u8::MAX,
        commands.len() <= replies.len(),
        accepted_up_to(commands, replies, commands.len() as int),
    ensures
        fed::<CommandRun>(StepView::Ask(CommandRunView::start(commands)), replies)
            == StepView::<CommandRunView, Result<(), ErrorView>>::Done(Ok(())),
{
    run_after_accepted(commands, 0, replies, commands.len());
}

/// Until then the run asks for its commands in order: after `n` of them were accepted, for the one
/// that follows.
pub proof fn run_keeps_the_order(
    commands: Seq<Seq<Seq<char>>>,
    replies: Seq<ReplyView>,
)
    requires
        replies.len() < commands.len() <= u8::MAX,
        accepted_up_to(commands, replies, replies.len() as int),
    ensures
        fed::<CommandRun>(StepView::Ask(CommandRunView::start(commands)), replies) matches
            StepView::Ask(state) && CommandRun::wanted(state) == ActionView::Run(
            commands[replies.len() as int],
        ),
{
    run_after_accepted(commands, 0, replies, replies.len());
}

} // verus!
