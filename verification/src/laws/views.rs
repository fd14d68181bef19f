//! What values stand for: nothing that they hold is lost or changed.

use crate::error::{Error, ErrorView};
use crate::property::{PropertyValue, PropertyView};
use crate::proxy::{Autoproxy, ProxyConfig, ProxyEndpoint, ProxySnapshot, Sysproxy};
use crate::system::{
    Action, ActionView, CommandOutput, NetworkService, Reply, ReplyView, StoreValue, StoreView,
};
use vstd::prelude::*;

verus! {

/// Proxies and configurations stand for their fields.
pub proof fn proxies_stand_for_their_fields(
    proxy: Sysproxy,
    auto: Autoproxy,
    endpoint: ProxyEndpoint,
    config: ProxyConfig,
)
    ensures
        proxy@.enable == proxy.enable,
        proxy@.host == proxy.host@,
        proxy@.port == proxy.port,
        proxy@.bypass == proxy.bypass@,
        auto@.enable == auto.enable,
        auto@.url == auto.url@,
        endpoint@.host == endpoint.host@,
        endpoint@.port == endpoint.port,
        endpoint@.enable == endpoint.enable,
        endpoint@.switched_on == endpoint.switched_on,
        config@.system == config.system@,
        config@.auto == config.auto@,
{
}

/// A snapshot stands for its fields.
pub proof fn snapshots_stand_for_their_fields(snapshot: ProxySnapshot)
    ensures
        snapshot@.socks == snapshot.socks@,
        snapshot@.http == snapshot.http@,
        snapshot@.https == snapshot.https@,
        snapshot@.auto == snapshot.auto@,
        snapshot@.auto_switched_on == snapshot.auto_switched_on,
        snapshot@.bypass == snapshot.bypass@,
{
}

/// A settings value stands for its number, its text or its items.
pub proof fn values_stand_for_their_contents(value: PropertyValue, i: int)
    ensures
        value matches PropertyValue::Number(n) ==> value@ == PropertyView::Number(n),
        value matches PropertyValue::Text(s) ==> value@ == PropertyView::Text(s@),
        value matches PropertyValue::List(items) ==> (value@ matches PropertyView::List(seen) && {
            &&& seen.len() == items@.len()
            &&& 0 <= i < items@.len() ==> (items@[i] is Some) == (seen[i] is Some)
            &&& 0 <= i < items@.len() && items@[i] is Some ==> seen[i]->Some_0
                == items@[i]->Some_0@
        }),
        value is Other ==> value@ == PropertyView::Other,
{
}

/// What the operating system is told and tells stands for what it holds.
pub proof fn messages_stand_for_their_contents(
    action: Action,
    reply: Reply,
    output: CommandOutput,
    service: NetworkService,
    stored: StoreValue,
    i: int,
)
    ensures
        action matches Action::ReadStore(key) ==> action@ == ActionView::ReadStore(key@),
        action matches Action::CopyService(id) ==> action@ == ActionView::CopyService(id@),
        action matches Action::CopyProtocol(name) ==> action@ == ActionView::CopyProtocol(name@),
        action matches Action::Run(args) ==> (action@ matches ActionView::Run(seen) && seen.len()
            == args@.len() && (0 <= i < args@.len() ==> seen[i] == args@[i]@)),
        action matches Action::SetConfiguration { keep_current, assignments } ==> action@ == (
        ActionView::SetConfiguration { keep_current, assignments: assignments@ }),
        reply matches Reply::Answer(yes) ==> reply@ == ReplyView::Answer(yes),
        reply matches Reply::Stored(Some(value)) ==> reply@ == ReplyView::Stored(Some(value@)),
        reply matches Reply::Stored(None) ==> reply@ == ReplyView::Stored(None),
        reply matches Reply::Name(Some(name)) ==> reply@ == ReplyView::Name(Some(name@)),
        reply matches Reply::Name(None) ==> reply@ == ReplyView::Name(None),
        reply matches Reply::Configuration(Some(dict)) ==> reply@ == ReplyView::Configuration(
            Some(dict@),
        ),
        reply matches Reply::Configuration(None) ==> reply@ == ReplyView::Configuration(None),
        reply matches Reply::Services(list) ==> (reply@ matches ReplyView::Services(seen)
            && seen.len() == list@.len() && (0 <= i < list@.len() ==> seen[i] == list@[i]@)),
        reply matches Reply::Ran(Ok(out)) ==> reply@ == ReplyView::Ran(Ok(out@)),
        reply matches Reply::Ran(Err(e)) ==> reply@ == ReplyView::Ran(Err(e)),
        output@.success == output.success,
        output@.code == output.code,
        output@.status == output.status@,
        output@.stdout == output.stdout@,
        output@.stderr == output.stderr@,
        service.display_name matches Some(name) ==> service@.display_name == Some(name@),
        service.display_name is None ==> service@.display_name is None,
        service.id matches Some(id) ==> service@.id == Some(id@),
        service.id is None ==> service@.id is None,
        stored matches StoreValue::Dictionary(dict) ==> stored@ == StoreView::Dictionary(dict@),
        stored is Other ==> stored@ == StoreView::Other,
{
}

/// A failure stands for its kind and for what it carries.
pub proof fn failures_stand_for_their_contents(e: Error)
    ensures
        e matches Error::Io(cause) ==> e@ == ErrorView::Io(cause),
        e is NetworkInterface <==> e@ == ErrorView::NetworkInterface,
        e is NoActiveNetworkService <==> e@ == ErrorView::NoActiveNetworkService,
        e is SCDynamicStore <==> e@ == ErrorView::SCDynamicStore,
        e is SCPreferences <==> e@ == ErrorView::SCPreferences,
        e matches Error::ParseStr(s) ==> e@ == ErrorView::ParseStr(s@),
        e matches Error::NetworkSetup(s) ==> e@ == ErrorView::NetworkSetup(s@),
        e is RequiresAdminPrivileges <==> e@ == ErrorView::RequiresAdminPrivileges,
        e matches Error::SystemConfiguration(s) ==> e@ == ErrorView::SystemConfiguration(s@),
        e matches Error::ProxyWrite { progress, source } ==> e@ == (ErrorView::ProxyWrite {
            progress,
            source: Box::new(source@),
        }),
{
    reveal_with_fuel(Error::meaning, 2);
}

} // verus!
