//! Finding network services and their settings dictionaries.

use crate::error::{Error, ErrorView};
use crate::parse::Settings;
use crate::property::{Dictionary, PropertyValue, PropertyView};
use crate::system::{
    Action, ActionView, NetworkService, NetworkServiceView, Reply, ReplyView, Step, StepView,
    StoreValue, StoreView, Task,
};
use crate::{error, property, system, text};
use vstd::prelude::*;
use vstd::string::*;

verus! {

/// The id of the first service whose interface goes by `name`.
pub open spec fn first_named(services: Seq<NetworkServiceView>, name: Seq<char>) -> Option<Seq<char>>
    decreases services.len(),
{
    if services.len() == 0 {
        None
    } else if services.first().display_name == Some(name) {
        services.first().id
    } else {
        first_named(services.drop_first(), name)
    }
}

/// Finds a service by the display name of its interface. The first match decides, even where it
/// has no id.
pub fn get_service_id_by_display_name(services: &Vec<NetworkService>, name: &str) -> (id: Option<
    String,
>)
    ensures
        property::optional_text(id) == first_named(
            services@.map_values(|service: NetworkService| service@),
            name@,
        ),
{
    let ghost all = services@.map_values(|service: NetworkService| service@);
    proof {
        assert(all.skip(0) == all);
    }
    let mut i: usize = 0;
    while i < services.len()
        invariant
            i <= services.len(),
            all == services@.map_values(|service: NetworkService| service@),
            first_named(all.skip(i as int), name@) == first_named(all, name@),
        decreases services.len() - i,
    {
        proof {
            assert(all.skip(i as int).first() == services@[i as int]@);
            assert(all.skip(i as int).drop_first() == all.skip(i + 1));
        }
        if let Some(shown) = &services[i].display_name {
            if text::same_text(shown.as_str(), name) {
                return services[i].id.clone();
            }
        }
        i = i + 1;
    }
    None
}

/// The key of the dynamic store under which the active service is found.
pub open spec fn global_key() -> Seq<char> {
    "State:/Network/Global/IPv4"@
}

/// The id of the active service in a value of the dynamic store: what stands under its key, of
/// whatever type.
pub open spec fn primary_service(value: Option<StoreView>) -> Result<PropertyView, ErrorView> {
    match value {
        Some(StoreView::Dictionary(dict)) => if dict.contains_key("PrimaryService"@) {
            Ok(dict["PrimaryService"@])
        } else {
            Err(ErrorView::NoActiveNetworkService)
        },
        _ => Err(ErrorView::NoActiveNetworkService),
    }
}

/// Reads the id of the active service from a value of the dynamic store.
pub fn read_primary_service(value: Option<StoreValue>) -> (id: Result<PropertyValue, Error>)
    ensures
        error::outcome(id) == primary_service(system::optional(value)),
{
    if let Some(StoreValue::Dictionary(dict)) = value {
        if let Some(id) = dict.find("PrimaryService") {
            return Ok(id.clone());
        }
    }
    Err(Error::NoActiveNetworkService)
}

/// Finding the id of the active service.
#[derive(Debug, Clone, Copy)]
pub enum ActiveService {
    Opening,
    Reading,
}

impl View for ActiveService {
    type V = ActiveService;

    open spec fn view(&self) -> ActiveService {
        *self
    }
}

impl Task for ActiveService {
    type Output = Result<PropertyValue, Error>;

    type Seen = Result<PropertyView, ErrorView>;

    open spec fn seen(output: Result<PropertyValue, Error>) -> Result<PropertyView, ErrorView> {
        error::outcome(output)
    }

    open spec fn wanted(state: ActiveService) -> ActionView {
        match state {
            ActiveService::Opening => ActionView::OpenStore,
            ActiveService::Reading => ActionView::ReadStore(global_key()),
        }
    }

    open spec fn after(state: ActiveService, reply: ReplyView) -> StepView<
        ActiveService,
        Result<PropertyView, ErrorView>,
    > {
        match state {
            ActiveService::Opening => if reply.accepted() {
                StepView::Ask(ActiveService::Reading)
            } else {
                StepView::Done(Err(ErrorView::SCDynamicStore))
            },
            ActiveService::Reading => StepView::Done(primary_service(reply->Stored_0)),
        }
    }

    fn action(&self) -> (action: Action) {
        match self {
            ActiveService::Opening => Action::OpenStore,
            ActiveService::Reading => Action::ReadStore("State:/Network/Global/IPv4".to_owned()),
        }
    }

    fn reply(self, reply: Reply) -> (step: Step<ActiveService, Result<PropertyValue, Error>>) {
        match self {
            ActiveService::Opening => if reply.accepted() {
                Step::Ask(ActiveService::Reading)
            } else {
                Step::Done(Err(Error::SCDynamicStore))
            },
            ActiveService::Reading => match reply {
                Reply::Stored(value) => Step::Done(read_primary_service(value)),
                _ => vstd::pervasive::unreached(),
            },
        }
    }
}

/// Starts to look for the id of the active service.
pub fn get_active_network_service_uuid() -> (step: Step<
    ActiveService,
    Result<PropertyValue, Error>,
>)
    ensures
        step == Step::<ActiveService, Result<PropertyValue, Error>>::Ask(ActiveService::Opening),
{
    Step::Ask(ActiveService::Opening)
}

/// Finding the name of the active service.
#[derive(Debug)]
pub enum ServiceName {
    Finding(ActiveService),
    Copying(PropertyValue),
    Naming,
    Releasing(Option<String>),
}

/// What a [`ServiceName`] stands for.
pub enum ServiceNameView {
    Finding(ActiveService),
    Copying(PropertyView),
    Naming,
    Releasing(Option<Seq<char>>),
}

impl View for ServiceName {
    type V = ServiceNameView;

    open spec fn view(&self) -> ServiceNameView {
        match self {
            ServiceName::Finding(find) => ServiceNameView::Finding(*find),
            ServiceName::Copying(id) => ServiceNameView::Copying(id@),
            ServiceName::Naming => ServiceNameView::Naming,
            ServiceName::Releasing(name) => ServiceNameView::Releasing(system::optional(*name)),
        }
    }
}

/// A text that must be there.
pub open spec fn text_or(value: Option<Seq<char>>, missing: ErrorView) -> Result<
    Seq<char>,
    ErrorView,
> {
    match value {
        Some(s) => Ok(s),
        None => Err(missing),
    }
}

impl Task for ServiceName {
    type Output = Result<String, Error>;

    type Seen = Result<Seq<char>, ErrorView>;

    open spec fn seen(output: Result<String, Error>) -> Result<Seq<char>, ErrorView> {
        error::outcome(output)
    }

    open spec fn wanted(state: ServiceNameView) -> ActionView {
        match state {
            ServiceNameView::Finding(find) => ActiveService::wanted(find),
            ServiceNameView::Copying(id) => ActionView::CopyService(id),
            ServiceNameView::Naming => ActionView::ReadServiceName,
            ServiceNameView::Releasing(_) => ActionView::ReleaseService,
        }
    }

    open spec fn after(state: ServiceNameView, reply: ReplyView) -> StepView<
        ServiceNameView,
        Result<Seq<char>, ErrorView>,
    > {
        match state {
            ServiceNameView::Finding(find) => match ActiveService::after(find, reply) {
                StepView::Ask(next) => StepView::Ask(ServiceNameView::Finding(next)),
                StepView::Done(Ok(id)) => StepView::Ask(ServiceNameView::Copying(id)),
                StepView::Done(Err(e)) => StepView::Done(Err(e)),
            },
            ServiceNameView::Copying(_) => if reply.accepted() {
                StepView::Ask(ServiceNameView::Naming)
            } else {
                StepView::Done(Err(ErrorView::NetworkInterface))
            },
            ServiceNameView::Naming => StepView::Ask(ServiceNameView::Releasing(reply->Name_0)),
            ServiceNameView::Releasing(name) => StepView::Done(
                text_or(name, ErrorView::NetworkInterface),
            ),
        }
    }

    fn action(&self) -> (action: Action) {
        match self {
            ServiceName::Finding(find) => find.action(),
            ServiceName::Copying(id) => Action::CopyService(id.clone()),
            ServiceName::Naming => Action::ReadServiceName,
            ServiceName::Releasing(_) => Action::ReleaseService,
        }
    }

    fn reply(self, reply: Reply) -> (step: Step<ServiceName, Result<String, Error>>) {
        match self {
            ServiceName::Finding(find) => match find.reply(reply) {
                Step::Ask(next) => Step::Ask(ServiceName::Finding(next)),
                Step::Done(Ok(id)) => Step::Ask(ServiceName::Copying(id)),
                Step::Done(Err(e)) => Step::Done(Err(e)),
            },
            ServiceName::Copying(_) => if reply.accepted() {
                Step::Ask(ServiceName::Naming)
            } else {
                Step::Done(Err(Error::NetworkInterface))
            },
            ServiceName::Naming => match reply {
                Reply::Name(name) => Step::Ask(ServiceName::Releasing(name)),
                _ => vstd::pervasive::unreached(),
            },
            ServiceName::Releasing(name) => match name {
                Some(name) => Step::Done(Ok(name)),
                None => Step::Done(Err(Error::NetworkInterface)),
            },
        }
    }
}

/// Starts to look for the name of the active service.
pub fn get_active_network_service() -> (step: Step<ServiceName, Result<String, Error>>)
    ensures
        step matches Step::Ask(task) && task@ == ServiceNameView::Finding(ActiveService::Opening),
{
    Step::Ask(ServiceName::Finding(ActiveService::Opening))
}

/// Reading the settings dictionary of the service with a given id from the preferences.
#[derive(Debug)]
pub enum ProxiesQuery {
    CopyingService(PropertyValue),
    CopyingProtocol,
    Reading,
    /// Releasing the service. Unless `protocol` holds, there is no protocol to release after it.
    ReleasingService { protocol: bool, config: Option<Dictionary> },
    ReleasingProtocol(Option<Dictionary>),
}

/// What a [`ProxiesQuery`] stands for.
pub enum ProxiesQueryView {
    CopyingService(PropertyView),
    CopyingProtocol,
    Reading,
    ReleasingService { protocol: bool, config: Option<Settings> },
    ReleasingProtocol(Option<Settings>),
}

impl View for ProxiesQuery {
    type V = ProxiesQueryView;

    open spec fn view(&self) -> ProxiesQueryView {
        match self {
            ProxiesQuery::CopyingService(id) => ProxiesQueryView::CopyingService(id@),
            ProxiesQuery::CopyingProtocol => ProxiesQueryView::CopyingProtocol,
            ProxiesQuery::Reading => ProxiesQueryView::Reading,
            ProxiesQuery::ReleasingService { protocol, config } => {
                ProxiesQueryView::ReleasingService {
                    protocol: *protocol,
                    config: system::optional(*config),
                }
            },
            ProxiesQuery::ReleasingProtocol(config) => ProxiesQueryView::ReleasingProtocol(
                system::optional(*config),
            ),
        }
    }
}

/// A dictionary that the preferences must hold.
pub open spec fn configured(config: Option<Settings>) -> Result<Settings, ErrorView> {
    match config {
        Some(dict) => Ok(dict),
        None => Err(ErrorView::SCPreferences),
    }
}

/// A dictionary that the preferences must hold.
fn require_configured(config: Option<Dictionary>) -> (dict: Result<Dictionary, Error>)
    ensures
        error::outcome(dict) == configured(system::optional(config)),
{
    match config {
        Some(dict) => Ok(dict),
        None => Err(Error::SCPreferences),
    }
}

impl Task for ProxiesQuery {
    type Output = Result<Dictionary, Error>;

    type Seen = Result<Settings, ErrorView>;

    open spec fn seen(output: Result<Dictionary, Error>) -> Result<Settings, ErrorView> {
        error::outcome(output)
    }

    open spec fn wanted(state: ProxiesQueryView) -> ActionView {
        match state {
            ProxiesQueryView::CopyingService(id) => ActionView::CopyService(id),
            ProxiesQueryView::CopyingProtocol => ActionView::CopyProtocol("Proxies"@),
            ProxiesQueryView::Reading => ActionView::ReadConfiguration,
            ProxiesQueryView::ReleasingService { .. } => ActionView::ReleaseService,
            ProxiesQueryView::ReleasingProtocol(_) => ActionView::ReleaseProtocol,
        }
    }

    open spec fn after(state: ProxiesQueryView, reply: ReplyView) -> StepView<
        ProxiesQueryView,
        Result<Settings, ErrorView>,
    > {
        match state {
            ProxiesQueryView::CopyingService(_) => if reply.accepted() {
                StepView::Ask(ProxiesQueryView::CopyingProtocol)
            } else {
                StepView::Done(Err(ErrorView::SCPreferences))
            },
            ProxiesQueryView::CopyingProtocol => if reply.accepted() {
                StepView::Ask(ProxiesQueryView::Reading)
            } else {
                StepView::Ask(ProxiesQueryView::ReleasingService { protocol: false, config: None })
            },
            ProxiesQueryView::Reading => StepView::Ask(
                ProxiesQueryView::ReleasingService {
                    protocol: true,
                    config: reply->Configuration_0,
                },
            ),
            ProxiesQueryView::ReleasingService { protocol, config } => if protocol {
                StepView::Ask(ProxiesQueryView::ReleasingProtocol(config))
            } else {
                StepView::Done(configured(config))
            },
            ProxiesQueryView::ReleasingProtocol(config) => StepView::Done(configured(config)),
        }
    }

    fn action(&self) -> (action: Action) {
        match self {
            ProxiesQuery::CopyingService(id) => Action::CopyService(id.clone()),
            ProxiesQuery::CopyingProtocol => Action::CopyProtocol("Proxies".to_owned()),
            ProxiesQuery::Reading => Action::ReadConfiguration,
            ProxiesQuery::ReleasingService { .. } => Action::ReleaseService,
            ProxiesQuery::ReleasingProtocol(_) => Action::ReleaseProtocol,
        }
    }

    fn reply(self, reply: Reply) -> (step: Step<ProxiesQuery, Result<Dictionary, Error>>) {
        match self {
            ProxiesQuery::CopyingService(_) => if reply.accepted() {
                Step::Ask(ProxiesQuery::CopyingProtocol)
            } else {
                Step::Done(Err(Error::SCPreferences))
            },
            ProxiesQuery::CopyingProtocol => if reply.accepted() {
                Step::Ask(ProxiesQuery::Reading)
            } else {
                Step::Ask(ProxiesQuery::ReleasingService { protocol: false, config: None })
            },
            ProxiesQuery::Reading => match reply {
                Reply::Configuration(config) => Step::Ask(
                    ProxiesQuery::ReleasingService { protocol: true, config },
                ),
                _ => vstd::pervasive::unreached(),
            },
            ProxiesQuery::ReleasingService { protocol, config } => if protocol {
                Step::Ask(ProxiesQuery::ReleasingProtocol(config))
            } else {
                Step::Done(require_configured(config))
            },
            ProxiesQuery::ReleasingProtocol(config) => Step::Done(require_configured(config)),
        }
    }
}

/// Starts to read the settings dictionary of a service.
pub fn get_proxies_by_service_uuid(id: PropertyValue) -> (step: Step<
    ProxiesQuery,
    Result<Dictionary, Error>,
>)
    ensures
        step matches Step::Ask(task) && task@ == ProxiesQueryView::CopyingService(id@),
{
    Step::Ask(ProxiesQuery::CopyingService(id))
}

/// The key of the dynamic store under which the settings of a service are found.
pub open spec fn setup_key(id: Seq<char>) -> Seq<char> {
    "Setup:/Network/Service/"@ + id + "/Proxies"@
}

/// The settings dictionary in a value of the dynamic store.
pub open spec fn stored_settings(value: Option<StoreView>) -> Result<Settings, ErrorView> {
    match value {
        Some(StoreView::Dictionary(dict)) => Ok(dict),
        Some(StoreView::Other) => Err(ErrorView::ParseStr("Not a dictionary"@)),
        None => Err(
            ErrorView::ParseStr("Proxy settings not found in preferences or DynamicStore"@),
        ),
    }
}

/// Reads the settings dictionary from a value of the dynamic store.
pub fn read_stored_settings(value: Option<StoreValue>) -> (dict: Result<Dictionary, Error>)
    ensures
        error::outcome(dict) == stored_settings(system::optional(value)),
{
    match value {
        Some(StoreValue::Dictionary(dict)) => Ok(dict),
        Some(StoreValue::Other) => Err(Error::ParseStr("Not a dictionary".to_owned())),
        None => Err(
            Error::ParseStr(
                "Proxy settings not found in preferences or DynamicStore".to_owned(),
            ),
        ),
    }
}

/// Reading the settings dictionary of a service from the preferences, or from the dynamic store
/// where the preferences have none. There is no key of the dynamic store for an id that is no text,
/// so nothing is found there for it.
#[derive(Debug)]
pub enum ResolveProxies {
    Preferences { id: PropertyValue, query: ProxiesQuery },
    Opening(PropertyValue),
    Reading(String),
}

/// What a [`ResolveProxies`] stands for.
pub enum ResolveProxiesView {
    Preferences { id: PropertyView, query: ProxiesQueryView },
    Opening(PropertyView),
    Reading(Seq<char>),
}

impl View for ResolveProxies {
    type V = ResolveProxiesView;

    open spec fn view(&self) -> ResolveProxiesView {
        match self {
            ResolveProxies::Preferences { id, query } => ResolveProxiesView::Preferences {
                id: id@,
                query: query@,
            },
            ResolveProxies::Opening(id) => ResolveProxiesView::Opening(id@),
            ResolveProxies::Reading(id) => ResolveProxiesView::Reading(id@),
        }
    }
}

impl ResolveProxiesView {
    /// The first state for the service with this id.
    pub open spec fn start(id: PropertyView) -> ResolveProxiesView {
        ResolveProxiesView::Preferences { id, query: ProxiesQueryView::CopyingService(id) }
    }
}

impl Task for ResolveProxies {
    type Output = Result<Dictionary, Error>;

    type Seen = Result<Settings, ErrorView>;

    open spec fn seen(output: Result<Dictionary, Error>) -> Result<Settings, ErrorView> {
        error::outcome(output)
    }

    open spec fn wanted(state: ResolveProxiesView) -> ActionView {
        match state {
            ResolveProxiesView::Preferences { query, .. } => ProxiesQuery::wanted(query),
            ResolveProxiesView::Opening(_) => ActionView::OpenStore,
            ResolveProxiesView::Reading(id) => ActionView::ReadStore(setup_key(id)),
        }
    }

    open spec fn after(state: ResolveProxiesView, reply: ReplyView) -> StepView<
        ResolveProxiesView,
        Result<Settings, ErrorView>,
    > {
        match state {
            ResolveProxiesView::Preferences { id, query } => match ProxiesQuery::after(
                query,
                reply,
            ) {
                StepView::Ask(next) => StepView::Ask(
                    ResolveProxiesView::Preferences { id, query: next },
                ),
                StepView::Done(Ok(dict)) => StepView::Done(Ok(dict)),
                StepView::Done(Err(_)) => StepView::Ask(ResolveProxiesView::Opening(id)),
            },
            ResolveProxiesView::Opening(id) => if !reply.accepted() {
                StepView::Done(Err(ErrorView::SCDynamicStore))
            } else if let PropertyView::Text(name) = id {
                StepView::Ask(ResolveProxiesView::Reading(name))
            } else {
                StepView::Done(stored_settings(None))
            },
            ResolveProxiesView::Reading(_) => StepView::Done(stored_settings(reply->Stored_0)),
        }
    }

    fn action(&self) -> (action: Action) {
        match self {
            ResolveProxies::Preferences { query, .. } => query.action(),
            ResolveProxies::Opening(_) => Action::OpenStore,
            ResolveProxies::Reading(id) => Action::ReadStore(
                "Setup:/Network/Service/".to_owned().concat(id.as_str()).concat("/Proxies"),
            ),
        }
    }

    fn reply(self, reply: Reply) -> (step: Step<ResolveProxies, Result<Dictionary, Error>>) {
        match self {
            ResolveProxies::Preferences { id, query } => match query.reply(reply) {
                Step::Ask(next) => Step::Ask(ResolveProxies::Preferences { id, query: next }),
                Step::Done(Ok(dict)) => Step::Done(Ok(dict)),
                Step::Done(Err(_)) => Step::Ask(ResolveProxies::Opening(id)),
            },
            ResolveProxies::Opening(id) => if !reply.accepted() {
                Step::Done(Err(Error::SCDynamicStore))
            } else if let PropertyValue::Text(name) = id {
                Step::Ask(ResolveProxies::Reading(name))
            } else {
                Step::Done(read_stored_settings(None))
            },
            ResolveProxies::Reading(_) => match reply {
                Reply::Stored(value) => Step::Done(read_stored_settings(value)),
                _ => vstd::pervasive::unreached(),
            },
        }
    }
}

/// Starts to read the settings dictionary of a service, with the dynamic store to fall back on.
pub fn resolve_proxies_dict(id: PropertyValue) -> (step: Step<
    ResolveProxies,
    Result<Dictionary, Error>,
>)
    ensures
        step matches Step::Ask(task) && task@ == ResolveProxiesView::start(id@),
{
    Step::Ask(
        ResolveProxies::Preferences { id: id.clone(), query: ProxiesQuery::CopyingService(id) },
    )
}

/// Reading a settings dictionary: that of the active service, or that of a service by the display
/// name of its interface.
#[derive(Debug)]
pub enum DictionaryRead {
    Finding(ActiveService),
    Resolving(ResolveProxies),
    Listing(String),
    Querying(ProxiesQuery),
}

/// What a [`DictionaryRead`] stands for.
pub enum DictionaryReadView {
    Finding(ActiveService),
    Resolving(ResolveProxiesView),
    Listing(Seq<char>),
    Querying(ProxiesQueryView),
}

impl View for DictionaryRead {
    type V = DictionaryReadView;

    open spec fn view(&self) -> DictionaryReadView {
        match self {
            DictionaryRead::Finding(find) => DictionaryReadView::Finding(*find),
            DictionaryRead::Resolving(resolve) => DictionaryReadView::Resolving(resolve@),
            DictionaryRead::Listing(name) => DictionaryReadView::Listing(name@),
            DictionaryRead::Querying(query) => DictionaryReadView::Querying(query@),
        }
    }
}

impl Task for DictionaryRead {
    type Output = Result<Dictionary, Error>;

    type Seen = Result<Settings, ErrorView>;

    open spec fn seen(output: Result<Dictionary, Error>) -> Result<Settings, ErrorView> {
        error::outcome(output)
    }

    open spec fn wanted(state: DictionaryReadView) -> ActionView {
        match state {
            DictionaryReadView::Finding(find) => ActiveService::wanted(find),
            DictionaryReadView::Resolving(resolve) => ResolveProxies::wanted(resolve),
            DictionaryReadView::Listing(_) => ActionView::ListServices,
            DictionaryReadView::Querying(query) => ProxiesQuery::wanted(query),
        }
    }

    open spec fn after(state: DictionaryReadView, reply: ReplyView) -> StepView<
        DictionaryReadView,
        Result<Settings, ErrorView>,
    > {
        match state {
            DictionaryReadView::Finding(find) => match ActiveService::after(find, reply) {
                StepView::Ask(next) => StepView::Ask(DictionaryReadView::Finding(next)),
                StepView::Done(Ok(id)) => StepView::Ask(
                    DictionaryReadView::Resolving(ResolveProxiesView::start(id)),
                ),
                StepView::Done(Err(e)) => StepView::Done(Err(e)),
            },
            DictionaryReadView::Resolving(resolve) => match ResolveProxies::after(resolve, reply) {
                StepView::Ask(next) => StepView::Ask(DictionaryReadView::Resolving(next)),
                StepView::Done(result) => StepView::Done(result),
            },
            DictionaryReadView::Listing(name) => match first_named(reply->Services_0, name) {
                Some(id) => StepView::Ask(
                    DictionaryReadView::Querying(
                        ProxiesQueryView::CopyingService(PropertyView::Text(id)),
                    ),
                ),
                None => StepView::Done(Err(ErrorView::NetworkInterface)),
            },
            DictionaryReadView::Querying(query) => match ProxiesQuery::after(query, reply) {
                StepView::Ask(next) => StepView::Ask(DictionaryReadView::Querying(next)),
                StepView::Done(result) => StepView::Done(result),
            },
        }
    }

    fn action(&self) -> (action: Action) {
        match self {
            DictionaryRead::Finding(find) => find.action(),
            DictionaryRead::Resolving(resolve) => resolve.action(),
            DictionaryRead::Listing(_) => Action::ListServices,
            DictionaryRead::Querying(query) => query.action(),
        }
    }

    fn reply(self, reply: Reply) -> (step: Step<DictionaryRead, Result<Dictionary, Error>>) {
        match self {
            DictionaryRead::Finding(find) => match find.reply(reply) {
                Step::Ask(next) => Step::Ask(DictionaryRead::Finding(next)),
                Step::Done(Ok(id)) => match resolve_proxies_dict(id) {
                    Step::Ask(resolve) => Step::Ask(DictionaryRead::Resolving(resolve)),
                    Step::Done(result) => Step::Done(result),
                },
                Step::Done(Err(e)) => Step::Done(Err(e)),
            },
            DictionaryRead::Resolving(resolve) => match resolve.reply(reply) {
                Step::Ask(next) => Step::Ask(DictionaryRead::Resolving(next)),
                Step::Done(result) => Step::Done(result),
            },
            DictionaryRead::Listing(name) => match reply {
                Reply::Services(services) => {
                    match get_service_id_by_display_name(&services, name.as_str()) {
                        Some(id) => match get_proxies_by_service_uuid(PropertyValue::Text(id)) {
                            Step::Ask(query) => Step::Ask(DictionaryRead::Querying(query)),
                            Step::Done(result) => Step::Done(result),
                        },
                        None => Step::Done(Err(Error::NetworkInterface)),
                    }
                },
                _ => vstd::pervasive::unreached(),
            },
            DictionaryRead::Querying(query) => match query.reply(reply) {
                Step::Ask(next) => Step::Ask(DictionaryRead::Querying(next)),
                Step::Done(result) => Step::Done(result),
            },
        }
    }
}

/// Starts to read the settings dictionary of the active service.
pub fn get_active_proxies_dict() -> (step: Step<DictionaryRead, Result<Dictionary, Error>>)
    ensures
        step matches Step::Ask(task) && task@ == DictionaryReadView::Finding(
            ActiveService::Opening,
        ),
{
    Step::Ask(DictionaryRead::Finding(ActiveService::Opening))
}

/// Starts to read the settings dictionary of the service whose interface goes by the display name
/// `service`.
pub fn get_proxies_dict_from_service_uuid(service: &str) -> (step: Step<
    DictionaryRead,
    Result<Dictionary, Error>,
>)
    ensures
        step matches Step::Ask(task) && task@ == DictionaryReadView::Listing(service@),
{
    Step::Ask(DictionaryRead::Listing(service.to_owned()))
}

} // verus!
