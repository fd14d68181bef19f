//! Reading the proxy settings of the running system.

use crate::error::{Error, ErrorView};
use crate::parse::Settings;
use crate::property::Dictionary;
use crate::proxy::{
    Autoproxy, AutoproxyView, ProxySnapshot, ProxySnapshotView, ProxyType, Sysproxy, SysproxyView,
};
use crate::services::{ActiveService, DictionaryRead, DictionaryReadView};
use crate::system::{Action, ActionView, Reply, ReplyView, Step, StepView, Task};
use crate::{error, parse, services};
use vstd::prelude::*;

verus! {

/// Something to be read from a settings dictionary.
pub trait Goal: Sized {
    type Out: View;

    /// What a dictionary holds of it.
    spec fn of(self, settings: Settings) -> <Self::Out as View>::V;

    fn read(&self, dict: &Dictionary) -> (out: Result<Self::Out, Error>)
        ensures
            match out {
                Ok(value) => value@ == self.of(dict@),
                Err(_) => false,
            },
    ;
}

/// The proxy in use.
#[derive(Debug, Clone, Copy)]
pub struct SystemProxy;

/// Every proxy setting.
#[derive(Debug, Clone, Copy)]
pub struct EverySetting;

/// Automatic configuration.
#[derive(Debug, Clone, Copy)]
pub struct AutomaticProxy;

/// The proxy of one protocol.
#[derive(Debug, Clone, Copy)]
pub struct OneProxy {
    pub proxy_type: ProxyType,
}

/// The hosts that bypass the proxy.
#[derive(Debug, Clone, Copy)]
pub struct BypassList;

impl Goal for SystemProxy {
    type Out = Sysproxy;

    open spec fn of(self, settings: Settings) -> SysproxyView {
        parse::system_proxy(settings)
    }

    fn read(&self, dict: &Dictionary) -> (out: Result<Sysproxy, Error>) {
        parse::read_system_proxy(dict)
    }
}

impl Goal for EverySetting {
    type Out = ProxySnapshot;

    open spec fn of(self, settings: Settings) -> ProxySnapshotView {
        parse::snapshot_of(settings)
    }

    fn read(&self, dict: &Dictionary) -> (out: Result<ProxySnapshot, Error>) {
        parse::read_snapshot(dict)
    }
}

impl Goal for AutomaticProxy {
    type Out = Autoproxy;

    open spec fn of(self, settings: Settings) -> AutoproxyView {
        parse::auto_at(settings)
    }

    fn read(&self, dict: &Dictionary) -> (out: Result<Autoproxy, Error>) {
        parse::parse_proxyauto_from_dict(dict)
    }
}

impl Goal for OneProxy {
    type Out = Sysproxy;

    open spec fn of(self, settings: Settings) -> SysproxyView {
        parse::proxy_at(settings, self.proxy_type)
    }

    fn read(&self, dict: &Dictionary) -> (out: Result<Sysproxy, Error>) {
        parse::parse_proxies_from_dict(dict, self.proxy_type)
    }
}

impl Goal for BypassList {
    type Out = String;

    open spec fn of(self, settings: Settings) -> Seq<char> {
        parse::bypass_text(settings)
    }

    fn read(&self, dict: &Dictionary) -> (out: Result<String, Error>) {
        parse::read_bypass(dict)
    }
}

/// Reading a settings dictionary for the sake of a goal.
#[derive(Debug)]
pub struct Reading<G> {
    pub goal: G,
    pub dictionary: DictionaryRead,
}

/// What a [`Reading`] stands for.
pub struct ReadingView<G> {
    pub goal: G,
    pub dictionary: DictionaryReadView,
}

impl<G> View for Reading<G> {
    type V = ReadingView<G>;

    open spec fn view(&self) -> ReadingView<G> {
        ReadingView { goal: self.goal, dictionary: self.dictionary@ }
    }
}

impl<G: Goal> Task for Reading<G> {
    type Output = Result<G::Out, Error>;

    type Seen = Result<<G::Out as View>::V, ErrorView>;

    open spec fn seen(output: Result<G::Out, Error>) -> Result<<G::Out as View>::V, ErrorView> {
        error::outcome(output)
    }

    open spec fn wanted(state: ReadingView<G>) -> ActionView {
        DictionaryRead::wanted(state.dictionary)
    }

    open spec fn after(state: ReadingView<G>, reply: ReplyView) -> StepView<
        ReadingView<G>,
        Result<<G::Out as View>::V, ErrorView>,
    > {
        match DictionaryRead::after(state.dictionary, reply) {
            StepView::Ask(next) => StepView::Ask(ReadingView { goal: state.goal, dictionary: next }),
            StepView::Done(Ok(settings)) => StepView::Done(Ok(state.goal.of(settings))),
            StepView::Done(Err(e)) => StepView::Done(Err(e)),
        }
    }

    fn action(&self) -> (action: Action) {
        self.dictionary.action()
    }

    fn reply(self, reply: Reply) -> (step: Step<Reading<G>, Result<G::Out, Error>>) {
        match self.dictionary.reply(reply) {
            Step::Ask(next) => Step::Ask(Reading { goal: self.goal, dictionary: next }),
            Step::Done(Ok(dict)) => Step::Done(self.goal.read(&dict)),
            Step::Done(Err(e)) => Step::Done(Err(e)),
        }
    }
}

/// Whether a step starts to read the active service's dictionary for `goal`.
pub open spec fn reads_active<G: Goal>(
    step: Step<Reading<G>, Result<G::Out, Error>>,
    goal: G,
) -> bool {
    step matches Step::Ask(task) && task@ == (ReadingView {
        goal,
        dictionary: DictionaryReadView::Finding(ActiveService::Opening),
    })
}

/// Whether a step reads `goal` from the dictionary at hand, or where there is none starts to read
/// the dictionary of a service.
pub open spec fn reads_service<G: Goal>(
    step: Step<Reading<G>, Result<G::Out, Error>>,
    goal: G,
    service: Seq<char>,
    at_hand: Option<&Dictionary>,
) -> bool {
    match at_hand {
        Some(dict) => step matches Step::Done(Ok(value)) && value@ == goal.of(dict@),
        None => step matches Step::Ask(task) && task@ == (ReadingView {
            goal,
            dictionary: DictionaryReadView::Listing(service),
        }),
    }
}

/// Starts to read from the active service.
fn read_active<G: Goal>(goal: G) -> (step: Step<Reading<G>, Result<G::Out, Error>>)
    ensures
        reads_active(step, goal),
{
    match services::get_active_proxies_dict() {
        Step::Ask(dictionary) => Step::Ask(Reading { goal, dictionary }),
        Step::Done(_) => vstd::pervasive::unreached(),
    }
}

/// Reads from the dictionary at hand, or starts to read from a service.
fn read_service<G: Goal>(goal: G, service: &str, at_hand: Option<&Dictionary>) -> (step: Step<
    Reading<G>,
    Result<G::Out, Error>,
>)
    ensures
        reads_service(step, goal, service@, at_hand),
{
    match at_hand {
        Some(dict) => Step::Done(goal.read(dict)),
        None => match services::get_proxies_dict_from_service_uuid(service) {
            Step::Ask(dictionary) => Step::Ask(Reading { goal, dictionary }),
            Step::Done(_) => vstd::pervasive::unreached(),
        },
    }
}

impl Sysproxy {
    /// Starts to read the proxy in use.
    pub fn get_system_proxy() -> (step: Step<Reading<SystemProxy>, Result<Sysproxy, Error>>)
        ensures
            reads_active(step, SystemProxy),
    {
        read_active(SystemProxy)
    }

    /// Starts to read every proxy setting, all of them from one dictionary.
    pub fn snapshot() -> (step: Step<Reading<EverySetting>, Result<ProxySnapshot, Error>>)
        ensures
            reads_active(step, EverySetting),
    {
        read_active(EverySetting)
    }

    /// Reads the proxy of HTTP from `dict`, or starts to read it from a service.
    pub fn get_http(service: &str, dict: Option<&Dictionary>) -> (step: Step<
        Reading<OneProxy>,
        Result<Sysproxy, Error>,
    >)
        ensures
            reads_service(step, OneProxy { proxy_type: ProxyType::Http }, service@, dict),
    {
        read_service(OneProxy { proxy_type: ProxyType::Http }, service, dict)
    }

    /// Reads the proxy of HTTPS from `dict`, or starts to read it from a service.
    pub fn get_https(service: &str, dict: Option<&Dictionary>) -> (step: Step<
        Reading<OneProxy>,
        Result<Sysproxy, Error>,
    >)
        ensures
            reads_service(step, OneProxy { proxy_type: ProxyType::Https }, service@, dict),
    {
        read_service(OneProxy { proxy_type: ProxyType::Https }, service, dict)
    }

    /// Reads the proxy of SOCKS from `dict`, or starts to read it from a service.
    pub fn get_socks(service: &str, dict: Option<&Dictionary>) -> (step: Step<
        Reading<OneProxy>,
        Result<Sysproxy, Error>,
    >)
        ensures
            reads_service(step, OneProxy { proxy_type: ProxyType::Socks }, service@, dict),
    {
        read_service(OneProxy { proxy_type: ProxyType::Socks }, service, dict)
    }

    /// Reads the bypass list from `dict`, or starts to read it from a service.
    pub fn get_bypass(service: &str, dict: Option<&Dictionary>) -> (step: Step<
        Reading<BypassList>,
        Result<String, Error>,
    >)
        ensures
            reads_service(step, BypassList, service@, dict),
    {
        read_service(BypassList, service, dict)
    }
}

impl Autoproxy {
    /// Starts to read the automatic configuration.
    pub fn get_auto_proxy() -> (step: Step<Reading<AutomaticProxy>, Result<Autoproxy, Error>>)
        ensures
            reads_active(step, AutomaticProxy),
    {
        read_active(AutomaticProxy)
    }
}

} // verus!
