//! The dialogue with the operating system: a task asks for one action at a time and is told the
//! reply, until it is done.

use crate::property::{Dictionary, PropertyValue, PropertyView};
use crate::{property, text};
use vstd::prelude::*;

verus! {

/// What a finished process left.
#[derive(Debug)]
pub struct CommandOutput {
    /// Whether the process reported success.
    pub success: bool,
    /// The exit code; `None` where a signal ended the process.
    pub code: Option<i32>,
    /// The exit status in words.
    pub status: String,
    pub stdout: Vec<u8>,
    pub stderr: Vec<u8>,
}

/// What a [`CommandOutput`] stands for.
pub struct CommandOutputView {
    pub success: bool,
    pub code: Option<i32>,
    pub status: Seq<char>,
    pub stdout: Seq<u8>,
    pub stderr: Seq<u8>,
}

impl View for CommandOutput {
    type V = CommandOutputView;

    open spec fn view(&self) -> CommandOutputView {
        CommandOutputView {
            success: self.success,
            code: self.code,
            status: self.status@,
            stdout: self.stdout@,
            stderr: self.stderr@,
        }
    }
}

/// A network service of the preferences.
#[derive(Debug)]
pub struct NetworkService {
    /// The display name of its interface, where it has an interface with a name.
    pub display_name: Option<String>,
    pub id: Option<String>,
}

/// What a [`NetworkService`] stands for.
pub struct NetworkServiceView {
    pub display_name: Option<Seq<char>>,
    pub id: Option<Seq<char>>,
}

impl View for NetworkService {
    type V = NetworkServiceView;

    open spec fn view(&self) -> NetworkServiceView {
        NetworkServiceView {
            display_name: property::optional_text(self.display_name),
            id: property::optional_text(self.id),
        }
    }
}

/// A value of the dynamic store.
#[derive(Debug)]
pub enum StoreValue {
    Dictionary(Dictionary),
    /// A value that is no dictionary.
    Other,
}

/// What a [`StoreValue`] stands for.
pub enum StoreView {
    Dictionary(Map<Seq<char>, PropertyView>),
    Other,
}

impl View for StoreValue {
    type V = StoreView;

    open spec fn view(&self) -> StoreView {
        match self {
            StoreValue::Dictionary(d) => StoreView::Dictionary(d@),
            StoreValue::Other => StoreView::Other,
        }
    }
}

/// One thing to ask of the operating system.
///
/// The service and the protocol that an action speaks of are those that were copied last and have
/// not been released.
#[derive(Debug)]
pub enum Action {
    /// Open a session with the dynamic store.
    OpenStore,
    /// Read a value of the dynamic store.
    ReadStore(String),
    /// List the network services of the preferences.
    ListServices,
    /// Copy the network service of this id out of the preferences. The id of the active service is
    /// handed on as the dynamic store has it, whether or not it is a text.
    CopyService(PropertyValue),
    /// Read the name of the service.
    ReadServiceName,
    /// Copy the protocol of this name out of the service.
    CopyProtocol(String),
    /// Read the configuration of the protocol.
    ReadConfiguration,
    ReleaseService,
    ReleaseProtocol,
    /// Lock the preferences, without waiting for another holder of the lock.
    Lock,
    Unlock,
    /// Give the protocol a new configuration: the assignments, made on top of the configuration
    /// that was read where `keep_current` holds, and on top of an empty one where it does not.
    SetConfiguration { keep_current: bool, assignments: Dictionary },
    /// Save the changes of the preferences.
    CommitChanges,
    /// Put the saved changes into effect.
    ApplyChanges,
    /// Run `networksetup` with these arguments.
    Run(Vec<String>),
}

/// What an [`Action`] stands for.
pub enum ActionView {
    OpenStore,
    ReadStore(Seq<char>),
    ListServices,
    CopyService(PropertyView),
    ReadServiceName,
    CopyProtocol(Seq<char>),
    ReadConfiguration,
    ReleaseService,
    ReleaseProtocol,
    Lock,
    Unlock,
    SetConfiguration { keep_current: bool, assignments: Map<Seq<char>, PropertyView> },
    CommitChanges,
    ApplyChanges,
    Run(Seq<Seq<char>>),
}

impl View for Action {
    type V = ActionView;

    open spec fn view(&self) -> ActionView {
        match self {
            Action::OpenStore => ActionView::OpenStore,
            Action::ReadStore(key) => ActionView::ReadStore(key@),
            Action::ListServices => ActionView::ListServices,
            Action::CopyService(id) => ActionView::CopyService(id@),
            Action::ReadServiceName => ActionView::ReadServiceName,
            Action::CopyProtocol(name) => ActionView::CopyProtocol(name@),
            Action::ReadConfiguration => ActionView::ReadConfiguration,
            Action::ReleaseService => ActionView::ReleaseService,
            Action::ReleaseProtocol => ActionView::ReleaseProtocol,
            Action::Lock => ActionView::Lock,
            Action::Unlock => ActionView::Unlock,
            Action::SetConfiguration { keep_current, assignments } => {
                ActionView::SetConfiguration {
                    keep_current: *keep_current,
                    assignments: assignments@,
                }
            },
            Action::CommitChanges => ActionView::CommitChanges,
            Action::ApplyChanges => ActionView::ApplyChanges,
            Action::Run(args) => ActionView::Run(text::texts(args@)),
        }
    }
}

/// What the operating system replied.
#[derive(Debug)]
pub enum Reply {
    /// Whether the action succeeded.
    Answer(bool),
    /// The value of the dynamic store, where there is one.
    Stored(Option<StoreValue>),
    /// The network services.
    Services(Vec<NetworkService>),
    /// The name of the service, where it has one.
    Name(Option<String>),
    /// The configuration of the protocol, where it has one.
    Configuration(Option<Dictionary>),
    /// The service or the protocol is released.
    Released,
    /// What the process left, or why it could not be run.
    Ran(Result<CommandOutput, std::io::Error>),
}

/// What a [`Reply`] stands for.
pub enum ReplyView {
    Answer(bool),
    Stored(Option<StoreView>),
    Services(Seq<NetworkServiceView>),
    Name(Option<Seq<char>>),
    Configuration(Option<Map<Seq<char>, PropertyView>>),
    Released,
    Ran(Result<CommandOutputView, std::io::Error>),
}

/// What a value that may be missing stands for.
pub open spec fn optional<T: View>(value: Option<T>) -> Option<T::V> {
    match value {
        Some(v) => Some(v@),
        None => None,
    }
}

/// What the outcome of running a process stands for.
pub open spec fn spawned(ran: Result<CommandOutput, std::io::Error>) -> Result<
    CommandOutputView,
    std::io::Error,
> {
    match ran {
        Ok(output) => Ok(output@),
        Err(e) => Err(e),
    }
}

impl View for Reply {
    type V = ReplyView;

    open spec fn view(&self) -> ReplyView {
        match self {
            Reply::Answer(yes) => ReplyView::Answer(*yes),
            Reply::Stored(value) => ReplyView::Stored(optional(*value)),
            Reply::Services(list) => ReplyView::Services(
                list@.map_values(|service: NetworkService| service@),
            ),
            Reply::Name(name) => ReplyView::Name(optional(*name)),
            Reply::Configuration(config) => ReplyView::Configuration(optional(*config)),
            Reply::Released => ReplyView::Released,
            Reply::Ran(ran) => ReplyView::Ran(spawned(*ran)),
        }
    }
}

impl ReplyView {
    /// Whether the reply is one to `action`.
    pub open spec fn answers(self, action: ActionView) -> bool {
        match action {
            ActionView::ReadStore(_) => self is Stored,
            ActionView::ListServices => self is Services,
            ActionView::ReadServiceName => self is Name,
            ActionView::ReadConfiguration => self is Configuration,
            ActionView::ReleaseService | ActionView::ReleaseProtocol => self is Released,
            ActionView::Run(_) => self is Ran,
            _ => self is Answer,
        }
    }

    /// Whether the reply says that the action succeeded.
    pub open spec fn accepted(self) -> bool {
        self == ReplyView::Answer(true)
    }
}

impl Reply {
    /// Whether the reply is one to `action`.
    pub fn answers(&self, action: &Action) -> (fits: bool)
        ensures
            fits == self@.answers(action@),
    {
        match (action, self) {
            (Action::ReadStore(_), Reply::Stored(_)) => true,
            (Action::ReadStore(_), _) => false,
            (Action::ListServices, Reply::Services(_)) => true,
            (Action::ListServices, _) => false,
            (Action::ReadServiceName, Reply::Name(_)) => true,
            (Action::ReadServiceName, _) => false,
            (Action::ReadConfiguration, Reply::Configuration(_)) => true,
            (Action::ReadConfiguration, _) => false,
            (Action::ReleaseService, Reply::Released) => true,
            (Action::ReleaseService, _) => false,
            (Action::ReleaseProtocol, Reply::Released) => true,
            (Action::ReleaseProtocol, _) => false,
            (Action::Run(_), Reply::Ran(_)) => true,
            (Action::Run(_), _) => false,
            (_, Reply::Answer(_)) => true,
            (_, _) => false,
        }
    }

    /// Whether the action succeeded.
    pub fn accepted(&self) -> (yes: bool)
        ensures
            yes == self@.accepted(),
    {
        match self {
            Reply::Answer(yes) => *yes,
            _ => false,
        }
    }
}

/// Where a task stands.
#[derive(Debug)]
pub enum Step<S, T> {
    /// The task waits for the reply to its action.
    Ask(S),
    /// The task is over.
    Done(T),
}

/// What a [`Step`] stands for.
pub enum StepView<S, T> {
    Ask(S),
    Done(T),
}

/// A piece of work that needs the operating system.
pub trait Task: Sized + View {
    /// What the task comes to.
    type Output;

    /// What an output stands for.
    type Seen;

    spec fn seen(output: Self::Output) -> Self::Seen;

    /// The action that a task in state `state` waits for.
    spec fn wanted(state: Self::V) -> ActionView;

    /// Where the reply takes a task in state `state`.
    spec fn after(state: Self::V, reply: ReplyView) -> StepView<Self::V, Self::Seen>;

    /// The action to perform.
    fn action(&self) -> (action: Action)
        ensures
            action@ == Self::wanted(self@),
    ;

    /// Takes the reply to the action.
    fn reply(self, reply: Reply) -> (step: Step<Self, Self::Output>)
        requires
            reply@.answers(Self::wanted(self@)),
        ensures
            match step {
                Step::Ask(task) => Self::after(self@, reply@) == StepView::<_, Self::Seen>::Ask(
                    task@,
                ),
                Step::Done(output) => Self::after(self@, reply@) == StepView::<Self::V, _>::Done(
                    Self::seen(output),
                ),
            },
    ;
}

} // verus!
