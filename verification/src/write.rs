//! Writing proxy settings of the active service.

use crate::error::{Error, ErrorView};
use crate::networksetup::{CommandRun, CommandRunView};
use crate::proxy::{Autoproxy, AutoproxyView, Sysproxy, SysproxyView};
use crate::services::{ActiveService, ServiceName, ServiceNameView};
use crate::system::{Action, ActionView, Reply, ReplyView, Step, StepView, Task};
use crate::{error, networksetup, services};
use vstd::prelude::*;
use vstd::string::*;

verus! {

/// What is to be written.
#[derive(Debug)]
pub enum Target {
    System(Sysproxy),
    Auto(Autoproxy),
}

/// What a [`Target`] stands for.
pub enum TargetView {
    System(SysproxyView),
    Auto(AutoproxyView),
}

impl View for Target {
    type V = TargetView;

    open spec fn view(&self) -> TargetView {
        match self {
            Target::System(proxy) => TargetView::System(proxy@),
            Target::Auto(auto) => TargetView::Auto(auto@),
        }
    }
}

impl TargetView {
    /// The commands that write the target for a service.
    pub open spec fn commands(self, service: Seq<char>) -> Seq<Seq<Seq<char>>> {
        match self {
            TargetView::System(proxy) => networksetup::system_commands(proxy, service),
            TargetView::Auto(auto) => networksetup::auto_commands(auto, service),
        }
    }
}

impl Target {
    /// Starts the commands that write the target for a service.
    pub fn start(&self, service: &str) -> (run: CommandRun)
        ensures
            run@ == CommandRunView::start(self@.commands(service@)),
    {
        match self {
            Target::System(proxy) => networksetup::start_system(proxy, service),
            Target::Auto(auto) => networksetup::start_auto(auto, service),
        }
    }
}

/// Finding the active service, and writing to it.
#[derive(Debug)]
pub enum ActiveWrite {
    Finding { target: Target, name: ServiceName },
    Running(CommandRun),
}

/// What an [`ActiveWrite`] stands for.
pub enum ActiveWriteView {
    Finding { target: TargetView, name: ServiceNameView },
    Running(CommandRunView),
}

impl View for ActiveWrite {
    type V = ActiveWriteView;

    open spec fn view(&self) -> ActiveWriteView {
        match self {
            ActiveWrite::Finding { target, name } => ActiveWriteView::Finding {
                target: target@,
                name: name@,
            },
            ActiveWrite::Running(run) => ActiveWriteView::Running(run@),
        }
    }
}

impl ActiveWriteView {
    /// The first state of writing `target`.
    pub open spec fn start(target: TargetView) -> ActiveWriteView {
        ActiveWriteView::Finding {
            target,
            name: ServiceNameView::Finding(ActiveService::Opening),
        }
    }
}

impl Task for ActiveWrite {
    type Output = Result<(), Error>;

    type Seen = Result<(), ErrorView>;

    open spec fn seen(output: Result<(), Error>) -> Result<(), ErrorView> {
        error::outcome(output)
    }

    open spec fn wanted(state: ActiveWriteView) -> ActionView {
        match state {
            ActiveWriteView::Finding { name, .. } => ServiceName::wanted(name),
            ActiveWriteView::Running(run) => CommandRun::wanted(run),
        }
    }

    open spec fn after(state: ActiveWriteView, reply: ReplyView) -> StepView<
        ActiveWriteView,
        Result<(), ErrorView>,
    > {
        match state {
            ActiveWriteView::Finding { target, name } => match ServiceName::after(name, reply) {
                StepView::Ask(next) => StepView::Ask(
                    ActiveWriteView::Finding { target, name: next },
                ),
                StepView::Done(Ok(service)) => StepView::Ask(
                    ActiveWriteView::Running(CommandRunView::start(target.commands(service))),
                ),
                StepView::Done(Err(e)) => StepView::Done(Err(e)),
            },
            ActiveWriteView::Running(run) => match CommandRun::after(run, reply) {
                StepView::Ask(next) => StepView::Ask(ActiveWriteView::Running(next)),
                StepView::Done(result) => StepView::Done(result),
            },
        }
    }

    fn action(&self) -> (action: Action) {
        match self {
            ActiveWrite::Finding { name, .. } => name.action(),
            ActiveWrite::Running(run) => run.action(),
        }
    }

    fn reply(self, reply: Reply) -> (step: Step<ActiveWrite, Result<(), Error>>)
        ensures
            reply@ matches ReplyView::Ran(ran) ==> networksetup::attempt_read_as_written(ran),
    {
        match self {
            ActiveWrite::Finding { target, name } => match name.reply(reply) {
                Step::Ask(next) => Step::Ask(ActiveWrite::Finding { target, name: next }),
                Step::Done(Ok(service)) => Step::Ask(
                    ActiveWrite::Running(target.start(service.as_str())),
                ),
                Step::Done(Err(e)) => Step::Done(Err(e)),
            },
            ActiveWrite::Running(run) => match run.reply(reply) {
                Step::Ask(next) => Step::Ask(ActiveWrite::Running(next)),
                Step::Done(result) => Step::Done(result),
            },
        }
    }
}

/// Starts to write `target`.
fn write_active(target: Target) -> (step: Step<ActiveWrite, Result<(), Error>>)
    ensures
        step matches Step::Ask(task) && task@ == ActiveWriteView::start(target@),
{
    match services::get_active_network_service() {
        Step::Ask(name) => Step::Ask(ActiveWrite::Finding { target, name }),
        Step::Done(_) => vstd::pervasive::unreached(),
    }
}

impl Sysproxy {
    /// Starts to make this the proxy of every protocol, with its bypass list.
    pub fn set_system_proxy(&self) -> (step: Step<ActiveWrite, Result<(), Error>>)
        ensures
            step matches Step::Ask(task) && task@ == ActiveWriteView::start(
                TargetView::System(self@),
            ),
    {
        write_active(Target::System(self.clone()))
    }
}

impl Autoproxy {
    /// Starts to make this the automatic configuration.
    pub fn set_auto_proxy(&self) -> (step: Step<ActiveWrite, Result<(), Error>>)
        ensures
            step matches Step::Ask(task) && task@ == ActiveWriteView::start(TargetView::Auto(self@)),
    {
        write_active(Target::Auto(self.clone()))
    }
}

} // verus!
