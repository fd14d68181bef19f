//! Writing settings with `networksetup`: the command lines, what their outcome means, and how far
//! a sequence of them came.

use crate::error::{Error, ErrorView, WriteProgress};
use crate::proxy::{Autoproxy, AutoproxyView, ProxyType, Sysproxy, SysproxyView};
use crate::system::{
    Action, ActionView, CommandOutput, CommandOutputView, Reply, ReplyView, Step, StepView, Task,
};
use crate::{error, system, text};
use vstd::prelude::*;
use vstd::string::*;

verus! {

/// The program, by a fixed path, so that no other one of its name can take its place.
pub const NETWORKSETUP: &'static str = "/usr/sbin/networksetup";

/// The exit code of a `networksetup` that lacks administrator rights.
pub const EXIT_REQUIRES_ADMIN: i32 = 14;

/// The writes that one protocol takes.
pub const WRITES_PER_PROXY_TYPE: u8 = 2;

/// The writes that the system proxy takes: every protocol, and the bypass list.
pub const SYSTEM_PROXY_WRITES: u8 = 3 * WRITES_PER_PROXY_TYPE + 1;

/// The writes that automatic configuration takes.
pub const AUTO_PROXY_WRITES: u8 = 2;

/// The writes that the bypass list takes.
pub const BYPASS_WRITES: u8 = 1;

/// What a failing command wrote: its output and its error output, trimmed, on lines of their own.
pub open spec fn details(stdout: Seq<char>, stderr: Seq<char>) -> Seq<char> {
    let out = text::trimmed(stdout);
    let err = text::trimmed(stderr);
    if out.len() == 0 {
        err
    } else if err.len() == 0 {
        out
    } else {
        out + "\n"@ + err
    }
}

/// Whether a failure is for want of administrator rights: by its words or by its exit code.
pub open spec fn lacks_rights(code: Option<i32>, details: Seq<char>) -> bool {
    text::occurs_in("requires admin privileges"@, details) || code == Some(EXIT_REQUIRES_ADMIN)
}

/// What the failure of a command means.
pub open spec fn failure(
    args: Seq<char>,
    code: Option<i32>,
    status: Seq<char>,
    stdout: Seq<char>,
    stderr: Seq<char>,
) -> ErrorView {
    let details = details(stdout, stderr);
    if lacks_rights(code, details) {
        ErrorView::RequiresAdminPrivileges
    } else {
        ErrorView::NetworkSetup(
            "args="@ + args + ", status="@ + status + ", error="@ + details,
        )
    }
}

/// What the outcome of a command means. The output of a command that succeeded does not matter.
pub open spec fn verdict(args: Seq<Seq<char>>, output: CommandOutputView) -> Result<
    (),
    ErrorView,
> {
    if output.success {
        Ok(())
    } else {
        Err(
            failure(
                text::quoted_list(args),
                output.code,
                output.status,
                text::lossy(output.stdout),
                text::lossy(output.stderr),
            ),
        )
    }
}

/// What trying to run a command comes to.
pub open spec fn attempt(
    args: Seq<Seq<char>>,
    ran: Result<CommandOutputView, std::io::Error>,
) -> Result<(), ErrorView> {
    match ran {
        Ok(output) => verdict(args, output),
        Err(e) => Err(ErrorView::Io(e)),
    }
}

/// Whether what a failed command wrote is read as the text that it encodes, as far as it is valid
/// UTF-8.
pub open spec fn read_as_written(output: CommandOutputView) -> bool {
    !output.success ==> text::read_as_encoded(output.stdout) && text::read_as_encoded(
        output.stderr,
    )
}

/// The same of an attempt to run a command.
pub open spec fn attempt_read_as_written(ran: Result<CommandOutputView, std::io::Error>) -> bool {
    ran matches Ok(output) ==> read_as_written(output)
}

/// Interprets a failure from the form of the arguments, the exit status and the decoded output.
pub fn describe_failure(
    args: &str,
    code: Option<i32>,
    status: &str,
    stdout: &str,
    stderr: &str,
) -> (failed: Error)
    ensures
        failed@ == failure(args@, code, status@, stdout@, stderr@),
{
    let out = text::trim(stdout);
    let err = text::trim(stderr);
    let details = if out.as_str().is_empty() {
        err
    } else if err.as_str().is_empty() {
        out
    } else {
        out.concat("\n").concat(err.as_str())
    };
    let by_code = match code {
        Some(n) => n == EXIT_REQUIRES_ADMIN,
        None => false,
    };
    if text::contains(details.as_str(), "requires admin privileges") || by_code {
        return Error::RequiresAdminPrivileges;
    }
    let message = "args=".to_owned().concat(args).concat(", status=").concat(status).concat(
        ", error=",
    ).concat(details.as_str());
    Error::NetworkSetup(message)
}

/// Interprets the outcome of a command.
pub fn parse_networksetup_output(args: &[&str], output: CommandOutput) -> (result: Result<
    (),
    Error,
>)
    ensures
        error::outcome(result) == verdict(text::slices(args@), output@),
        read_as_written(output@),
{
    if output.success {
        return Ok(());
    }
    let stdout = text::decode_lossy(output.stdout.as_slice());
    let stderr = text::decode_lossy(output.stderr.as_slice());
    let form = text::quote_list(args);
    Err(
        describe_failure(
            form.as_str(),
            output.code,
            output.status.as_str(),
            stdout.as_str(),
            stderr.as_str(),
        ),
    )
}

/// Interprets the attempt to run a command.
pub fn run_networksetup(args: &[&str], ran: Result<CommandOutput, std::io::Error>) -> (result:
    Result<(), Error>)
    ensures
        error::outcome(result) == attempt(text::slices(args@), system::spawned(ran)),
        attempt_read_as_written(system::spawned(ran)),
{
    match ran {
        Ok(output) => parse_networksetup_output(args, output),
        Err(e) => Err(Error::Io(e)),
    }
}

/// Counts the accepted writes of one logical operation.
#[derive(Debug, Clone, Copy, PartialEq, Eq, Structural)]
pub struct WriteSequence {
    pub completed: u8,
    pub total: u8,
}

impl WriteSequence {
    /// A sequence of `total` writes of which none was tried.
    pub fn new(total: u8) -> (writes: WriteSequence)
        ensures
            writes == (WriteSequence { completed: 0, total }),
    {
        WriteSequence { completed: 0, total }
    }

    /// The sequence with one more write accepted.
    pub open spec fn advanced(self) -> WriteSequence {
        WriteSequence { completed: (self.completed + 1) as u8, total: self.total }
    }

    /// A failure, with the progress made before it.
    pub open spec fn failed(self, source: ErrorView) -> ErrorView {
        ErrorView::ProxyWrite {
            progress: WriteProgress { completed: self.completed, total: self.total },
            source: Box::new(source),
        }
    }

    /// Counts an accepted write, or adds the progress to the failure of one.
    pub fn record(&mut self, outcome: Result<(), Error>) -> (result: Result<(), Error>)
        requires
            outcome is Ok ==> old(self).completed < u8::MAX,
        ensures
            match outcome {
                Ok(_) => result is Ok && *final(self) == old(self).advanced(),
                Err(e) => *final(self) == *old(self) && error::outcome(result) == Err::<(), _>(
                    old(self).failed(e@),
                ),
            },
    {
        match outcome {
            Ok(()) => {
                self.completed = self.completed + 1;
                Ok(())
            },
            Err(source) => Err(
                Error::ProxyWrite {
                    progress: WriteProgress { completed: self.completed, total: self.total },
                    source: Box::new(source),
                },
            ),
        }
    }

    /// Counts the attempt to run a command.
    pub fn run(&mut self, args: &[&str], ran: Result<CommandOutput, std::io::Error>) -> (result:
        Result<(), Error>)
        requires
            (ran matches Ok(output) && output.success) ==> old(self).completed < u8::MAX,
        ensures
            match attempt(text::slices(args@), system::spawned(ran)) {
                Ok(_) => result is Ok && *final(self) == old(self).advanced(),
                Err(e) => *final(self) == *old(self) && error::outcome(result) == Err::<(), _>(
                    old(self).failed(e),
                ),
            },
            attempt_read_as_written(system::spawned(ran)),
    {
        self.record(run_networksetup(args, ran))
    }
}

/// A switch in the words of `networksetup`.
pub open spec fn on_off(enable: bool) -> Seq<char> {
    if enable {
        "on"@
    } else {
        "off"@
    }
}

/// The commands that give one protocol its proxy.
pub open spec fn proxy_commands(
    proxy: SysproxyView,
    proxy_type: ProxyType,
    service: Seq<char>,
) -> Seq<Seq<Seq<char>>> {
    seq![
        seq![proxy_type.set_option(), service, proxy.host, text::decimal(proxy.port as nat)],
        seq![proxy_type.state_option(), service, on_off(proxy.enable)],
    ]
}

/// The items of a comma-separated list, of which the empty text has none.
pub open spec fn domains(bypass: Seq<char>) -> Seq<Seq<char>> {
    if bypass.len() == 0 {
        Seq::empty()
    } else {
        text::pieces(bypass, ',')
    }
}

/// The command that sets the bypass list.
pub open spec fn bypass_command(proxy: SysproxyView, service: Seq<char>) -> Seq<Seq<char>> {
    seq!["-setproxybypassdomains"@, service] + domains(proxy.bypass)
}

/// The commands that set the system proxy.
pub open spec fn system_commands(proxy: SysproxyView, service: Seq<char>) -> Seq<Seq<Seq<char>>> {
    (proxy_commands(proxy, ProxyType::Socks, service) + proxy_commands(
        proxy,
        ProxyType::Https,
        service,
    ) + proxy_commands(proxy, ProxyType::Http, service)).push(bypass_command(proxy, service))
}

/// The commands that set automatic configuration. A pair of quotation marks stands for an empty
/// address.
pub open spec fn auto_commands(auto: AutoproxyView, service: Seq<char>) -> Seq<Seq<Seq<char>>> {
    let url = if auto.url.len() == 0 {
        "\"\""@
    } else {
        auto.url
    };
    seq![
        seq!["-setautoproxyurl"@, service, url],
        seq!["-setautoproxystate"@, service, on_off(auto.enable)],
    ]
}

/// The arguments of a list of commands.
pub open spec fn command_lines(commands: Seq<Vec<String>>) -> Seq<Seq<Seq<char>>> {
    commands.map_values(|command: Vec<String>| text::texts(command@))
}

/// Appends a command.
fn add_command(commands: &mut Vec<Vec<String>>, command: Vec<String>)
    ensures
        command_lines(final(commands)@) == command_lines(old(commands)@).push(
            text::texts(command@),
        ),
{
    commands.push(command);
    proof {
        assert(command_lines(commands@) =~= command_lines(old(commands)@).push(
            text::texts(command@),
        ));
    }
}

/// A switch in the words of `networksetup`.
fn switch_text(enable: bool) -> (word: &'static str)
    ensures
        word@ == on_off(enable),
{
    if enable {
        "on"
    } else {
        "off"
    }
}

/// Appends the commands that give one protocol its proxy.
pub fn set_proxy(
    commands: &mut Vec<Vec<String>>,
    proxy: &Sysproxy,
    proxy_type: ProxyType,
    service: &str,
)
    ensures
        command_lines(final(commands)@) == command_lines(old(commands)@) + proxy_commands(
            proxy@,
            proxy_type,
            service@,
        ),
{
    let mut set: Vec<String> = Vec::new();
    set.push(proxy_type.as_set_str().to_owned());
    set.push(service.to_owned());
    set.push(proxy.host.clone());
    set.push(text::decimal_text(proxy.port));
    let mut state: Vec<String> = Vec::new();
    state.push(proxy_type.as_state_cmd().to_owned());
    state.push(service.to_owned());
    state.push(switch_text(proxy.enable).to_owned());
    proof {
        let lines = proxy_commands(proxy@, proxy_type, service@);
        assert(text::texts(set@) =~= lines[0]);
        assert(text::texts(state@) =~= lines[1]);
    }
    add_command(commands, set);
    add_command(commands, state);
    proof {
        assert(command_lines(commands@) =~= command_lines(old(commands)@) + proxy_commands(
            proxy@,
            proxy_type,
            service@,
        ));
    }
}

/// Splits a comma-separated list, of which the empty text has no items.
pub fn split_domains(bypass: &str) -> (items: Vec<String>)
    ensures
        text::texts(items@) == domains(bypass@),
{
    if bypass.is_empty() {
        let items: Vec<String> = Vec::new();
        proof {
            assert(text::texts(items@) =~= domains(bypass@));
        }
        items
    } else {
        text::split(bypass, ',')
    }
}

/// Appends the command that sets the bypass list.
pub fn set_bypass(commands: &mut Vec<Vec<String>>, proxy: &Sysproxy, service: &str)
    ensures
        command_lines(final(commands)@) == command_lines(old(commands)@).push(
            bypass_command(proxy@, service@),
        ),
{
    let mut args: Vec<String> = Vec::new();
    args.push("-setproxybypassdomains".to_owned());
    args.push(service.to_owned());
    let mut items = split_domains(proxy.bypass.as_str());
    let ghost listed = items@;
    args.append(&mut items);
    proof {
        assert(text::texts(args@) =~= seq!["-setproxybypassdomains"@, service@] + text::texts(
            listed,
        ));
    }
    add_command(commands, args);
}

/// Appends the commands that set automatic configuration.
fn set_auto(commands: &mut Vec<Vec<String>>, auto: &Autoproxy, service: &str)
    ensures
        command_lines(final(commands)@) == command_lines(old(commands)@) + auto_commands(
            auto@,
            service@,
        ),
{
    let mut address: Vec<String> = Vec::new();
    address.push("-setautoproxyurl".to_owned());
    address.push(service.to_owned());
    if auto.url.as_str().is_empty() {
        address.push("\"\"".to_owned());
    } else {
        address.push(auto.url.clone());
    }
    let mut state: Vec<String> = Vec::new();
    state.push("-setautoproxystate".to_owned());
    state.push(service.to_owned());
    state.push(switch_text(auto.enable).to_owned());
    proof {
        let lines = auto_commands(auto@, service@);
        assert(text::texts(address@) =~= lines[0]);
        assert(text::texts(state@) =~= lines[1]);
    }
    add_command(commands, address);
    add_command(commands, state);
    proof {
        assert(command_lines(commands@) =~= command_lines(old(commands)@) + auto_commands(
            auto@,
            service@,
        ));
    }
}

/// A run of commands, each of which waits for the one before it to be accepted.
#[derive(Debug)]
pub struct CommandRun {
    commands: Vec<Vec<String>>,
    writes: WriteSequence,
}

/// What a [`CommandRun`] stands for: the commands, and how many of them were accepted.
pub struct CommandRunView {
    pub commands: Seq<Seq<Seq<char>>>,
    pub writes: WriteSequence,
}

impl CommandRunView {
    /// A run of which nothing was tried.
    pub open spec fn start(commands: Seq<Seq<Seq<char>>>) -> CommandRunView {
        CommandRunView {
            commands,
            writes: WriteSequence { completed: 0, total: commands.len() as u8 },
        }
    }

    /// The command that is due.
    pub open spec fn due(self) -> Seq<Seq<char>> {
        self.commands[self.writes.completed as int]
    }

    /// Where the attempt to run the due command takes the run: to the next command, to its end
    /// after the last one, or to a failure that tells how many were accepted.
    pub open spec fn next(self, ran: Result<CommandOutputView, std::io::Error>) -> StepView<
        CommandRunView,
        Result<(), ErrorView>,
    > {
        match attempt(self.due(), ran) {
            Ok(_) => if self.writes.completed + 1 < self.commands.len() {
                StepView::Ask(CommandRunView { writes: self.writes.advanced(), ..self })
            } else {
                StepView::Done(Ok(()))
            },
            Err(e) => StepView::Done(Err(self.writes.failed(e))),
        }
    }
}

impl View for CommandRun {
    type V = CommandRunView;

    closed spec fn view(&self) -> CommandRunView {
        CommandRunView { commands: command_lines(self.commands@), writes: self.writes }
    }
}

impl CommandRun {
    #[verifier::type_invariant]
    spec fn in_progress(self) -> bool {
        self.writes.completed < self.writes.total == self.commands.len()
    }

    /// A run of `commands`, of which there are `total`.
    fn new(commands: Vec<Vec<String>>, total: u8) -> (run: CommandRun)
        requires
            0 < total == commands.len(),
        ensures
            run@ == CommandRunView::start(command_lines(commands@)),
    {
        CommandRun { commands, writes: WriteSequence::new(total) }
    }
}

impl Task for CommandRun {
    type Output = Result<(), Error>;

    type Seen = Result<(), ErrorView>;

    open spec fn seen(output: Result<(), Error>) -> Result<(), ErrorView> {
        error::outcome(output)
    }

    open spec fn wanted(state: CommandRunView) -> ActionView {
        ActionView::Run(state.due())
    }

    open spec fn after(state: CommandRunView, reply: ReplyView) -> StepView<
        CommandRunView,
        Result<(), ErrorView>,
    > {
        state.next(reply->Ran_0)
    }

    fn action(&self) -> (action: Action) {
        proof {
            use_type_invariant(self);
        }
        let due = &self.commands[self.writes.completed as usize];
        let mut args: Vec<String> = Vec::new();
        let mut i: usize = 0;
        while i < due.len()
            invariant
                i <= due.len(),
                text::texts(args@) == text::texts(due@).take(i as int),
            decreases due.len() - i,
        {
            let ghost before = text::texts(args@);
            args.push(due[i].clone());
            proof {
                assert(text::texts(args@) =~= before.push(due@[i as int]@));
                assert(text::texts(due@).take(i + 1) =~= text::texts(due@).take(i as int).push(
                    due@[i as int]@,
                ));
            }
            i = i + 1;
        }
        proof {
            assert(text::texts(due@).take(i as int) == text::texts(due@));
        }
        Action::Run(args)
    }

    fn reply(self, reply: Reply) -> (step: Step<CommandRun, Result<(), Error>>)
        ensures
            reply@ matches ReplyView::Ran(ran) ==> attempt_read_as_written(ran),
    {
        proof {
            use_type_invariant(&self);
        }
        let ran = match reply {
            Reply::Ran(ran) => ran,
            _ => vstd::pervasive::unreached(),
        };
        let mut writes = self.writes;
        let due = &self.commands[writes.completed as usize];
        let mut args: Vec<&str> = Vec::new();
        let mut i: usize = 0;
        while i < due.len()
            invariant
                i <= due.len(),
                text::slices(args@) == text::texts(due@).take(i as int),
            decreases due.len() - i,
        {
            let ghost before = text::slices(args@);
            args.push(due[i].as_str());
            proof {
                assert(text::slices(args@) =~= before.push(due@[i as int]@));
                assert(text::texts(due@).take(i + 1) =~= text::texts(due@).take(i as int).push(
                    due@[i as int]@,
                ));
            }
            i = i + 1;
        }
        proof {
            assert(text::texts(due@).take(i as int) == text::texts(due@));
            assert(self@.due() == text::texts(due@));
        }
        match writes.run(args.as_slice(), ran) {
            Ok(()) => if (writes.completed as usize) < self.commands.len() {
                Step::Ask(CommandRun { commands: self.commands, writes })
            } else {
                Step::Done(Ok(()))
            },
            Err(e) => Step::Done(Err(e)),
        }
    }
}

/// Starts the commands that set the system proxy for a service.
pub fn start_system(proxy: &Sysproxy, service: &str) -> (run: CommandRun)
    ensures
        run@ == CommandRunView::start(system_commands(proxy@, service@)),
{
    let mut commands: Vec<Vec<String>> = Vec::new();
    set_proxy(&mut commands, proxy, ProxyType::Socks, service);
    set_proxy(&mut commands, proxy, ProxyType::Https, service);
    set_proxy(&mut commands, proxy, ProxyType::Http, service);
    set_bypass(&mut commands, proxy, service);
    proof {
        assert(command_lines(commands@) =~= system_commands(proxy@, service@));
        assert(command_lines(commands@).len() == commands.len());
    }
    CommandRun::new(commands, SYSTEM_PROXY_WRITES)
}

/// Starts the commands that set automatic configuration for a service.
pub fn start_auto(auto: &Autoproxy, service: &str) -> (run: CommandRun)
    ensures
        run@ == CommandRunView::start(auto_commands(auto@, service@)),
{
    let mut commands: Vec<Vec<String>> = Vec::new();
    set_auto(&mut commands, auto, service);
    proof {
        assert(command_lines(commands@) =~= auto_commands(auto@, service@));
        assert(command_lines(commands@).len() == commands.len());
    }
    CommandRun::new(commands, AUTO_PROXY_WRITES)
}

impl Sysproxy {
    /// Sets the proxy of HTTP for a service.
    pub fn set_http(&self, service: &str) -> (step: Step<CommandRun, Result<(), Error>>)
        ensures
            step matches Step::Ask(run) && run@ == CommandRunView::start(
                proxy_commands(self@, ProxyType::Http, service@),
            ),
    {
        self.set_one(ProxyType::Http, service)
    }

    /// Sets the proxy of HTTPS for a service.
    pub fn set_https(&self, service: &str) -> (step: Step<CommandRun, Result<(), Error>>)
        ensures
            step matches Step::Ask(run) && run@ == CommandRunView::start(
                proxy_commands(self@, ProxyType::Https, service@),
            ),
    {
        self.set_one(ProxyType::Https, service)
    }

    /// Sets the proxy of SOCKS for a service.
    pub fn set_socks(&self, service: &str) -> (step: Step<CommandRun, Result<(), Error>>)
        ensures
            step matches Step::Ask(run) && run@ == CommandRunView::start(
                proxy_commands(self@, ProxyType::Socks, service@),
            ),
    {
        self.set_one(ProxyType::Socks, service)
    }

    /// Sets the bypass list of a service.
    pub fn set_bypass(&self, service: &str) -> (step: Step<CommandRun, Result<(), Error>>)
        ensures
            step matches Step::Ask(run) && run@ == CommandRunView::start(
                seq![bypass_command(self@, service@)],
            ),
    {
        let mut commands: Vec<Vec<String>> = Vec::new();
        set_bypass(&mut commands, self, service);
        proof {
            assert(command_lines(commands@) =~= seq![bypass_command(self@, service@)]);
            assert(command_lines(commands@).len() == commands.len());
        }
        Step::Ask(CommandRun::new(commands, BYPASS_WRITES))
    }

    fn set_one(&self, proxy_type: ProxyType, service: &str) -> (step: Step<
        CommandRun,
        Result<(), Error>,
    >)
        ensures
            step matches Step::Ask(run) && run@ == CommandRunView::start(
                proxy_commands(self@, proxy_type, service@),
            ),
    {
        let mut commands: Vec<Vec<String>> = Vec::new();
        set_proxy(&mut commands, self, proxy_type, service);
        proof {
            assert(command_lines(commands@) =~= proxy_commands(self@, proxy_type, service@));
            assert(command_lines(commands@).len() == commands.len());
        }
        Step::Ask(CommandRun::new(commands, WRITES_PER_PROXY_TYPE))
    }
}

} // verus!
