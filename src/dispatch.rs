use vstd::prelude::*;
use crate::shell::CmdResult;
use crate::text::same_text;

verus! {

/// Namespace of the server connection.
pub const NAMESPACE: &'static str = "/";

/// Shortest wait of the transport's own reconnection, in seconds.
pub const RECONNECT_DELAY_MIN_SECS: u64 = 5;

/// Longest wait of the transport's own reconnection, in seconds.
pub const RECONNECT_DELAY_MAX_SECS: u64 = 30;

/// Wait after a failed first connection, in seconds.
pub const RETRY_DELAY_SECS: u64 = 5;

/// Period of the idle wake-up once connected, in seconds.
pub const IDLE_SECS: u64 = 60;

/// Inbound event: the transport is connected.
pub const CONNECT_EVENT: &'static str = "connect";

/// Inbound event: run a shell command.
pub const RUN_COMMAND_EVENT: &'static str = "run_command";

/// Inbound event: perform a file operation.
pub const FILE_OPERATION_EVENT: &'static str = "do_file_operation";

/// Inbound event: capture a display.
pub const SCREENSHOT_EVENT: &'static str = "screenshot";

/// Inbound event: restart the agent.
pub const RESTART_EVENT: &'static str = "restart";

/// Inbound event: a transport error.
pub const ERROR_EVENT: &'static str = "error";

/// Outbound event announcing the client.
pub const REGISTER_CLIENT_EVENT: &'static str = "register_client";

/// Outbound event carrying a command's output.
pub const COMMAND_OUTPUT_EVENT: &'static str = "command_output";

/// Outbound event carrying a file operation's outcome.
pub const FILE_OPERATION_RESULT_EVENT: &'static str = "file_operation_result";

/// Outbound event carrying a screenshot.
pub const SCREENSHOT_RESULT_EVENT: &'static str = "screenshot_result";

/// The inbound events the agent knows.
#[derive(Clone, Copy, Debug, PartialEq, Eq, Structural)]
pub enum Directive {
    Connect,
    RunCommand,
    FileOperation,
    Screenshot,
    Restart,
    Error,
    Unrecognized,
}

/// The directive an event name designates.
pub open spec fn directive_named(name: Seq<char>) -> Directive {
    if name == CONNECT_EVENT@ {
        Directive::Connect
    } else if name == RUN_COMMAND_EVENT@ {
        Directive::RunCommand
    } else if name == FILE_OPERATION_EVENT@ {
        Directive::FileOperation
    } else if name == SCREENSHOT_EVENT@ {
        Directive::Screenshot
    } else if name == RESTART_EVENT@ {
        Directive::Restart
    } else if name == ERROR_EVENT@ {
        Directive::Error
    } else {
        Directive::Unrecognized
    }
}

impl Directive {
    /// The directive of an inbound event name.
    pub fn from_event(name: &str) -> (r: Directive)
        ensures
            r == directive_named(name@),
    {
        if same_text(name, CONNECT_EVENT) {
            Directive::Connect
        } else if same_text(name, RUN_COMMAND_EVENT) {
            Directive::RunCommand
        } else if same_text(name, FILE_OPERATION_EVENT) {
            Directive::FileOperation
        } else if same_text(name, SCREENSHOT_EVENT) {
            Directive::Screenshot
        } else if same_text(name, RESTART_EVENT) {
            Directive::Restart
        } else if same_text(name, ERROR_EVENT) {
            Directive::Error
        } else {
            Directive::Unrecognized
        }
    }
}

/// A command to run, as a run-command directive asks for it.
#[derive(Clone, Debug)]
pub struct RunCommand {
    pub command: String,
    pub use_shared: bool,
}

/// Reads a run-command directive's fields. A missing command counts as
/// empty, and an empty command is ignored: no command runs and nothing is
/// reported. The shared session is used unless the directive says otherwise.
pub fn run_command_request(command: Option<String>, use_shared: Option<bool>) -> (r: Option<
    RunCommand,
>)
    ensures
        r is None <==> (command is None || command->0@.len() == 0),
        r matches Some(rc) ==> rc.command@ == command->0@ && rc.use_shared == match use_shared {
            Some(b) => b,
            None => true,
        },
{
    let c = match command {
        Some(c) => c,
        None => return None,
    };
    if c.as_str().is_empty() {
        return None;
    }
    let shared = match use_shared {
        Some(b) => b,
        None => true,
    };
    Some(RunCommand { command: c, use_shared: shared })
}

/// What is reported to the server for one command.
#[derive(Clone, Debug)]
pub struct CommandReport {
    pub command: String,
    pub output: String,
    pub error: String,
}

/// The report of a command: its output and error streams, or, when the
/// shell itself failed, an empty output and the failure's text.
pub fn command_report(command: String, result: Result<CmdResult, String>) -> (r: CommandReport)
    ensures
        r.command@ == command@,
        match result {
            Ok(out) => r.output@ == out.stdout@ && r.error@ == out.stderr@,
            Err(m) => r.output@.len() == 0 && r.error@ == m@,
        },
{
    match result {
        Ok(out) => CommandReport { command, output: out.stdout, error: out.stderr },
        Err(m) => CommandReport { command, output: String::new(), error: m },
    }
}

/// Success flag and error text of a reported outcome.
#[derive(Clone, Debug)]
pub struct Status {
    pub success: bool,
    pub error: String,
}

/// The status of an outcome: success with an empty error text, or failure
/// with the failure's text.
pub fn status_of(failure: Option<String>) -> (r: Status)
    ensures
        r.success <==> failure is None,
        match failure {
            Some(m) => r.error@ == m@,
            None => r.error@.len() == 0,
        },
{
    match failure {
        Some(m) => Status { success: false, error: m },
        None => Status { success: true, error: String::new() },
    }
}

/// Where the connect loop stands.
#[derive(Clone, Copy, Debug, PartialEq, Eq, Structural)]
pub enum LoopAction {
    /// Build a new connection and try to connect.
    Connect,
    /// Sleep for the given number of seconds, then report back.
    Wait { secs: u64 },
    /// Connected: idle for the given number of seconds, then report back.
    Idle { secs: u64 },
}

/// The connect loop: the transport reconnects by itself once connected;
/// before that, every failed attempt is followed by a fixed wait and a new
/// attempt, without limit.
#[derive(Clone, Copy, Debug)]
pub struct ConnectionLoop {
    pub connected: bool,
    pub failures: u64,
}

/// The state and action after a connect attempt.
pub open spec fn after_attempt(s: ConnectionLoop, ok: bool) -> (ConnectionLoop, LoopAction) {
    if ok {
        (ConnectionLoop { connected: true, failures: s.failures }, LoopAction::Idle { secs: IDLE_SECS })
    } else {
        (
            ConnectionLoop {
                connected: false,
                failures: if s.failures < u64::MAX { (s.failures + 1) as u64 } else { u64::MAX },
            },
            LoopAction::Wait { secs: RETRY_DELAY_SECS },
        )
    }
}

/// The action once a wait or an idle period is over.
pub open spec fn after_wait(s: ConnectionLoop) -> LoopAction {
    if s.connected {
        LoopAction::Idle { secs: IDLE_SECS }
    } else {
        LoopAction::Connect
    }
}

impl ConnectionLoop {
    /// The loop before its first attempt, and that attempt.
    pub fn new() -> (r: (ConnectionLoop, LoopAction))
        ensures
            !r.0.connected,
            r.0.failures == 0,
            r.1 == LoopAction::Connect,
    {
        (ConnectionLoop { connected: false, failures: 0 }, LoopAction::Connect)
    }

    /// Takes the outcome of a connect attempt.
    pub fn on_connect_result(&mut self, ok: bool) -> (r: LoopAction)
        ensures
            (*final(self), r) == after_attempt(*old(self), ok),
    {
        if ok {
            self.connected = true;
            LoopAction::Idle { secs: IDLE_SECS }
        } else {
            self.connected = false;
            self.failures = self.failures.saturating_add(1);
            LoopAction::Wait { secs: RETRY_DELAY_SECS }
        }
    }

    /// Takes the end of a wait or an idle period.
    pub fn on_wait_over(&self) -> (r: LoopAction)
        ensures
            r == after_wait(*self),
    {
        if self.connected {
            LoopAction::Idle { secs: IDLE_SECS }
        } else {
            LoopAction::Connect
        }
    }
}

/// However many attempts have failed before, a failed attempt is followed
/// by the fixed wait and then by a new attempt: retries never run out.
pub proof fn lemma_retry_without_limit(s: ConnectionLoop)
    ensures
        after_attempt(s, false).1 == (LoopAction::Wait { secs: RETRY_DELAY_SECS }),
        after_wait(after_attempt(s, false).0) == LoopAction::Connect,
{
}

} // verus!
