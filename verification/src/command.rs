//! Running external commands: how an output line becomes messages, and
//! what a message to a command runner asks for.

use vstd::prelude::*;
use crate::message::{Message, CommandError};
use crate::text::str_eq;

verus! {

/// Turns each output line of a command into messages to send.
pub trait CommandHandler<T> {
    fn process_line(&self, line: String) -> Vec<Message<T>>;
}

/// Passes each line on unchanged as an `output` message.
#[derive(Debug, Clone)]
pub struct StringHandler {}

impl CommandHandler<String> for StringHandler {
    fn process_line(&self, line: String) -> (r: Vec<Message<String>>)
        ensures
            r@.len() == 1,
            r@[0].method@ == "output"@,
            r@[0].payload == line,
    {
        let mut r: Vec<Message<String>> = Vec::new();
        r.push(Message::new("output", line));
        r
    }
}

/// What a message asks of a command runner.
#[derive(Debug, Clone, Copy, PartialEq, Eq, Structural)]
pub enum CommandRequest {
    /// Stop the running command.
    Cancel,
    /// Run the command (anew).
    Execute,
}

/// `cancel` cancels; any other message runs the command.
pub fn command_request<T>(message: &Message<T>) -> (r: CommandRequest)
    ensures
        r == (if message.method@ == "cancel"@ { CommandRequest::Cancel } else { CommandRequest::Execute }),
{
    if str_eq(message.method.as_str(), "cancel") {
        CommandRequest::Cancel
    } else {
        CommandRequest::Execute
    }
}


/// What a command runner learns while its command runs.
#[derive(Debug, Clone, PartialEq)]
pub enum RunEvent {
    /// The process could not be started (with the system's reason).
    SpawnFailed(String),
    /// The process was started without a stdout pipe.
    NoStdout,
    /// The run was cancelled.
    Cancelled,
    /// The process wrote a line to stdout.
    Line(String),
    /// The process closed its stdout.
    EndOfOutput,
    /// Reading stdout failed (with the system's reason).
    ReadFailed(String),
    /// The process exited, successfully or not.
    Exited,
    /// Waiting for the process failed (with the system's reason).
    WaitFailed(String),
}

/// What a command runner does next.
#[derive(Debug)]
pub enum RunAction {
    /// Hand the line to the output handler and read on.
    Deliver(String),
    /// Wait for the process to exit.
    AwaitExit,
    /// Kill the process, then end the run with the error.
    KillAndFinish(CommandError),
    /// End the run with this outcome.
    Finish(Result<(), CommandError>),
}

/// The step of a command run on an event: each line goes to the handler;
/// at the end of output the runner waits for the exit, which ends the run
/// successfully whatever the exit status; a cancellation kills the process
/// and fails the run; every failure ends it with its error.
pub open spec fn run_step_spec(event: RunEvent) -> RunAction {
    match event {
        RunEvent::SpawnFailed(e) => RunAction::Finish(Err(CommandError::SpawnFailed(e))),
        RunEvent::NoStdout => RunAction::Finish(Err(CommandError::StdoutNotAvailable)),
        RunEvent::Cancelled => RunAction::KillAndFinish(CommandError::Cancelled),
        RunEvent::Line(l) => RunAction::Deliver(l),
        RunEvent::EndOfOutput => RunAction::AwaitExit,
        RunEvent::ReadFailed(e) => RunAction::Finish(Err(CommandError::ReadFailed(e))),
        RunEvent::Exited => RunAction::Finish(Ok(())),
        RunEvent::WaitFailed(e) => RunAction::Finish(Err(CommandError::WaitFailed(e))),
    }
}

/// The step of a command run on an event (see [`run_step_spec`]).
pub fn run_step(event: RunEvent) -> (a: RunAction)
    ensures
        a == run_step_spec(event),
{
    match event {
        RunEvent::SpawnFailed(e) => RunAction::Finish(Err(CommandError::SpawnFailed(e))),
        RunEvent::NoStdout => RunAction::Finish(Err(CommandError::StdoutNotAvailable)),
        RunEvent::Cancelled => RunAction::KillAndFinish(CommandError::Cancelled),
        RunEvent::Line(l) => RunAction::Deliver(l),
        RunEvent::EndOfOutput => RunAction::AwaitExit,
        RunEvent::ReadFailed(e) => RunAction::Finish(Err(CommandError::ReadFailed(e))),
        RunEvent::Exited => RunAction::Finish(Ok(())),
        RunEvent::WaitFailed(e) => RunAction::Finish(Err(CommandError::WaitFailed(e))),
    }
}

/// A line of output of a running command.
#[derive(Debug, Clone, PartialEq)]
pub enum OutputMessage {
    Stdout(String),
    Stderr(String),
}

/// What the output reader of a command sees next.
#[derive(Debug, Clone, PartialEq)]
pub enum OutputRead {
    /// The run was cancelled.
    Cancelled,
    /// A line on stdout, or `None` at its end.
    Stdout(Option<String>),
    /// Reading stdout failed.
    StdoutFailed,
    /// A line on stderr, or `None` at its end.
    Stderr(Option<String>),
    /// Reading stderr failed.
    StderrFailed,
}

/// What the output reader does on what it saw: `None` stops reading;
/// `Some(m)` reads on, forwarding the line `m` where there is one. The end
/// of one stream does not stop the reader.
pub open spec fn output_step_spec(r: OutputRead) -> Option<Option<OutputMessage>> {
    match r {
        OutputRead::Cancelled => None,
        OutputRead::Stdout(Some(l)) => Some(Some(OutputMessage::Stdout(l))),
        OutputRead::Stdout(None) => Some(None),
        OutputRead::StdoutFailed => None,
        OutputRead::Stderr(Some(l)) => Some(Some(OutputMessage::Stderr(l))),
        OutputRead::Stderr(None) => Some(None),
        OutputRead::StderrFailed => None,
    }
}

/// What the output reader does on what it saw (see [`output_step_spec`]).
pub fn output_step(r: OutputRead) -> (a: Option<Option<OutputMessage>>)
    ensures
        a == output_step_spec(r),
{
    match r {
        OutputRead::Cancelled => None,
        OutputRead::Stdout(Some(l)) => Some(Some(OutputMessage::Stdout(l))),
        OutputRead::Stdout(None) => Some(None),
        OutputRead::StdoutFailed => None,
        OutputRead::Stderr(Some(l)) => Some(Some(OutputMessage::Stderr(l))),
        OutputRead::Stderr(None) => Some(None),
        OutputRead::StderrFailed => None,
    }
}

/// The work of stopping a run: which of its parts are there to stop.
#[derive(Debug, Clone, Copy, PartialEq, Eq, Structural)]
pub struct StopSteps {
    /// Cancel the run's token.
    pub cancel_token: bool,
    /// Kill the process and wait for it.
    pub kill_process: bool,
    /// Wait for the output reader to end.
    pub join_reader: bool,
}

/// What a command actor holds of its current run: a cancellation token,
/// the process and the task reading its output.
#[derive(Debug, Clone, Copy, PartialEq, Eq, Structural)]
pub struct RunSlot {
    pub has_token: bool,
    pub has_process: bool,
    pub has_reader: bool,
}

impl RunSlot {
    /// A slot with no run.
    pub fn new() -> (s: RunSlot)
        ensures
            !s.has_token && !s.has_process && !s.has_reader,
    {
        RunSlot { has_token: false, has_process: false, has_reader: false }
    }

    /// Stops the current run: each part that is there is stopped, and none
    /// is left.
    pub fn kill(&mut self) -> (steps: StopSteps)
        ensures
            steps.cancel_token == old(self).has_token,
            steps.kill_process == old(self).has_process,
            steps.join_reader == old(self).has_reader,
            !final(self).has_token && !final(self).has_process && !final(self).has_reader,
    {
        let steps = StopSteps {
            cancel_token: self.has_token,
            kill_process: self.has_process,
            join_reader: self.has_reader,
        };
        *self = RunSlot::new();
        steps
    }

    /// Begins a new run: the current one is stopped first, then a fresh
    /// token is taken.
    pub fn begin_spawn(&mut self) -> (steps: StopSteps)
        ensures
            steps.cancel_token == old(self).has_token,
            steps.kill_process == old(self).has_process,
            steps.join_reader == old(self).has_reader,
            final(self).has_token && !final(self).has_process && !final(self).has_reader,
    {
        let steps = self.kill();
        self.has_token = true;
        steps
    }

    /// Records that the new process started and its output is being read.
    pub fn spawned(&mut self)
        requires
            old(self).has_token,
        ensures
            final(self).has_token && final(self).has_process && final(self).has_reader,
    {
        self.has_process = true;
        self.has_reader = true;
    }
}

} // verus!
