//! The message envelope of the actor system and its error types.

use vstd::prelude::*;

verus! {

/// A method name with a payload.
#[derive(Debug, Clone, PartialEq)]
pub struct Message<T> {
    pub method: String,
    pub payload: T,
}

impl<T> Message<T> {
    /// A message with the given method and payload.
    pub fn new(method: &str, payload: T) -> (m: Self)
        ensures
            m.method@ == method@,
            m.payload == payload,
    {
        Message { method: method.to_owned(), payload }
    }
}

/// A message without payload.
pub type MethodOnlyMessage = Message<()>;

/// A message carrying a string.
pub type StringMessage = Message<String>;

/// A message carrying an integer.
pub type IntMessage = Message<i32>;

/// A message carrying a boolean.
pub type BoolMessage = Message<bool>;

impl Message<()> {
    /// A message with only a method name.
    pub fn method_only(method: &str) -> (m: Self)
        ensures
            m.method@ == method@,
    {
        Message::new(method, ())
    }
}

impl Message<String> {
    /// A message carrying a string.
    pub fn with_string(method: &str, payload: String) -> (m: Self)
        ensures
            m.method@ == method@,
            m.payload == payload,
    {
        Message::new(method, payload)
    }
}

impl Message<i32> {
    /// A message carrying an integer.
    pub fn with_int(method: &str, payload: i32) -> (m: Self)
        ensures
            m.method@ == method@,
            m.payload == payload,
    {
        Message::new(method, payload)
    }
}

impl Message<bool> {
    /// A message carrying a boolean.
    pub fn with_bool(method: &str, payload: bool) -> (m: Self)
        ensures
            m.method@ == method@,
            m.payload == payload,
    {
        Message::new(method, payload)
    }
}

/// Failure to hand a message to an actor.
#[derive(Debug, Clone, Copy, PartialEq, Eq, Structural)]
pub enum ActorSendError {
    ChannelClosed,
}

impl ActorSendError {
    /// The human-readable description of the error.
    pub fn message(&self) -> (r: &'static str)
        ensures
            r@ == "Actor channel is closed"@,
    {
        "Actor channel is closed"
    }
}

/// Failure of an external command run.
#[derive(Debug, Clone, PartialEq)]
pub enum CommandError {
    /// The process could not be started (with the system's reason).
    SpawnFailed(String),
    /// The process had no stdout pipe.
    StdoutNotAvailable,
    /// Waiting for the process failed (with the system's reason).
    WaitFailed(String),
    /// Reading stdout failed (with the system's reason).
    ReadFailed(String),
    /// The run was cancelled.
    Cancelled,
}

/// The description of a command error.
pub open spec fn command_error_text(e: CommandError) -> Seq<char> {
    match e {
        CommandError::SpawnFailed(r) => "Failed to spawn command: "@ + r@,
        CommandError::StdoutNotAvailable => "Stdout pipe not available"@,
        CommandError::WaitFailed(r) => "Failed to wait for command: "@ + r@,
        CommandError::ReadFailed(r) => "Failed to read from stdout: "@ + r@,
        CommandError::Cancelled => "Command execution was cancelled"@,
    }
}

impl CommandError {
    /// The human-readable description of the error.
    pub fn message(&self) -> (r: String)
        ensures
            r@ == command_error_text(*self),
    {
        let mut s = String::new();
        match self {
            CommandError::SpawnFailed(e) => {
                crate::text::push_str(&mut s, "Failed to spawn command: ");
                crate::text::push_str(&mut s, e.as_str());
            },
            CommandError::StdoutNotAvailable => {
                crate::text::push_str(&mut s, "Stdout pipe not available");
            },
            CommandError::WaitFailed(e) => {
                crate::text::push_str(&mut s, "Failed to wait for command: ");
                crate::text::push_str(&mut s, e.as_str());
            },
            CommandError::ReadFailed(e) => {
                crate::text::push_str(&mut s, "Failed to read from stdout: ");
                crate::text::push_str(&mut s, e.as_str());
            },
            CommandError::Cancelled => {
                crate::text::push_str(&mut s, "Command execution was cancelled");
            },
        }
        s
    }
}

/// Failure to send a JSON-RPC payload.
#[derive(Debug, Clone, Copy, PartialEq, Eq, Structural)]
pub enum JsonRpcSendError {
    ChannelClosed,
}

/// Why the stdio transport of the JSON-RPC adapter stopped.
#[derive(Debug, Clone, PartialEq)]
pub enum StdioShutdownReason {
    /// stdin reached end of file.
    StdinClosed,
    /// Writing stdout failed (with the system's reason).
    StdoutError(String),
    /// Reading stdin failed (with the system's reason).
    ReadError(String),
}

} // verus!
