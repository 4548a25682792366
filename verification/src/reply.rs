//! What the three operations answer, and the text each answer is shown as.

use vstd::prelude::*;
use vstd::string::StringExecFns;

verus! {

/// How a start request ended well.
#[derive(Clone, Copy, Debug, PartialEq, Eq, Structural)]
pub enum Started {
    /// No server was running and a new one was launched.
    Launched,
    /// A server was running already; nothing was launched.
    AlreadyRunning,
}

/// How a stop request ended well.
#[derive(Clone, Copy, Debug, PartialEq, Eq, Structural)]
pub enum Stopped {
    /// The running server was asked to terminate and is no longer tracked.
    Terminated,
    /// No server was running; nothing was done.
    NotRunning,
}

/// Why an operation could not be carried out. Each variant keeps the
/// description that the operating system gave of the failure.
#[derive(Debug, PartialEq, Eq)]
pub enum Failure {
    /// The guard around the supervisor could not be acquired.
    Lock(String),
    /// The server process could not be created.
    Spawn(String),
    /// The request to terminate the server was refused.
    Kill(String),
    /// The server's exit status could not be polled.
    Poll(String),
}

impl Started {
    /// The text of this answer.
    pub open spec fn text(self) -> Seq<char> {
        match self {
            Started::Launched => "Python server started"@,
            Started::AlreadyRunning => "Python server already running"@,
        }
    }

    /// The message shown to the caller.
    pub fn message(&self) -> (m: String)
        ensures
            m@ == self.text(),
    {
        match self {
            Started::Launched => String::from_str("Python server started"),
            Started::AlreadyRunning => String::from_str("Python server already running"),
        }
    }
}

impl Stopped {
    /// The text of this answer.
    pub open spec fn text(self) -> Seq<char> {
        match self {
            Stopped::Terminated => "Python server stopped"@,
            Stopped::NotRunning => "Python server not running"@,
        }
    }

    /// The message shown to the caller.
    pub fn message(&self) -> (m: String)
        ensures
            m@ == self.text(),
    {
        match self {
            Stopped::Terminated => String::from_str("Python server stopped"),
            Stopped::NotRunning => String::from_str("Python server not running"),
        }
    }
}

impl Failure {
    /// The description that the operating system gave.
    pub open spec fn detail(self) -> Seq<char> {
        match self {
            Failure::Lock(d) => d@,
            Failure::Spawn(d) => d@,
            Failure::Kill(d) => d@,
            Failure::Poll(d) => d@,
        }
    }

    /// What stands before the description in the message. A failure to
    /// acquire the guard is reported by its description alone.
    pub open spec fn prefix(self) -> Seq<char> {
        match self {
            Failure::Lock(_) => Seq::empty(),
            Failure::Spawn(_) => "Failed to start Python server: "@,
            Failure::Kill(_) => "Failed to kill Python server: "@,
            Failure::Poll(_) => "Failed to check process: "@,
        }
    }

    /// The text of this failure: its prefix, then the description.
    pub open spec fn text(self) -> Seq<char> {
        self.prefix() + self.detail()
    }

    /// The message shown to the caller.
    pub fn message(&self) -> (m: String)
        ensures
            m@ == self.text(),
    {
        match self {
            Failure::Lock(d) => {
                assert(Seq::<char>::empty() + d@ =~= d@);
                d.clone()
            },
            Failure::Spawn(d) => String::from_str("Failed to start Python server: ").concat(
                d.as_str(),
            ),
            Failure::Kill(d) => String::from_str("Failed to kill Python server: ").concat(
                d.as_str(),
            ),
            Failure::Poll(d) => String::from_str("Failed to check process: ").concat(d.as_str()),
        }
    }
}

/// The texts of a reply whose two sides are messages.
pub open spec fn texts(reply: Result<String, String>) -> Result<Seq<char>, Seq<char>> {
    match reply {
        Ok(message) => Ok(message@),
        Err(message) => Err(message@),
    }
}

/// The text of a reply of which only the failure is a message.
pub open spec fn failure_text(reply: Result<bool, String>) -> Result<bool, Seq<char>> {
    match reply {
        Ok(answer) => Ok(answer),
        Err(message) => Err(message@),
    }
}

/// The texts that the answer to a start request is shown as.
pub open spec fn started_texts(reply: Result<Started, Failure>) -> Result<Seq<char>, Seq<char>> {
    match reply {
        Ok(started) => Ok(started.text()),
        Err(failure) => Err(failure.text()),
    }
}

/// The texts that the answer to a stop request is shown as.
pub open spec fn stopped_texts(reply: Result<Stopped, Failure>) -> Result<Seq<char>, Seq<char>> {
    match reply {
        Ok(stopped) => Ok(stopped.text()),
        Err(failure) => Err(failure.text()),
    }
}

/// What the answer to a liveness check is shown as: the answer itself, or
/// the text of the failure.
pub open spec fn checked_texts(reply: Result<bool, Failure>) -> Result<bool, Seq<char>> {
    match reply {
        Ok(running) => Ok(running),
        Err(failure) => Err(failure.text()),
    }
}

/// Puts the answer to a start request into words.
pub fn started_messages(reply: Result<Started, Failure>) -> (messages: Result<String, String>)
    ensures
        texts(messages) == started_texts(reply),
{
    match reply {
        Ok(started) => Ok(started.message()),
        Err(failure) => Err(failure.message()),
    }
}

/// Puts the answer to a stop request into words.
pub fn stopped_messages(reply: Result<Stopped, Failure>) -> (messages: Result<String, String>)
    ensures
        texts(messages) == stopped_texts(reply),
{
    match reply {
        Ok(stopped) => Ok(stopped.message()),
        Err(failure) => Err(failure.message()),
    }
}

/// Puts the failure of a liveness check into words and leaves its answer
/// as it is.
pub fn checked_messages(reply: Result<bool, Failure>) -> (messages: Result<bool, String>)
    ensures
        failure_text(messages) == checked_texts(reply),
{
    match reply {
        Ok(running) => Ok(running),
        Err(failure) => Err(failure.message()),
    }
}

} // verus!
