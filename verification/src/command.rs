//! Wire tokens of the control surface: lane commands, lane names, and the
//! start/stop work tokens, each with a total decoder that rejects every
//! unknown token with a fixed error text.

use vstd::prelude::*;

verus! {

/// A control command carried by a lane's mailbox.  Only `Stop` ends a
/// running loop; the other commands are acknowledged and otherwise inert.
#[derive(Clone, Copy, PartialEq, Eq, Structural, Debug)]
pub enum CommandEnum {
    Stop,
    Start,
    Restart,
    Terminate,
    UpdateStatus,
}

/// The name of a lane, as a command request addresses it.
#[derive(Clone, Copy, PartialEq, Eq, Structural, Debug)]
pub enum DestinationEnum {
    Worker10,
    Worker25,
    Worker50,
    Worker100,
    Worker250,
}

/// A work token: start or stop one named lane.
#[derive(Clone, Copy, PartialEq, Eq, Structural, Debug)]
pub enum WorkersEnum {
    StartWorker10ms,
    StartWorker25ms,
    StartWorker50ms,
    StartWorker100ms,
    StartWorker250ms,
    StopWorker10ms,
    StopWorker25ms,
    StopWorker50ms,
    StopWorker100ms,
    StopWorker250ms,
}

/// Body of a command request: credential, lane name, command token.
pub struct CommandMessage {
    pub key: String,
    pub receiver: String,
    pub command: String,
}

/// Body of every reply the service sends.
pub struct ResponseMessage {
    pub message: String,
}

/// Body of a work request: credential and work token.
pub struct RequestMessage {
    pub key: String,
    pub message: String,
}

/// The wire token naming each command.
pub open spec fn command_token(c: CommandEnum) -> Seq<char> {
    match c {
        CommandEnum::Stop => "Stop"@,
        CommandEnum::Start => "Start"@,
        CommandEnum::Restart => "Restart"@,
        CommandEnum::Terminate => "Terminate"@,
        CommandEnum::UpdateStatus => "UpdateStatus"@,
    }
}

/// The wire token naming each lane.
pub open spec fn destination_token(d: DestinationEnum) -> Seq<char> {
    match d {
        DestinationEnum::Worker10 => "Worker10"@,
        DestinationEnum::Worker25 => "Worker25"@,
        DestinationEnum::Worker50 => "Worker50"@,
        DestinationEnum::Worker100 => "Worker100"@,
        DestinationEnum::Worker250 => "Worker250"@,
    }
}

/// The wire token naming each work item.
pub open spec fn worker_token(w: WorkersEnum) -> Seq<char> {
    match w {
        WorkersEnum::StartWorker10ms => "StartWorker10ms"@,
        WorkersEnum::StartWorker25ms => "StartWorker25ms"@,
        WorkersEnum::StartWorker50ms => "StartWorker50ms"@,
        WorkersEnum::StartWorker100ms => "StartWorker100ms"@,
        WorkersEnum::StartWorker250ms => "StartWorker250ms"@,
        WorkersEnum::StopWorker10ms => "StopWorker10ms"@,
        WorkersEnum::StopWorker25ms => "StopWorker25ms"@,
        WorkersEnum::StopWorker50ms => "StopWorker50ms"@,
        WorkersEnum::StopWorker100ms => "StopWorker100ms"@,
        WorkersEnum::StopWorker250ms => "StopWorker250ms"@,
    }
}

/// What a command token decodes to, for every possible input.
pub open spec fn spec_parse_command(s: Seq<char>) -> Option<CommandEnum> {
    if s == command_token(CommandEnum::Stop) {
        Some(CommandEnum::Stop)
    } else if s == command_token(CommandEnum::Start) {
        Some(CommandEnum::Start)
    } else if s == command_token(CommandEnum::Restart) {
        Some(CommandEnum::Restart)
    } else if s == command_token(CommandEnum::Terminate) {
        Some(CommandEnum::Terminate)
    } else if s == command_token(CommandEnum::UpdateStatus) {
        Some(CommandEnum::UpdateStatus)
    } else {
        None
    }
}

/// What a lane-name token decodes to, for every possible input.
pub open spec fn spec_parse_destination(s: Seq<char>) -> Option<DestinationEnum> {
    if s == destination_token(DestinationEnum::Worker10) {
        Some(DestinationEnum::Worker10)
    } else if s == destination_token(DestinationEnum::Worker25) {
        Some(DestinationEnum::Worker25)
    } else if s == destination_token(DestinationEnum::Worker50) {
        Some(DestinationEnum::Worker50)
    } else if s == destination_token(DestinationEnum::Worker100) {
        Some(DestinationEnum::Worker100)
    } else if s == destination_token(DestinationEnum::Worker250) {
        Some(DestinationEnum::Worker250)
    } else {
        None
    }
}

/// What a work token decodes to, for every possible input.
pub open spec fn spec_parse_worker(s: Seq<char>) -> Option<WorkersEnum> {
    if s == worker_token(WorkersEnum::StartWorker10ms) {
        Some(WorkersEnum::StartWorker10ms)
    } else if s == worker_token(WorkersEnum::StartWorker25ms) {
        Some(WorkersEnum::StartWorker25ms)
    } else if s == worker_token(WorkersEnum::StartWorker50ms) {
        Some(WorkersEnum::StartWorker50ms)
    } else if s == worker_token(WorkersEnum::StartWorker100ms) {
        Some(WorkersEnum::StartWorker100ms)
    } else if s == worker_token(WorkersEnum::StartWorker250ms) {
        Some(WorkersEnum::StartWorker250ms)
    } else if s == worker_token(WorkersEnum::StopWorker10ms) {
        Some(WorkersEnum::StopWorker10ms)
    } else if s == worker_token(WorkersEnum::StopWorker25ms) {
        Some(WorkersEnum::StopWorker25ms)
    } else if s == worker_token(WorkersEnum::StopWorker50ms) {
        Some(WorkersEnum::StopWorker50ms)
    } else if s == worker_token(WorkersEnum::StopWorker100ms) {
        Some(WorkersEnum::StopWorker100ms)
    } else if s == worker_token(WorkersEnum::StopWorker250ms) {
        Some(WorkersEnum::StopWorker250ms)
    } else {
        None
    }
}

/// Compares two string slices by value.
pub(crate) fn str_eq(a: &str, b: &str) -> (r: bool)
    ensures
        r == (a@ == b@),
{
    let x: String = a.to_owned();
    let y: String = b.to_owned();
    x == y
}

impl CommandEnum {
    /// Total decode of a command token; every unknown token is rejected
    /// with the fixed error text.
    pub fn from_str(s: &str) -> (r: Result<CommandEnum, String>)
        ensures
            match r {
                Ok(c) => spec_parse_command(s@) == Some(c) && command_token(c) == s@,
                Err(e) => {
                    &&& spec_parse_command(s@) is None
                    &&& e@ == "Invalid string for Command Enum"@
                },
            },
    {
        if str_eq(s, "Stop") {
            Ok(CommandEnum::Stop)
        } else if str_eq(s, "Start") {
            Ok(CommandEnum::Start)
        } else if str_eq(s, "Restart") {
            Ok(CommandEnum::Restart)
        } else if str_eq(s, "Terminate") {
            Ok(CommandEnum::Terminate)
        } else if str_eq(s, "UpdateStatus") {
            Ok(CommandEnum::UpdateStatus)
        } else {
            Err("Invalid string for Command Enum".to_owned())
        }
    }
}

/// The acknowledgement line a lane's loop logs for each command it
/// observes.
pub open spec fn ack_token(c: CommandEnum) -> Seq<char> {
    match c {
        CommandEnum::Stop => "... stopping."@,
        CommandEnum::Start => "... starting."@,
        CommandEnum::Restart => "... re-starting."@,
        CommandEnum::Terminate => "... terminating."@,
        CommandEnum::UpdateStatus => "... updating status."@,
    }
}

impl CommandEnum {
    /// Executable form of `ack_token`.
    pub fn ack_text(&self) -> (r: String)
        ensures
            r@ == ack_token(*self),
    {
        match self {
            CommandEnum::Stop => "... stopping.".to_owned(),
            CommandEnum::Start => "... starting.".to_owned(),
            CommandEnum::Restart => "... re-starting.".to_owned(),
            CommandEnum::Terminate => "... terminating.".to_owned(),
            CommandEnum::UpdateStatus => "... updating status.".to_owned(),
        }
    }
}

impl DestinationEnum {
    /// Total decode of a lane-name token; every unknown token is rejected
    /// with the fixed error text.
    pub fn from_str(s: &str) -> (r: Result<DestinationEnum, String>)
        ensures
            match r {
                Ok(d) => spec_parse_destination(s@) == Some(d) && destination_token(d) == s@,
                Err(e) => {
                    &&& spec_parse_destination(s@) is None
                    &&& e@ == "Invalid string for Destination Enum"@
                },
            },
    {
        if str_eq(s, "Worker10") {
            Ok(DestinationEnum::Worker10)
        } else if str_eq(s, "Worker25") {
            Ok(DestinationEnum::Worker25)
        } else if str_eq(s, "Worker50") {
            Ok(DestinationEnum::Worker50)
        } else if str_eq(s, "Worker100") {
            Ok(DestinationEnum::Worker100)
        } else if str_eq(s, "Worker250") {
            Ok(DestinationEnum::Worker250)
        } else {
            Err("Invalid string for Destination Enum".to_owned())
        }
    }
}

impl WorkersEnum {
    /// Total decode of a work token; every unknown token is rejected with
    /// the fixed error text.
    pub fn from_str(s: &str) -> (r: Result<WorkersEnum, String>)
        ensures
            match r {
                Ok(w) => spec_parse_worker(s@) == Some(w) && worker_token(w) == s@,
                Err(e) => {
                    &&& spec_parse_worker(s@) is None
                    &&& e@ == "Invalid string for WorkersEnum"@
                },
            },
    {
        if str_eq(s, "StartWorker10ms") {
            Ok(WorkersEnum::StartWorker10ms)
        } else if str_eq(s, "StartWorker25ms") {
            Ok(WorkersEnum::StartWorker25ms)
        } else if str_eq(s, "StartWorker50ms") {
            Ok(WorkersEnum::StartWorker50ms)
        } else if str_eq(s, "StartWorker100ms") {
            Ok(WorkersEnum::StartWorker100ms)
        } else if str_eq(s, "StartWorker250ms") {
            Ok(WorkersEnum::StartWorker250ms)
        } else if str_eq(s, "StopWorker10ms") {
            Ok(WorkersEnum::StopWorker10ms)
        } else if str_eq(s, "StopWorker25ms") {
            Ok(WorkersEnum::StopWorker25ms)
        } else if str_eq(s, "StopWorker50ms") {
            Ok(WorkersEnum::StopWorker50ms)
        } else if str_eq(s, "StopWorker100ms") {
            Ok(WorkersEnum::StopWorker100ms)
        } else if str_eq(s, "StopWorker250ms") {
            Ok(WorkersEnum::StopWorker250ms)
        } else {
            Err("Invalid string for WorkersEnum".to_owned())
        }
    }

    /// Whether the token asks to start (rather than stop) its lane.
    pub open spec fn spec_is_start(self) -> bool {
        match self {
            WorkersEnum::StartWorker10ms => true,
            WorkersEnum::StartWorker25ms => true,
            WorkersEnum::StartWorker50ms => true,
            WorkersEnum::StartWorker100ms => true,
            WorkersEnum::StartWorker250ms => true,
            WorkersEnum::StopWorker10ms => false,
            WorkersEnum::StopWorker25ms => false,
            WorkersEnum::StopWorker50ms => false,
            WorkersEnum::StopWorker100ms => false,
            WorkersEnum::StopWorker250ms => false,
        }
    }

    /// The lane the token addresses.
    pub open spec fn spec_target(self) -> DestinationEnum {
        match self {
            WorkersEnum::StartWorker10ms => DestinationEnum::Worker10,
            WorkersEnum::StartWorker25ms => DestinationEnum::Worker25,
            WorkersEnum::StartWorker50ms => DestinationEnum::Worker50,
            WorkersEnum::StartWorker100ms => DestinationEnum::Worker100,
            WorkersEnum::StartWorker250ms => DestinationEnum::Worker250,
            WorkersEnum::StopWorker10ms => DestinationEnum::Worker10,
            WorkersEnum::StopWorker25ms => DestinationEnum::Worker25,
            WorkersEnum::StopWorker50ms => DestinationEnum::Worker50,
            WorkersEnum::StopWorker100ms => DestinationEnum::Worker100,
            WorkersEnum::StopWorker250ms => DestinationEnum::Worker250,
        }
    }

    /// Executable form of `spec_is_start`.
    pub fn is_start(&self) -> (r: bool)
        ensures
            r == self.spec_is_start(),
    {
        match self {
            WorkersEnum::StartWorker10ms => true,
            WorkersEnum::StartWorker25ms => true,
            WorkersEnum::StartWorker50ms => true,
            WorkersEnum::StartWorker100ms => true,
            WorkersEnum::StartWorker250ms => true,
            WorkersEnum::StopWorker10ms => false,
            WorkersEnum::StopWorker25ms => false,
            WorkersEnum::StopWorker50ms => false,
            WorkersEnum::StopWorker100ms => false,
            WorkersEnum::StopWorker250ms => false,
        }
    }

    /// Executable form of `spec_target`.
    pub fn target(&self) -> (d: DestinationEnum)
        ensures
            d == self.spec_target(),
    {
        match self {
            WorkersEnum::StartWorker10ms => DestinationEnum::Worker10,
            WorkersEnum::StartWorker25ms => DestinationEnum::Worker25,
            WorkersEnum::StartWorker50ms => DestinationEnum::Worker50,
            WorkersEnum::StartWorker100ms => DestinationEnum::Worker100,
            WorkersEnum::StartWorker250ms => DestinationEnum::Worker250,
            WorkersEnum::StopWorker10ms => DestinationEnum::Worker10,
            WorkersEnum::StopWorker25ms => DestinationEnum::Worker25,
            WorkersEnum::StopWorker50ms => DestinationEnum::Worker50,
            WorkersEnum::StopWorker100ms => DestinationEnum::Worker100,
            WorkersEnum::StopWorker250ms => DestinationEnum::Worker250,
        }
    }

    /// The token's own text, for replies and logs.
    pub fn text(&self) -> (r: String)
        ensures
            r@ == worker_token(*self),
    {
        match self {
            WorkersEnum::StartWorker10ms => "StartWorker10ms".to_owned(),
            WorkersEnum::StartWorker25ms => "StartWorker25ms".to_owned(),
            WorkersEnum::StartWorker50ms => "StartWorker50ms".to_owned(),
            WorkersEnum::StartWorker100ms => "StartWorker100ms".to_owned(),
            WorkersEnum::StartWorker250ms => "StartWorker250ms".to_owned(),
            WorkersEnum::StopWorker10ms => "StopWorker10ms".to_owned(),
            WorkersEnum::StopWorker25ms => "StopWorker25ms".to_owned(),
            WorkersEnum::StopWorker50ms => "StopWorker50ms".to_owned(),
            WorkersEnum::StopWorker100ms => "StopWorker100ms".to_owned(),
            WorkersEnum::StopWorker250ms => "StopWorker250ms".to_owned(),
        }
    }
}

} // verus!
