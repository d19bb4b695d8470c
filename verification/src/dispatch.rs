//! The control dispatcher: every inbound request shape, decoded, gated by
//! the session key, and turned into a lane transition or a mailbox post.
//! Decode failures are embedded as error text in a successful reply; a key
//! mismatch is refused outright and changes nothing.

use vstd::prelude::*;

use crate::command::CommandEnum;
use crate::command::CommandMessage;
use crate::command::DestinationEnum;
use crate::command::RequestMessage;
use crate::command::ResponseMessage;
use crate::command::WorkersEnum;
use crate::command::spec_parse_command;
use crate::command::spec_parse_destination;
use crate::command::spec_parse_worker;
use crate::instruction::InstructionView;
use crate::instruction::ProgramSource;
use crate::instruction::clone_instructions;
use crate::lane::LaneView;
use crate::lane::StartOutcome;
use crate::lane::StopOutcome;
use crate::lane::spec_start;
use crate::lane::spec_stop_request;
use crate::mailbox::MailboxView;
use crate::session::key_after_retrieval;
use crate::session::key_matches;
use crate::session::retrieved_key;
use crate::state::InstreamState;
use crate::state::StateView;
use crate::state::spec_lane_index;
use crate::state::state_wf;

verus! {

/// HTTP status class of a reply.
#[derive(Clone, Copy, PartialEq, Eq, Structural, Debug)]
pub enum ReplyStatus {
    Okay,
    Forbidden,
}

impl ReplyStatus {
    /// The HTTP status code sent for each class.
    pub open spec fn spec_code(self) -> u16 {
        match self {
            ReplyStatus::Okay => 200,
            ReplyStatus::Forbidden => 403,
        }
    }

    /// Executable form of `spec_code`.
    pub fn code(&self) -> (c: u16)
        ensures
            c == self.spec_code(),
    {
        match self {
            ReplyStatus::Okay => 200,
            ReplyStatus::Forbidden => 403,
        }
    }
}

/// What a work request did, for the caller that must act on it: a loop
/// execution is spawned exactly on `StartReport(_, Started)`.
#[derive(Clone, Copy, PartialEq, Eq, Structural, Debug)]
pub enum WorkReport {
    /// Key mismatch; nothing happened.
    Refused,
    /// The work token did not decode; nothing happened.
    DecodeFailed,
    /// A start transition ran on the named lane.
    StartReport(DestinationEnum, StartOutcome),
    /// A stop transition ran on the named lane.
    StopReport(DestinationEnum, StopOutcome),
}

/// What a command request did.
#[derive(Clone, Copy, PartialEq, Eq, Structural, Debug)]
pub enum CommandReport {
    /// Key mismatch; nothing happened.
    Refused,
    /// Command or destination token did not decode; nothing was posted.
    DecodeFailed,
    /// The command was posted into the named lane's mailbox.
    Delivered(DestinationEnum, CommandEnum),
    /// The named lane has no active loop; the send failed and the failure
    /// is reported in the reply text.
    SendFailed(DestinationEnum, CommandEnum),
}

/// A reply to a work request.
pub struct WorkResponse {
    pub status: ReplyStatus,
    pub body: ResponseMessage,
    pub report: WorkReport,
}

/// A reply to a command request.
pub struct CommandResponse {
    pub status: ReplyStatus,
    pub body: ResponseMessage,
    pub report: CommandReport,
}

/// Reply text acknowledging an accepted request.
pub open spec fn exec_reply_text(msg: Seq<char>) -> Seq<char> {
    "::: executing: "@ + msg
}

/// Reply text with one embedded error.
pub open spec fn error_reply_text(msg: Seq<char>, err: Seq<char>) -> Seq<char> {
    exec_reply_text(msg) + " ::: Error :: "@ + err
}

/// Reply text with two embedded errors.
pub open spec fn two_error_reply_text(msg: Seq<char>, e1: Seq<char>, e2: Seq<char>) -> Seq<char> {
    error_reply_text(msg, e1) + " ::: Error :: "@ + e2
}

/// Reply text of a refused request.
pub open spec fn key_refused_text() -> Seq<char> {
    "::. Key? .."@
}

/// A lane after one command is posted into its (live) mailbox.
pub open spec fn spec_post(l: LaneView, c: CommandEnum) -> LaneView {
    LaneView {
        mailbox: MailboxView { queue: l.mailbox.queue.push(c), receiver_live: l.mailbox.receiver_live },
        ..l
    }
}

/// The greeting reply.
pub fn hello() -> (r: ResponseMessage)
    ensures
        r.message@ == "::: instreams says HI !!"@,
{
    ResponseMessage { message: "::: instreams says HI !!".to_owned() }
}

/// The liveness reply.
pub fn status() -> (r: ResponseMessage)
    ensures
        r.message@ == "::: instreams is listening."@,
{
    ResponseMessage { message: "::: instreams is listening.".to_owned() }
}

/// Returns the session key, issuing it on first read; stable afterwards.
pub fn session_key(state: &mut InstreamState) -> (r: ResponseMessage)
    requires
        state_wf(old(state)@),
    ensures
        state_wf(final(state)@),
        final(state)@.lanes == old(state)@.lanes,
        final(state)@.code_segment == old(state)@.code_segment,
        final(state)@.master_key == key_after_retrieval(old(state)@.master_key, r.message@),
        r.message@ == retrieved_key(old(state)@.master_key, r.message@),
        final(state)@.master_key == Some(r.message@),
        old(state)@.master_key is None ==> r.message@.len() == 36,
    {
    let key = state.master_key.retrieve();
    ResponseMessage { message: key }
}

/// Replaces the stored program with the request's instruction list.
pub fn load_program(state: &mut InstreamState, payload: ProgramSource) -> (r: ResponseMessage)
    requires
        state_wf(old(state)@),
    ensures
        state_wf(final(state)@),
        final(state)@ == spec_load(old(state)@, payload.deep_view()),
        r.message@ == "Program Loaded."@,
{
    state.code_segment = payload.instructions;
    ResponseMessage { message: "Program Loaded.".to_owned() }
}

/// Returns the stored program, identical in order and field values.
pub fn list_program(state: &InstreamState) -> (r: ProgramSource)
    ensures
        r.deep_view() == spec_list(state@),
{
    ProgramSource { instructions: clone_instructions(&state.code_segment) }
}

/// The state after a load: only the program slot is replaced.
pub open spec fn spec_load(s: StateView, p: Seq<InstructionView>) -> StateView {
    StateView { code_segment: p, ..s }
}

/// What a list request returns.
pub open spec fn spec_list(s: StateView) -> Seq<InstructionView> {
    s.code_segment
}

/// Law: a load followed by a list returns a program identical in order and
/// field values to the one loaded, for every instruction sequence, the
/// empty one included.
pub proof fn lemma_load_list_roundtrip(s: StateView, p: Seq<InstructionView>)
    ensures
        spec_list(spec_load(s, p)) == p,
{
}

/// Handles a work request: start or stop one lane, gated by the session
/// key.  On a key mismatch nothing changes; an undecodable work token is
/// reported inside a successful reply.
pub fn execute(state: &mut InstreamState, payload: &RequestMessage) -> (r: WorkResponse)
    requires
        state_wf(old(state)@),
    ensures
        state_wf(final(state)@),
        !key_matches(old(state)@.master_key, payload.key@) ==> {
            &&& r.status == ReplyStatus::Forbidden
            &&& r.body.message@ == key_refused_text()
            &&& r.report == WorkReport::Refused
            &&& final(state)@ == old(state)@
        },
        key_matches(old(state)@.master_key, payload.key@) ==> {
            &&& r.status == ReplyStatus::Okay
            &&& final(state)@.master_key == old(state)@.master_key
            &&& final(state)@.code_segment == old(state)@.code_segment
            &&& match spec_parse_worker(payload.message@) {
                None => {
                    &&& r.body.message@ == error_reply_text(
                        payload.message@,
                        "Invalid string for WorkersEnum"@,
                    )
                    &&& r.report == WorkReport::DecodeFailed
                    &&& final(state)@.lanes == old(state)@.lanes
                },
                Some(w) => {
                    let i = spec_lane_index(w.spec_target());
                    &&& r.body.message@ == exec_reply_text(payload.message@)
                    &&& if w.spec_is_start() {
                        &&& final(state)@.lanes == old(state)@.lanes.update(
                            i,
                            spec_start(old(state)@.lanes[i]).0,
                        )
                        &&& r.report == WorkReport::StartReport(
                            w.spec_target(),
                            spec_start(old(state)@.lanes[i]).1,
                        )
                    } else {
                        &&& final(state)@.lanes == old(state)@.lanes.update(
                            i,
                            spec_stop_request(old(state)@.lanes[i]).0,
                        )
                        &&& r.report == WorkReport::StopReport(
                            w.spec_target(),
                            spec_stop_request(old(state)@.lanes[i]).1,
                        )
                    }
                },
            }
        },
{
    if !state.master_key.matches(payload.key.as_str()) {
        return WorkResponse {
            status: ReplyStatus::Forbidden,
            body: ResponseMessage { message: "::. Key? ..".to_owned() },
            report: WorkReport::Refused,
        };
    }
    let mut ret: String = "::: executing: ".to_owned();
    ret.append(payload.message.as_str());
    match WorkersEnum::from_str(payload.message.as_str()) {
        Err(e) => {
            ret.append(" ::: Error :: ");
            ret.append(e.as_str());
            WorkResponse {
                status: ReplyStatus::Okay,
                body: ResponseMessage { message: ret },
                report: WorkReport::DecodeFailed,
            }
        },
        Ok(w) => {
            let d = w.target();
            let ghost i = spec_lane_index(d);
            let is_start = w.is_start();
            let lane = state.lane_mut(d);
            let report = if is_start {
                WorkReport::StartReport(d, lane.start())
            } else {
                WorkReport::StopReport(d, lane.stop_request())
            };
            proof {
                assert(final(state)@.lanes =~= old(state)@.lanes.update(
                    i,
                    final(state).lanes@[i]@,
                ));
            }
            WorkResponse {
                status: ReplyStatus::Okay,
                body: ResponseMessage { message: ret },
                report,
            }
        },
    }
}

/// Handles a command request: post one decoded command into one named
/// lane's mailbox, gated by the session key.  Decode failures and a send
/// into a lane with no active loop are embedded as error text in a
/// successful reply; a key mismatch changes nothing.
pub fn send_command(state: &mut InstreamState, payload: &CommandMessage) -> (r: CommandResponse)
    requires
        state_wf(old(state)@),
    ensures
        state_wf(final(state)@),
        !key_matches(old(state)@.master_key, payload.key@) ==> {
            &&& r.status == ReplyStatus::Forbidden
            &&& r.body.message@ == key_refused_text()
            &&& r.report == CommandReport::Refused
            &&& final(state)@ == old(state)@
        },
        key_matches(old(state)@.master_key, payload.key@) ==> {
            &&& r.status == ReplyStatus::Okay
            &&& final(state)@.master_key == old(state)@.master_key
            &&& final(state)@.code_segment == old(state)@.code_segment
            &&& match (spec_parse_command(payload.command@), spec_parse_destination(
                payload.receiver@,
            )) {
                (Some(c), Some(d)) => {
                    let i = spec_lane_index(d);
                    if old(state)@.lanes[i].running {
                        &&& r.body.message@ == exec_reply_text(payload.command@)
                        &&& r.report == CommandReport::Delivered(d, c)
                        &&& final(state)@.lanes == old(state)@.lanes.update(
                            i,
                            spec_post(old(state)@.lanes[i], c),
                        )
                    } else {
                        &&& r.body.message@ == error_reply_text(payload.command@, "Send failed"@)
                        &&& r.report == CommandReport::SendFailed(d, c)
                        &&& final(state)@.lanes == old(state)@.lanes
                    }
                },
                (Some(c), None) => {
                    &&& r.body.message@ == error_reply_text(
                        payload.command@,
                        "Invalid string for Destination Enum"@,
                    )
                    &&& r.report == CommandReport::DecodeFailed
                    &&& final(state)@.lanes == old(state)@.lanes
                },
                (None, Some(d)) => {
                    &&& r.body.message@ == error_reply_text(
                        payload.command@,
                        "Invalid string for Command Enum"@,
                    )
                    &&& r.report == CommandReport::DecodeFailed
                    &&& final(state)@.lanes == old(state)@.lanes
                },
                (None, None) => {
                    &&& r.body.message@ == two_error_reply_text(
                        payload.command@,
                        "Invalid string for Command Enum"@,
                        "Invalid string for Destination Enum"@,
                    )
                    &&& r.report == CommandReport::DecodeFailed
                    &&& final(state)@.lanes == old(state)@.lanes
                },
            }
        },
{
    if !state.master_key.matches(payload.key.as_str()) {
        return CommandResponse {
            status: ReplyStatus::Forbidden,
            body: ResponseMessage { message: "::. Key? ..".to_owned() },
            report: CommandReport::Refused,
        };
    }
    let mut ret: String = "::: executing: ".to_owned();
    ret.append(payload.command.as_str());
    let parsed_command = CommandEnum::from_str(payload.command.as_str());
    let parsed_destination = DestinationEnum::from_str(payload.receiver.as_str());
    match (parsed_command, parsed_destination) {
        (Ok(c), Ok(d)) => {
            let ghost i = spec_lane_index(d);
            let lane = state.lane_mut(d);
            proof {
                assert(lane@ == old(state)@.lanes[i]);
            }
            let sent = lane.post(c);
            proof {
                assert(final(state)@.lanes =~= old(state)@.lanes.update(
                    i,
                    final(state).lanes@[i]@,
                ));
                if !old(state)@.lanes[i].running {
                    assert(final(state)@.lanes =~= old(state)@.lanes);
                }
            }
            match sent {
                Ok(()) => CommandResponse {
                    status: ReplyStatus::Okay,
                    body: ResponseMessage { message: ret },
                    report: CommandReport::Delivered(d, c),
                },
                Err(_) => {
                    ret.append(" ::: Error :: ");
                    ret.append("Send failed");
                    CommandResponse {
                        status: ReplyStatus::Okay,
                        body: ResponseMessage { message: ret },
                        report: CommandReport::SendFailed(d, c),
                    }
                },
            }
        },
        (Ok(_), Err(e)) => {
            ret.append(" ::: Error :: ");
            ret.append(e.as_str());
            CommandResponse {
                status: ReplyStatus::Okay,
                body: ResponseMessage { message: ret },
                report: CommandReport::DecodeFailed,
            }
        },
        (Err(e), Ok(_)) => {
            ret.append(" ::: Error :: ");
            ret.append(e.as_str());
            CommandResponse {
                status: ReplyStatus::Okay,
                body: ResponseMessage { message: ret },
                report: CommandReport::DecodeFailed,
            }
        },
        (Err(e1), Err(e2)) => {
            ret.append(" ::: Error :: ");
            ret.append(e1.as_str());
            ret.append(" ::: Error :: ");
            ret.append(e2.as_str());
            CommandResponse {
                status: ReplyStatus::Okay,
                body: ResponseMessage { message: ret },
                report: CommandReport::DecodeFailed,
            }
        },
    }
}

} // verus!
