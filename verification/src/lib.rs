//! Control core of a small worker-lane service.
//!
//! A fixed set of named background lanes, each with its own polling
//! interval, is started, stopped and signalled through a command mailbox,
//! gated by a single lazily issued session key.  This crate holds the
//! verified state machine: lane lifecycle, mailbox ordering, session-key
//! issuance, request dispatch and the loaded-program store.  An HTTP
//! front end drives it from outside.

mod command;
mod dispatch;
mod instruction;
mod lane;
mod mailbox;
mod session;
mod state;

pub use state::InstreamState;
pub use state::StateView;
pub use state::dest_of_index;
pub use state::spec_interval;
pub use state::spec_lane_index;
pub use state::state_wf;

pub use lane::LaneView;
pub use lane::LoopAction;
pub use lane::StartOutcome;
pub use lane::StopOutcome;
pub use lane::WorkerLane;
pub use lane::lane_wf;
pub use lane::lemma_pending_stop_drains;
pub use lane::lemma_start_transition;
pub use lane::lemma_stop_transition;
pub use lane::spec_loop_step;
pub use lane::spec_run_steps;
pub use lane::spec_start;
pub use lane::spec_stop_request;
pub use lane::steps_to_stop;
pub use mailbox::CommandMailbox;
pub use mailbox::MailboxError;
pub use mailbox::MailboxView;
pub use mailbox::mailbox_wf;

pub use session::SessionGate;
pub use session::key_after_retrieval;
pub use session::key_matches;
pub use session::lemma_session_key_idempotent;
pub use session::retrieved_key;

pub use dispatch::CommandReport;
pub use dispatch::CommandResponse;
pub use dispatch::ReplyStatus;
pub use dispatch::WorkReport;
pub use dispatch::WorkResponse;
pub use dispatch::error_reply_text;
pub use dispatch::exec_reply_text;
pub use dispatch::execute;
pub use dispatch::hello;
pub use dispatch::key_refused_text;
pub use dispatch::lemma_load_list_roundtrip;
pub use dispatch::list_program;
pub use dispatch::load_program;
pub use dispatch::send_command;
pub use dispatch::session_key;
pub use dispatch::spec_list;
pub use dispatch::spec_load;
pub use dispatch::spec_post;
pub use dispatch::status;
pub use dispatch::two_error_reply_text;

pub use instruction::Instruction;
pub use instruction::InstructionView;
pub use instruction::ProgramSource;
pub use instruction::clone_instructions;
pub use command::CommandEnum;
pub use command::CommandMessage;
pub use command::DestinationEnum;
pub use command::RequestMessage;
pub use command::ResponseMessage;
pub use command::WorkersEnum;
pub use command::command_token;
pub use command::destination_token;
pub use command::spec_parse_command;
pub use command::spec_parse_destination;
pub use command::spec_parse_worker;
pub use command::worker_token;
