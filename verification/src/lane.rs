//! One worker lane: a named execution unit with a fixed polling interval,
//! a running flag and a command mailbox.  The start and stop transitions
//! and one step of the polling loop are state-machine functions here; the
//! surrounding process spawns a loop execution when a start transition
//! reports `Started` and sleeps when a step reports `Doze`.

use vstd::prelude::*;

use crate::command::CommandEnum;
use crate::mailbox::CommandMailbox;
use crate::mailbox::MailboxView;
use crate::mailbox::mailbox_wf;

verus! {

/// Abstract value of a lane.
pub ghost struct LaneView {
    pub interval_ms: u64,
    pub running: bool,
    pub mailbox: MailboxView,
}

/// What a start request did.
#[derive(Clone, Copy, PartialEq, Eq, Structural, Debug)]
pub enum StartOutcome {
    /// The lane was stopped; its flag is now set and exactly one new loop
    /// execution is to be spawned.
    Started,
    /// The lane was already running; nothing changed and nothing is
    /// spawned.
    AlreadyRunning,
}

/// What a stop request did.
#[derive(Clone, Copy, PartialEq, Eq, Structural, Debug)]
pub enum StopOutcome {
    /// `Stop` was posted into the mailbox; the loop exits once it observes
    /// it, at most one polling interval after the post.
    StopPosted,
    /// The lane was not running; the request is a no-op.
    NotRunning,
}

/// What one step of the polling loop asks the caller to do next.
#[derive(Clone, Copy, PartialEq, Eq, Structural, Debug)]
pub enum LoopAction {
    /// A `Stop` was observed: the loop execution is over and the lane's
    /// flag has been reset.
    Exited,
    /// The carried command was observed and acknowledged; poll again at
    /// once.
    Acknowledged(CommandEnum),
    /// The mailbox was empty; sleep one polling interval, then poll again.
    Doze,
}

/// A worker lane.
pub struct WorkerLane {
    pub interval_ms: u64,
    pub running: bool,
    pub mailbox: CommandMailbox,
}

impl View for WorkerLane {
    type V = LaneView;

    open spec fn view(&self) -> LaneView {
        LaneView { interval_ms: self.interval_ms, running: self.running, mailbox: self.mailbox@ }
    }
}

/// Lane invariant: the running flag is set exactly while a loop execution
/// owns the receiving side of the mailbox, and a stopped lane holds no
/// pending commands.
pub open spec fn lane_wf(l: LaneView) -> bool {
    &&& l.running == l.mailbox.receiver_live
    &&& mailbox_wf(l.mailbox)
}

/// The start transition: sets the flag and attaches a receiver when the
/// lane is stopped, otherwise changes nothing.
pub open spec fn spec_start(l: LaneView) -> (LaneView, StartOutcome) {
    if !l.running {
        (
            LaneView {
                running: true,
                mailbox: MailboxView { queue: l.mailbox.queue, receiver_live: true },
                ..l
            },
            StartOutcome::Started,
        )
    } else {
        (l, StartOutcome::AlreadyRunning)
    }
}

/// The stop transition: posts `Stop` into the mailbox of a running lane,
/// otherwise changes nothing.
pub open spec fn spec_stop_request(l: LaneView) -> (LaneView, StopOutcome) {
    if l.running {
        (
            LaneView {
                mailbox: MailboxView {
                    queue: l.mailbox.queue.push(CommandEnum::Stop),
                    receiver_live: l.mailbox.receiver_live,
                },
                ..l
            },
            StopOutcome::StopPosted,
        )
    } else {
        (l, StopOutcome::NotRunning)
    }
}

/// One step of the polling loop: doze on an empty mailbox, exit on `Stop`,
/// acknowledge anything else and poll again.
pub open spec fn spec_loop_step(l: LaneView) -> (LaneView, LoopAction) {
    if l.mailbox.queue.len() == 0 {
        (l, LoopAction::Doze)
    } else if l.mailbox.queue[0] == CommandEnum::Stop {
        (
            LaneView {
                running: false,
                mailbox: MailboxView { queue: Seq::empty(), receiver_live: false },
                ..l
            },
            LoopAction::Exited,
        )
    } else {
        (
            LaneView {
                mailbox: MailboxView {
                    queue: l.mailbox.queue.remove(0),
                    receiver_live: l.mailbox.receiver_live,
                },
                ..l
            },
            LoopAction::Acknowledged(l.mailbox.queue[0]),
        )
    }
}

/// The lane after `n` loop steps.
pub open spec fn spec_run_steps(l: LaneView, n: nat) -> LaneView
    decreases n,
{
    if n == 0 {
        l
    } else {
        spec_run_steps(spec_loop_step(l).0, (n - 1) as nat)
    }
}

/// How many steps the loop takes to observe the first `Stop` in a queue
/// that holds one.
pub open spec fn steps_to_stop(q: Seq<CommandEnum>) -> nat
    decreases q.len(),
{
    if q.len() == 0 {
        0
    } else if q[0] == CommandEnum::Stop {
        1
    } else {
        1 + steps_to_stop(q.remove(0))
    }
}

impl WorkerLane {
    /// A stopped lane with the given polling interval and an empty
    /// mailbox.
    pub fn new(interval_ms: u64) -> (l: WorkerLane)
        ensures
            lane_wf(l@),
            !l@.running,
            l@.interval_ms == interval_ms,
            l@.mailbox.queue.len() == 0,
    {
        WorkerLane { interval_ms, running: false, mailbox: CommandMailbox::new() }
    }

    /// Atomic check-and-set start: exactly one `Started` outcome per
    /// activation, so two concurrent start requests can never spawn two
    /// loop executions.
    pub fn start(&mut self) -> (o: StartOutcome)
        requires
            lane_wf(old(self)@),
        ensures
            lane_wf(final(self)@),
            (final(self)@, o) == spec_start(old(self)@),
    {
        if !self.running {
            self.running = true;
            self.mailbox.attach_receiver();
            StartOutcome::Started
        } else {
            StartOutcome::AlreadyRunning
        }
    }

    /// Asks a running lane's loop to exit by posting `Stop`; does not wait
    /// for the exit.  A no-op on a stopped lane.
    pub fn stop_request(&mut self) -> (o: StopOutcome)
        requires
            lane_wf(old(self)@),
        ensures
            lane_wf(final(self)@),
            (final(self)@, o) == spec_stop_request(old(self)@),
    {
        if self.running {
            let r = self.mailbox.send(CommandEnum::Stop);
            proof {
                assert(r is Ok);
            }
            StopOutcome::StopPosted
        } else {
            StopOutcome::NotRunning
        }
    }

    /// Posts an arbitrary command for the lane's loop; fails exactly when
    /// no loop is active.
    pub fn post(&mut self, c: CommandEnum) -> (r: Result<(), crate::mailbox::MailboxError>)
        requires
            lane_wf(old(self)@),
        ensures
            lane_wf(final(self)@),
            old(self)@.running ==> r is Ok && final(self)@ == (LaneView {
                mailbox: MailboxView {
                    queue: old(self)@.mailbox.queue.push(c),
                    receiver_live: true,
                },
                ..old(self)@
            }),
            !old(self)@.running ==> r is Err && final(self)@ == old(self)@,
    {
        self.mailbox.send(c)
    }

    /// One step of the polling loop, as the loop execution runs it.
    pub fn loop_step(&mut self) -> (a: LoopAction)
        requires
            lane_wf(old(self)@),
            old(self)@.running,
        ensures
            lane_wf(final(self)@),
            (final(self)@, a) == spec_loop_step(old(self)@),
    {
        match self.mailbox.try_receive() {
            None => LoopAction::Doze,
            Some(c) => match c {
                CommandEnum::Stop => {
                    self.running = false;
                    self.mailbox.detach_receiver();
                    proof {
                        assert(self.mailbox@.queue =~= Seq::<CommandEnum>::empty());
                    }
                    LoopAction::Exited
                },
                CommandEnum::Start => LoopAction::Acknowledged(c),
                CommandEnum::Restart => LoopAction::Acknowledged(c),
                CommandEnum::Terminate => LoopAction::Acknowledged(c),
                CommandEnum::UpdateStatus => LoopAction::Acknowledged(c),
            },
        }
    }
}

/// Law: starting a stopped lane sets its flag and schedules exactly one
/// loop execution; starting a running lane changes nothing and reports
/// `AlreadyRunning`.
pub proof fn lemma_start_transition(l: LaneView)
    requires
        lane_wf(l),
    ensures
        !l.running ==> {
            &&& spec_start(l).0.running
            &&& spec_start(l).1 == StartOutcome::Started
            &&& spec_start(l).0.interval_ms == l.interval_ms
            &&& spec_start(l).0.mailbox.queue == l.mailbox.queue
        },
        l.running ==> spec_start(l).0 == l && spec_start(l).1 == StartOutcome::AlreadyRunning,
        spec_start(spec_start(l).0).1 == StartOutcome::AlreadyRunning,
        spec_start(spec_start(l).0).0 == spec_start(l).0,
        lane_wf(spec_start(l).0),
{
}

/// Law: stopping a stopped lane is a no-op reported as `NotRunning`;
/// stopping a running lane appends `Stop` to its mailbox, and the loop
/// resets the running flag after at most one step per pending command.
pub proof fn lemma_stop_transition(l: LaneView)
    requires
        lane_wf(l),
    ensures
        !l.running ==> spec_stop_request(l).0 == l && spec_stop_request(l).1
            == StopOutcome::NotRunning,
        l.running ==> {
            &&& spec_stop_request(l).1 == StopOutcome::StopPosted
            &&& spec_stop_request(l).0.mailbox.queue == l.mailbox.queue.push(CommandEnum::Stop)
            &&& spec_stop_request(l).0.running
        },
        l.running ==> !spec_run_steps(
            spec_stop_request(l).0,
            steps_to_stop(spec_stop_request(l).0.mailbox.queue),
        ).running,
        lane_wf(spec_stop_request(l).0),
{
    if l.running {
        let stopped = spec_stop_request(l).0;
        assert(stopped.mailbox.queue.contains(CommandEnum::Stop)) by {
            assert(stopped.mailbox.queue.last() == CommandEnum::Stop);
        }
        lemma_pending_stop_drains(stopped);
    }
}

/// Law: once a running lane's mailbox holds a `Stop`, the loop observes it
/// and resets the running flag within `steps_to_stop` polling steps, which
/// is at most one step per pending command.
pub proof fn lemma_pending_stop_drains(l: LaneView)
    requires
        lane_wf(l),
        l.running,
        l.mailbox.queue.contains(CommandEnum::Stop),
    ensures
        steps_to_stop(l.mailbox.queue) <= l.mailbox.queue.len(),
        !spec_run_steps(l, steps_to_stop(l.mailbox.queue)).running,
    decreases l.mailbox.queue.len(),
{
    let q = l.mailbox.queue;
    reveal_with_fuel(spec_run_steps, 2);
    if q[0] == CommandEnum::Stop {
        assert(spec_run_steps(l, 1) == spec_loop_step(l).0);
    } else {
        let next = spec_loop_step(l).0;
        assert(next.mailbox.queue == q.remove(0));
        let i = choose|i: int| 0 <= i < q.len() && q[i] == CommandEnum::Stop;
        assert(q.remove(0)[i - 1] == CommandEnum::Stop);
        assert(next.mailbox.queue.contains(CommandEnum::Stop));
        lemma_pending_stop_drains(next);
        assert(spec_run_steps(l, steps_to_stop(q)) == spec_run_steps(
            next,
            steps_to_stop(next.mailbox.queue),
        ));
    }
}

} // verus!
