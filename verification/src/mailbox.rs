//! The per-lane command mailbox: an ordered, unbounded, single-consumer
//! queue of commands from request handlers to a lane's loop.  A send never
//! blocks and fails exactly when no receiving loop is attached; that
//! failure is reported to the caller, never swallowed.  The sending side is
//! owned by the lane registry for the whole process lifetime, so the
//! "sender gone" outcome of a receive cannot arise in this design.

use vstd::prelude::*;

use crate::command::CommandEnum;

verus! {

/// Abstract value of a mailbox: the pending commands, oldest first, and
/// whether a receiving loop is currently attached.
pub ghost struct MailboxView {
    pub queue: Seq<CommandEnum>,
    pub receiver_live: bool,
}

/// A send into a mailbox with no attached receiver: the lane has no active
/// loop to deliver to.
#[derive(Clone, Copy, PartialEq, Eq, Structural, Debug)]
pub struct MailboxError;

/// The command mailbox of one lane.
pub struct CommandMailbox {
    pub queue: Vec<CommandEnum>,
    pub receiver_live: bool,
}

impl View for CommandMailbox {
    type V = MailboxView;

    open spec fn view(&self) -> MailboxView {
        MailboxView { queue: self.queue@, receiver_live: self.receiver_live }
    }
}

/// While no receiver is attached every send fails, so the queue can only
/// hold commands while a loop is live.
pub open spec fn mailbox_wf(m: MailboxView) -> bool {
    !m.receiver_live ==> m.queue.len() == 0
}

impl CommandMailbox {
    /// An empty mailbox with no receiver attached.
    pub fn new() -> (m: CommandMailbox)
        ensures
            m@.queue == Seq::<CommandEnum>::empty(),
            !m@.receiver_live,
            mailbox_wf(m@),
    {
        CommandMailbox { queue: Vec::new(), receiver_live: false }
    }

    /// Appends a command; fails, changing nothing, exactly when no
    /// receiving loop is attached.
    pub fn send(&mut self, c: CommandEnum) -> (r: Result<(), MailboxError>)
        ensures
            old(self)@.receiver_live ==> {
                &&& r is Ok
                &&& final(self)@.queue == old(self)@.queue.push(c)
                &&& final(self)@.receiver_live
            },
            !old(self)@.receiver_live ==> r is Err && *final(self) == *old(self),
    {
        if self.receiver_live {
            self.queue.push(c);
            Ok(())
        } else {
            Err(MailboxError)
        }
    }

    /// Non-blocking receive: the oldest pending command, or nothing when
    /// the queue is empty.
    pub fn try_receive(&mut self) -> (r: Option<CommandEnum>)
        requires
            old(self)@.receiver_live,
        ensures
            old(self)@.queue.len() == 0 ==> r is None && *final(self) == *old(self),
            old(self)@.queue.len() > 0 ==> {
                &&& r == Some(old(self)@.queue[0])
                &&& final(self)@.queue == old(self)@.queue.remove(0)
                &&& final(self)@.receiver_live
            },
    {
        if self.queue.len() == 0 {
            None
        } else {
            Some(self.queue.remove(0))
        }
    }

    /// A loop takes ownership of the receiving side.
    pub fn attach_receiver(&mut self)
        requires
            !old(self)@.receiver_live,
            mailbox_wf(old(self)@),
        ensures
            final(self)@.receiver_live,
            final(self)@.queue == old(self)@.queue,
            final(self)@.queue.len() == 0,
    {
        self.receiver_live = true;
    }

    /// The loop exits and drops the receiving side; commands it never
    /// observed are discarded with it.
    pub fn detach_receiver(&mut self)
        ensures
            !final(self)@.receiver_live,
            final(self)@.queue.len() == 0,
            mailbox_wf(final(self)@),
    {
        self.queue.clear();
        self.receiver_live = false;
    }
}

} // verus!
