//! The single decisions of the three stages: where the router sends a command,
//! which command of a burst the coalescing dispatcher keeps, and what the
//! sequential dispatcher does with what it received.

use vstd::prelude::*;
use crate::command::UiCommand;

verus! {

/// What a wait on a channel ended with.
#[derive(Debug)]
pub enum Received {
    Command(UiCommand),
    /// Every sender is gone and the channel is empty.
    Closed,
}

/// What the router does with what it received.
#[derive(Debug)]
pub enum RouterStep {
    ForwardDroppable(UiCommand),
    ForwardGuaranteed(UiCommand),
    /// Raise the shutdown flag and end.
    ShutDown,
}

/// What the sequential dispatcher does with what it received.
#[derive(Debug)]
pub enum SequentialStep {
    /// Execute the command to its end, then wait again.
    Execute(UiCommand),
    /// Raise the shutdown flag and end.
    ShutDown,
}

/// One of the three long-lived stages.
#[derive(Clone, Copy, Debug, PartialEq, Eq, Structural)]
pub enum Stage {
    Router,
    Coalescing,
    Sequential,
}

/// The router's step for an event.
pub open spec fn routed(event: Received) -> RouterStep {
    match event {
        Received::Command(command) => if command.droppable() {
            RouterStep::ForwardDroppable(command)
        } else {
            RouterStep::ForwardGuaranteed(command)
        },
        Received::Closed => RouterStep::ShutDown,
    }
}

/// The sequential dispatcher's step for an event.
pub open spec fn sequenced(event: Received) -> SequentialStep {
    match event {
        Received::Command(command) => SequentialStep::Execute(command),
        Received::Closed => SequentialStep::ShutDown,
    }
}

/// The command of a burst that is kept: its last one.
pub open spec fn coalesced(burst: Seq<UiCommand>) -> Option<UiCommand> {
    if burst.len() == 0 {
        None
    } else {
        Some(burst.last())
    }
}

/// Whether a stage may begin another wait. The router and the sequential
/// dispatcher stop once the shutdown flag is up; the coalescing dispatcher
/// ends only when its channel closes, and does not look at the flag.
pub fn may_wait(stage: Stage, shutdown: bool) -> (wait: bool)
    ensures
        wait == (stage == Stage::Coalescing || !shutdown),
{
    match stage {
        Stage::Coalescing => true,
        _ => !shutdown,
    }
}

/// Sends a received command to the channel of its delivery class, unchanged;
/// a closed source shuts the pipeline down.
pub fn route(event: Received) -> (step: RouterStep)
    ensures
        step == routed(event),
{
    match event {
        Received::Command(command) => {
            if command.ok_to_drop() {
                RouterStep::ForwardDroppable(command)
            } else {
                RouterStep::ForwardGuaranteed(command)
            }
        },
        Received::Closed => RouterStep::ShutDown,
    }
}

/// Executes whatever command arrived; a closed channel shuts the pipeline down.
pub fn sequence(event: Received) -> (step: SequentialStep)
    ensures
        step == sequenced(event),
{
    match event {
        Received::Command(command) => SequentialStep::Execute(command),
        Received::Closed => SequentialStep::ShutDown,
    }
}

/// Keeps the newest command that was offered to it since the last `take`.
#[derive(Debug)]
pub struct Coalescer {
    latest: Option<UiCommand>,
}

impl Coalescer {
    /// The command that the next `take` hands out.
    pub closed spec fn retained(&self) -> Option<UiCommand> {
        self.latest
    }

    pub fn new() -> (coalescer: Coalescer)
        ensures
            coalescer.retained() is None,
    {
        Coalescer { latest: None }
    }

    /// Retains `command` in place of what was retained before, which is
    /// discarded.
    pub fn offer(&mut self, command: UiCommand)
        ensures
            final(self).retained() == Some(command),
    {
        self.latest = Some(command);
    }

    /// Hands out the retained command, if there is one, and retains nothing.
    pub fn take(&mut self) -> (command: Option<UiCommand>)
        ensures
            command == old(self).retained(),
            final(self).retained() is None,
    {
        self.latest.take()
    }
}

} // verus!
