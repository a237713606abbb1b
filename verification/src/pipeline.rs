//! The pipeline as one state: the shutdown flag and the two queues between the
//! router and the dispatchers. Each stage takes turns on it; a turn is what the
//! stage does between two waits.

use vstd::prelude::*;
use crate::command::{DeliveryClass, UiCommand};
use crate::queue::{queued, CommandQueue};
use crate::dispatch::{
    coalesced,
    may_wait,
    route,
    routed,
    sequence,
    Coalescer,
    Received,
    RouterStep,
    SequentialStep,
    Stage,
};

verus! {

/// What a dispatcher's turn came to.
#[derive(Debug)]
pub enum Turn {
    /// This command is handed to an execution.
    Execute(UiCommand),
    /// Nothing is queued: the dispatcher would wait.
    Idle,
    /// The dispatcher has ended.
    Stopped,
}

/// The state of the pipeline: the shutdown flag, and the queue of each
/// delivery class.
pub struct Pipeline {
    shutdown: bool,
    droppable: CommandQueue,
    guaranteed: CommandQueue,
}

/// A pipeline as a mathematical value.
pub ghost struct PipelineView {
    pub shutdown: bool,
    pub droppable: Seq<UiCommand>,
    pub guaranteed: Seq<UiCommand>,
}

/// The commands of `commands` that have the delivery class `class`, in order.
pub open spec fn selected(commands: Seq<UiCommand>, class: DeliveryClass) -> Seq<UiCommand>
    decreases commands.len(),
{
    if commands.len() == 0 {
        Seq::empty()
    } else if commands.last().delivery_class() == class {
        selected(commands.drop_last(), class).push(commands.last())
    } else {
        selected(commands.drop_last(), class)
    }
}

impl PipelineView {
    /// The pipeline at its start: flag down, nothing queued.
    pub open spec fn fresh() -> PipelineView {
        PipelineView { shutdown: false, droppable: Seq::empty(), guaranteed: Seq::empty() }
    }

    /// The state after the router's turn on `event`.
    pub open spec fn after_router(self, event: Received) -> PipelineView {
        if self.shutdown {
            self
        } else {
            match routed(event) {
                RouterStep::ForwardDroppable(command) => PipelineView {
                    droppable: self.droppable.push(command),
                    ..self
                },
                RouterStep::ForwardGuaranteed(command) => PipelineView {
                    guaranteed: self.guaranteed.push(command),
                    ..self
                },
                RouterStep::ShutDown => PipelineView { shutdown: true, ..self },
            }
        }
    }

    /// The state after the router has taken one turn on each of `commands`.
    pub open spec fn after_submitting(self, commands: Seq<UiCommand>) -> PipelineView
        decreases commands.len(),
    {
        if commands.len() == 0 {
            self
        } else {
            self.after_submitting(commands.drop_last()).after_router(
                Received::Command(commands.last()),
            )
        }
    }

    /// What a turn of the coalescing dispatcher comes to.
    pub open spec fn coalescing_turn(self) -> Turn {
        match coalesced(self.droppable) {
            Some(command) => Turn::Execute(command),
            None => if self.shutdown {
                Turn::Stopped
            } else {
                Turn::Idle
            },
        }
    }

    /// The state after a turn of the coalescing dispatcher.
    pub open spec fn after_coalescing(self) -> PipelineView {
        PipelineView { droppable: Seq::empty(), ..self }
    }

    /// What a turn of the sequential dispatcher comes to.
    pub open spec fn sequential_turn(self) -> Turn {
        if self.shutdown {
            Turn::Stopped
        } else if self.guaranteed.len() > 0 {
            Turn::Execute(self.guaranteed.first())
        } else {
            Turn::Idle
        }
    }

    /// The state after a turn of the sequential dispatcher.
    pub open spec fn after_sequential(self) -> PipelineView {
        if !self.shutdown && self.guaranteed.len() > 0 {
            PipelineView { guaranteed: self.guaranteed.drop_first(), ..self }
        } else {
            self
        }
    }

    /// The commands that the next `turns` turns of the sequential dispatcher
    /// execute, in the order of their execution.
    pub open spec fn executed_in(self, turns: nat) -> Seq<UiCommand>
        decreases turns,
    {
        if turns == 0 {
            Seq::empty()
        } else {
            match self.sequential_turn() {
                Turn::Execute(command) => seq![command] + self.after_sequential().executed_in(
                    (turns - 1) as nat,
                ),
                _ => Seq::empty(),
            }
        }
    }
}

impl View for Pipeline {
    type V = PipelineView;

    closed spec fn view(&self) -> PipelineView {
        PipelineView {
            shutdown: self.shutdown,
            droppable: queued(self.droppable),
            guaranteed: queued(self.guaranteed),
        }
    }
}

/// Sets up the pipeline: the shutdown flag down, and the queue of each delivery
/// class empty.
pub fn start_command_processors() -> (pipeline: Pipeline)
    ensures
        pipeline@ == PipelineView::fresh(),
{
    Pipeline { shutdown: false, droppable: CommandQueue::new(), guaranteed: CommandQueue::new() }
}

impl Pipeline {
    /// The router's turn. While the flag is down, a command goes to the back of
    /// the queue of its class, and a closed source raises the flag. Once the flag
    /// is up the router takes nothing: the turn changes nothing and returns
    /// `false`.
    pub fn router_turn(&mut self, event: Received) -> (taken: bool)
        ensures
            taken == !old(self)@.shutdown,
            final(self)@ == old(self)@.after_router(event),
    {
        if !may_wait(Stage::Router, self.shutdown) {
            return false;
        }
        match route(event) {
            RouterStep::ForwardDroppable(command) => {
                self.droppable.send(command);
            },
            RouterStep::ForwardGuaranteed(command) => {
                self.guaranteed.send(command);
            },
            RouterStep::ShutDown => {
                self.shutdown = true;
            },
        }
        true
    }

    /// The coalescing dispatcher's turn. It empties the droppable queue and
    /// hands the newest command of it to an execution; the older ones are
    /// discarded. With nothing queued it is idle, or has ended if the router has.
    pub fn coalescing_turn(&mut self) -> (turn: Turn)
        ensures
            turn == old(self)@.coalescing_turn(),
            final(self)@ == old(self)@.after_coalescing(),
    {
        let ghost burst = queued(self.droppable);
        let mut coalescer = Coalescer::new();
        let mut draining = true;
        while draining
            invariant
                self.shutdown == old(self).shutdown,
                self.guaranteed == old(self).guaranteed,
                queued(self.droppable).len() <= burst.len(),
                queued(self.droppable) == burst.subrange(
                    burst.len() - queued(self.droppable).len(),
                    burst.len() as int,
                ),
                coalescer.retained() == coalesced(
                    burst.subrange(0, burst.len() - queued(self.droppable).len()),
                ),
                !draining ==> queued(self.droppable).len() == 0,
            decreases queued(self.droppable).len(), (if draining { 1int } else { 0int }),
        {
            match self.droppable.try_recv() {
                Some(command) => coalescer.offer(command),
                None => {
                    draining = false;
                },
            }
        }
        proof {
            assert(burst.subrange(0, burst.len() as int) =~= burst);
            assert(queued(self.droppable) =~= Seq::empty());
        }
        match coalescer.take() {
            Some(command) => Turn::Execute(command),
            None => {
                if self.shutdown {
                    Turn::Stopped
                } else {
                    Turn::Idle
                }
            },
        }
    }

    /// The sequential dispatcher's turn. While the flag is down it takes the
    /// oldest guaranteed command and hands it to an execution, or is idle with
    /// nothing queued. Once the flag is up it has ended and takes nothing.
    pub fn sequential_turn(&mut self) -> (turn: Turn)
        ensures
            turn == old(self)@.sequential_turn(),
            final(self)@ == old(self)@.after_sequential(),
    {
        if !may_wait(Stage::Sequential, self.shutdown) {
            return Turn::Stopped;
        }
        match self.guaranteed.try_recv() {
            Some(command) => {
                match sequence(Received::Command(command)) {
                    SequentialStep::Execute(command) => Turn::Execute(command),
                    SequentialStep::ShutDown => Turn::Stopped,
                }
            },
            None => Turn::Idle,
        }
    }

    /// Whether the shutdown flag is up.
    pub fn is_shut_down(&self) -> (up: bool)
        ensures
            up == self@.shutdown,
    {
        self.shutdown
    }

    /// How many droppable commands are queued.
    pub fn queued_droppable(&self) -> (count: usize)
        ensures
            count == self@.droppable.len(),
    {
        self.droppable.len()
    }

    /// How many guaranteed commands are queued.
    pub fn queued_guaranteed(&self) -> (count: usize)
        ensures
            count == self@.guaranteed.len(),
    {
        self.guaranteed.len()
    }
}

} // verus!
