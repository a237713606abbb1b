//! What holds of every run of the pipeline.

use vstd::prelude::*;
use crate::command::{DeliveryClass, UiCommand};
use crate::dispatch::Received;
use crate::pipeline::{selected, PipelineView, Turn};

verus! {

/// Every command has one of the two classes, so the two selections of a
/// sequence share its commands between them: none is lost and none is doubled.
pub proof fn lemma_selected_lengths(commands: Seq<UiCommand>)
    ensures
        selected(commands, DeliveryClass::Droppable).len() + selected(
            commands,
            DeliveryClass::Guaranteed,
        ).len() == commands.len(),
    decreases commands.len(),
{
    if commands.len() > 0 {
        lemma_selected_lengths(commands.drop_last());
    }
}

/// Of commands that all have one class, the selection by that class is the
/// whole sequence.
pub proof fn lemma_selected_whole(commands: Seq<UiCommand>, class: DeliveryClass)
    requires
        forall|i: int| 0 <= i < commands.len() ==> (#[trigger] commands[i]).delivery_class() == class,
    ensures
        selected(commands, class) == commands,
    decreases commands.len(),
{
    if commands.len() > 0 {
        let front = commands.drop_last();
        assert forall|i: int| 0 <= i < front.len() implies (#[trigger] front[i]).delivery_class()
            == class by {
            assert(front[i] == commands[i]);
        }
        lemma_selected_whole(front, class);
        assert(front.push(commands.last()) =~= commands);
    } else {
        assert(selected(commands, class) =~= commands);
    }
}

/// While the flag is down, the router puts each submitted command at the back
/// of the queue of its class, in the order of submission, and touches nothing
/// else: no command is dropped, doubled or moved to the other queue.
pub proof fn lemma_router_keeps_every_command(pipeline: PipelineView, commands: Seq<UiCommand>)
    requires
        !pipeline.shutdown,
    ensures
        !pipeline.after_submitting(commands).shutdown,
        pipeline.after_submitting(commands).droppable == pipeline.droppable + selected(
            commands,
            DeliveryClass::Droppable,
        ),
        pipeline.after_submitting(commands).guaranteed == pipeline.guaranteed + selected(
            commands,
            DeliveryClass::Guaranteed,
        ),
        pipeline.after_submitting(commands).droppable.len() + pipeline.after_submitting(
            commands,
        ).guaranteed.len() == pipeline.droppable.len() + pipeline.guaranteed.len()
            + commands.len(),
    decreases commands.len(),
{
    let after = pipeline.after_submitting(commands);
    lemma_selected_lengths(commands);
    if commands.len() == 0 {
        assert(after.droppable =~= pipeline.droppable + selected(
            commands,
            DeliveryClass::Droppable,
        ));
        assert(after.guaranteed =~= pipeline.guaranteed + selected(
            commands,
            DeliveryClass::Guaranteed,
        ));
    } else {
        lemma_router_keeps_every_command(pipeline, commands.drop_last());
        assert(after.droppable =~= pipeline.droppable + selected(
            commands,
            DeliveryClass::Droppable,
        ));
        assert(after.guaranteed =~= pipeline.guaranteed + selected(
            commands,
            DeliveryClass::Guaranteed,
        ));
    }
}

/// A burst of droppable commands that is queued before the coalescing
/// dispatcher takes a turn leads to one execution, that of the last command of
/// the burst: the turn leaves the queue empty, so the next turn executes
/// nothing, and the guaranteed queue is as it was.
pub proof fn lemma_burst_coalesces(pipeline: PipelineView, burst: Seq<UiCommand>)
    requires
        !pipeline.shutdown,
        pipeline.droppable.len() == 0,
        burst.len() > 0,
        forall|i: int| 0 <= i < burst.len() ==> (#[trigger] burst[i]).droppable(),
    ensures
        pipeline.after_submitting(burst).coalescing_turn() == Turn::Execute(burst.last()),
        pipeline.after_submitting(burst).after_coalescing().coalescing_turn() == Turn::Idle,
        pipeline.after_submitting(burst).after_coalescing().guaranteed == pipeline.guaranteed,
{
    lemma_router_keeps_every_command(pipeline, burst);
    lemma_selected_whole(burst, DeliveryClass::Droppable);
    lemma_selected_lengths(burst);
    let after = pipeline.after_submitting(burst);
    assert(after.droppable =~= burst);
    assert(selected(burst, DeliveryClass::Guaranteed) =~= Seq::empty());
    assert(after.guaranteed =~= pipeline.guaranteed);
}

/// While the flag is down, the sequential dispatcher executes the queued
/// guaranteed commands from the front, one a turn, in the order of the queue.
pub proof fn lemma_sequential_is_fifo(pipeline: PipelineView, turns: nat)
    requires
        !pipeline.shutdown,
        turns <= pipeline.guaranteed.len(),
    ensures
        pipeline.executed_in(turns) == pipeline.guaranteed.subrange(0, turns as int),
    decreases turns,
{
    if turns == 0 {
        assert(pipeline.executed_in(turns) =~= pipeline.guaranteed.subrange(0, 0));
    } else {
        let next = pipeline.after_sequential();
        lemma_sequential_is_fifo(next, (turns - 1) as nat);
        assert(pipeline.executed_in(turns) =~= pipeline.guaranteed.subrange(0, turns as int));
    }
}

/// Guaranteed commands that are submitted in some order are executed in that
/// order, each once, a turn for each.
pub proof fn lemma_guaranteed_in_order(pipeline: PipelineView, commands: Seq<UiCommand>)
    requires
        !pipeline.shutdown,
        pipeline.guaranteed.len() == 0,
        forall|i: int| 0 <= i < commands.len() ==> !(#[trigger] commands[i]).droppable(),
    ensures
        pipeline.after_submitting(commands).executed_in(commands.len()) == commands,
        pipeline.after_submitting(commands).droppable == pipeline.droppable,
{
    lemma_router_keeps_every_command(pipeline, commands);
    lemma_selected_whole(commands, DeliveryClass::Guaranteed);
    lemma_selected_lengths(commands);
    let after = pipeline.after_submitting(commands);
    assert(after.guaranteed =~= commands);
    assert(selected(commands, DeliveryClass::Droppable) =~= Seq::empty());
    assert(after.droppable =~= pipeline.droppable);
    lemma_sequential_is_fifo(after, commands.len());
    assert(commands.subrange(0, commands.len() as int) =~= commands);
}

/// When the source of commands closes, the router raises the flag. With the
/// flag up the router takes nothing more and the sequential dispatcher has
/// ended: it executes nothing, whatever is still queued.
pub proof fn lemma_shutdown_propagates(pipeline: PipelineView, event: Received, turns: nat)
    ensures
        pipeline.after_router(Received::Closed).shutdown,
        pipeline.after_router(Received::Closed).after_router(event) == pipeline.after_router(
            Received::Closed,
        ),
        pipeline.after_router(Received::Closed).sequential_turn() == Turn::Stopped,
        pipeline.after_router(Received::Closed).after_sequential() == pipeline.after_router(
            Received::Closed,
        ),
        pipeline.after_router(Received::Closed).executed_in(turns) == Seq::<UiCommand>::empty(),
{
}

/// No turn of any stage lowers the flag once it is up, and only the router's
/// turn on a closed source raises it.
pub proof fn lemma_flag_is_raised_once(pipeline: PipelineView, event: Received)
    ensures
        pipeline.shutdown ==> pipeline.after_router(event).shutdown,
        pipeline.after_coalescing().shutdown == pipeline.shutdown,
        pipeline.after_sequential().shutdown == pipeline.shutdown,
        !pipeline.shutdown ==> (pipeline.after_router(event).shutdown <==> event is Closed),
{
}

/// The coalescing dispatcher does not look at the flag: whatever is queued for
/// it is coalesced and executed, also after shutdown.
pub proof fn lemma_coalescing_ignores_flag(pipeline: PipelineView)
    requires
        pipeline.droppable.len() > 0,
    ensures
        pipeline.coalescing_turn() == Turn::Execute(pipeline.droppable.last()),
{
}

} // verus!
