//! What holds of the acquisition loop and its channel taken together: every
//! published snapshot arrives, once, in the order of its cycle.

use crate::acquisition::{begin_spec, cycle_spec, AcquisitionLoop, LoopState, NextStep};
use crate::cancel::CancellationFlag;
use crate::channel::{ChannelState, Received, SnapshotChannel};
use crate::services::{
    StartupError, SystemDataService, SystemInfoDynamicData, SystemInfoStaticData,
};
use vstd::prelude::*;

verus! {

/// The producer and the channel it feeds.
pub struct PipelineState {
    pub acquisition: LoopState,
    pub channel: ChannelState,
}

/// A pipeline that has not run a cycle yet.
pub open spec fn started(interval_ms: u64) -> PipelineState {
    PipelineState {
        acquisition: LoopState { interval_ms, running: true },
        channel: ChannelState::fresh(),
    }
}

/// The pipeline after one acquisition cycle.
pub open spec fn after_cycle(
    pipeline: PipelineState,
    cancelled: bool,
    snapshot: SystemInfoDynamicData,
) -> PipelineState {
    let (acquisition, channel, _) = cycle_spec(
        pipeline.acquisition,
        cancelled,
        snapshot,
        pipeline.channel,
    );
    PipelineState { acquisition, channel }
}

/// What the driver is told after one acquisition cycle.
pub open spec fn step_of_cycle(
    pipeline: PipelineState,
    cancelled: bool,
    snapshot: SystemInfoDynamicData,
) -> NextStep {
    cycle_spec(pipeline.acquisition, cancelled, snapshot, pipeline.channel).2
}

/// The pipeline after one cycle per sample, in order, with the flag clear.
pub open spec fn after_cycles(
    pipeline: PipelineState,
    samples: Seq<SystemInfoDynamicData>,
) -> PipelineState
    decreases samples.len(),
{
    if samples.len() == 0 {
        pipeline
    } else {
        after_cycle(after_cycles(pipeline, samples.drop_last()), false, samples.last())
    }
}

/// The channel after `n` receives.
pub open spec fn after_receives(channel: ChannelState, n: nat) -> ChannelState
    decreases n,
{
    if n == 0 {
        channel
    } else {
        after_receives(channel, (n - 1) as nat).after_receive()
    }
}

/// What the receive after `n` earlier ones reports.
pub open spec fn nth_received(channel: ChannelState, n: nat) -> Received {
    after_receives(channel, n).next()
}

/// The pipeline after a cycle's opening check alone.
pub open spec fn after_check(pipeline: PipelineState, cancelled: bool) -> PipelineState {
    let (acquisition, channel) = begin_spec(pipeline.acquisition, cancelled, pipeline.channel);
    PipelineState { acquisition, channel }
}

/// The pipeline as it stands when `samples` were sampled in as many cycles
/// and the cycle after them found the flag set.
pub open spec fn cancelled_after(
    interval_ms: u64,
    samples: Seq<SystemInfoDynamicData>,
) -> PipelineState {
    after_check(after_cycles(started(interval_ms), samples), true)
}

/// A cycle that finds the flag set is its opening check and nothing more: it
/// samples nothing, so no snapshot bears on its outcome.
pub proof fn lemma_cancelled_cycle_is_its_check(
    pipeline: PipelineState,
    snapshot: SystemInfoDynamicData,
)
    ensures
        after_cycle(pipeline, true, snapshot) == after_check(pipeline, true),
        step_of_cycle(pipeline, true, snapshot) == NextStep::Stop,
        !after_check(pipeline, true).acquisition.running,
        after_check(pipeline, true).channel == pipeline.channel.close_sender(),
{
}

/// Cycles of a running loop whose channel is held at both ends queue their
/// snapshots behind what was pending, in cycle order, and leave the loop
/// running; each is followed by the sleep.
pub proof fn lemma_cycles_queue_in_order(
    pipeline: PipelineState,
    samples: Seq<SystemInfoDynamicData>,
)
    requires
        pipeline.acquisition.running,
        pipeline.channel.accepts(),
    ensures
        after_cycles(pipeline, samples) == (PipelineState {
            acquisition: pipeline.acquisition,
            channel: ChannelState {
                pending: pipeline.channel.pending + samples,
                ..pipeline.channel
            },
        }),
        forall|k: int|
            0 <= k < samples.len() ==> #[trigger] step_of_cycle(
                after_cycles(pipeline, samples.take(k)),
                false,
                samples[k],
            ) == NextStep::Sleep(pipeline.acquisition.interval_ms),
    decreases samples.len(),
{
    if samples.len() == 0 {
        assert(pipeline.channel.pending + samples =~= pipeline.channel.pending);
    } else {
        let front = samples.drop_last();
        lemma_cycles_queue_in_order(pipeline, front);
        assert((pipeline.channel.pending + front).push(samples.last())
            =~= pipeline.channel.pending + samples);
        assert forall|k: int| 0 <= k < samples.len() implies #[trigger] step_of_cycle(
            after_cycles(pipeline, samples.take(k)),
            false,
            samples[k],
        ) == NextStep::Sleep(pipeline.acquisition.interval_ms) by {
            if k < front.len() {
                assert(front.take(k) =~= samples.take(k));
                assert(front[k] == samples[k]);
            } else {
                assert(samples.take(k) =~= front);
            }
        }
    }
}

/// On a channel whose consumer end is held, `n` receives take the `n` oldest
/// pending snapshots, oldest first, and leave the rest as it was.
pub proof fn lemma_receives_take_oldest(channel: ChannelState, n: nat)
    requires
        channel.receiver_alive,
        n <= channel.pending.len(),
    ensures
        after_receives(channel, n) == (ChannelState {
            pending: channel.pending.subrange(n as int, channel.pending.len() as int),
            ..channel
        }),
        n < channel.pending.len() ==> nth_received(channel, n) == Received::Snapshot(
            channel.pending[n as int],
        ),
    decreases n,
{
    if n == 0 {
        assert(channel.pending.subrange(0, channel.pending.len() as int) =~= channel.pending);
    } else {
        lemma_receives_take_oldest(channel, (n - 1) as nat);
        let before = channel.pending.subrange(n - 1, channel.pending.len() as int);
        assert(before.subrange(1, before.len() as int) =~= channel.pending.subrange(
            n as int,
            channel.pending.len() as int,
        ));
    }
}

/// Once a channel is drained and its producer end released, every further
/// receive reports the end of the stream and changes nothing.
pub proof fn lemma_closed_stays_closed(channel: ChannelState, n: nat)
    requires
        channel.pending.len() == 0,
        !channel.sender_alive || !channel.receiver_alive,
    ensures
        after_receives(channel, n) == channel,
        nth_received(channel, n) == Received::Closed,
    decreases n,
{
    if n > 0 {
        lemma_closed_stays_closed(channel, (n - 1) as nat);
    }
}

/// Receives compose: `m` receives after `n` receives are `n + m` receives.
pub proof fn lemma_receives_compose(channel: ChannelState, n: nat, m: nat)
    ensures
        after_receives(after_receives(channel, n), m) == after_receives(channel, n + m),
    decreases m,
{
    if m > 0 {
        lemma_receives_compose(channel, n, (m - 1) as nat);
        assert((n + m - 1) as nat == n + ((m - 1) as nat));
    }
}

/// When shutdown is requested after N cycles, the loop has ended, and the
/// consumer receives exactly the N snapshots of those cycles, in cycle order,
/// before the channel reports its closure, which it then reports for ever.
pub proof fn lemma_cancel_delivers_every_cycle(
    interval_ms: u64,
    samples: Seq<SystemInfoDynamicData>,
)
    ensures
        !cancelled_after(interval_ms, samples).acquisition.running,
        cancelled_after(interval_ms, samples).channel.pending == samples,
        forall|i: nat|
            i < samples.len() ==> #[trigger] nth_received(
                cancelled_after(interval_ms, samples).channel,
                i,
            ) == Received::Snapshot(samples[i as int]),
        forall|i: nat|
            i >= samples.len() ==> #[trigger] nth_received(
                cancelled_after(interval_ms, samples).channel,
                i,
            ) == Received::Closed,
{
    let begun = started(interval_ms);
    lemma_cycles_queue_in_order(begun, samples);
    assert(begun.channel.pending + samples =~= samples);
    let end = cancelled_after(interval_ms, samples).channel;
    assert(end.pending == samples);
    assert forall|i: nat| i < samples.len() implies #[trigger] nth_received(end, i)
        == Received::Snapshot(samples[i as int]) by {
        lemma_receives_take_oldest(end, i);
    }
    assert forall|i: nat| i >= samples.len() implies #[trigger] nth_received(end, i)
        == Received::Closed by {
        let n: nat = samples.len();
        lemma_receives_take_oldest(end, n);
        let drained = after_receives(end, n);
        assert(drained.pending =~= Seq::empty());
        lemma_closed_stays_closed(drained, (i - n) as nat);
        lemma_receives_compose(end, n, (i - n) as nat);
        assert(n + ((i - n) as nat) == i);
    }
}

/// Delivery keeps what the producer guaranteed of each snapshot: where every
/// sampled snapshot has its running count within its total, so has every
/// received one.
pub proof fn lemma_received_are_well_formed(
    interval_ms: u64,
    samples: Seq<SystemInfoDynamicData>,
)
    requires
        forall|i: int| 0 <= i < samples.len() ==> (#[trigger] samples[i]).wf(),
    ensures
        forall|i: nat|
            (#[trigger] nth_received(cancelled_after(interval_ms, samples).channel, i))
                is Snapshot ==> nth_received(
                cancelled_after(interval_ms, samples).channel,
                i,
            )->Snapshot_0.wf(),
{
    lemma_cancel_delivers_every_cycle(interval_ms, samples);
    assert forall|i: nat|
        (#[trigger] nth_received(cancelled_after(interval_ms, samples).channel, i))
            is Snapshot implies nth_received(
        cancelled_after(interval_ms, samples).channel,
        i,
    )->Snapshot_0.wf() by {
        if i < samples.len() {
            assert(samples[i as int].wf());
        }
    }
}

/// Delivery keeps the order of uptimes: where the host's uptime did not go
/// back from one cycle to the next, it does not go back from one received
/// snapshot to the next.
pub proof fn lemma_uptime_order_survives_delivery(
    interval_ms: u64,
    samples: Seq<SystemInfoDynamicData>,
)
    requires
        forall|k: int|
            0 <= k && k + 1 < samples.len() ==> (#[trigger] samples[k]).uptime <= samples[k
                + 1].uptime,
    ensures
        forall|k: nat|
            k + 1 < samples.len() ==> (#[trigger] nth_received(
                cancelled_after(interval_ms, samples).channel,
                k,
            ))->Snapshot_0.uptime <= nth_received(
                cancelled_after(interval_ms, samples).channel,
                k + 1,
            )->Snapshot_0.uptime,
{
    lemma_cancel_delivers_every_cycle(interval_ms, samples);
    let end = cancelled_after(interval_ms, samples).channel;
    assert forall|k: nat| k + 1 < samples.len() implies (#[trigger] nth_received(
        end,
        k,
    ))->Snapshot_0.uptime <= nth_received(end, k + 1)->Snapshot_0.uptime by {
        assert(nth_received(end, k) == Received::Snapshot(samples[k as int]));
        assert(nth_received(end, k + 1) == Received::Snapshot(samples[k as int + 1]));
        assert(samples[k as int].uptime <= samples[k as int + 1].uptime);
    }
}

/// Once the consumer end is gone, the next cycle of a running loop ends the
/// loop without delivering anything, whatever it sampled.
pub proof fn lemma_consumer_gone_ends_loop(
    pipeline: PipelineState,
    cancelled: bool,
    snapshot: SystemInfoDynamicData,
)
    requires
        !pipeline.channel.receiver_alive,
    ensures
        !after_cycle(pipeline, cancelled, snapshot).acquisition.running,
        step_of_cycle(pipeline, cancelled, snapshot) == NextStep::Stop,
        after_cycle(pipeline, cancelled, snapshot).channel.pending == pipeline.channel.pending,
        !after_cycle(pipeline, cancelled, snapshot).channel.sender_alive,
{
}

/// A loop that has ended stays ended: further cycles neither send nor sleep.
pub proof fn lemma_stopped_loop_stays_stopped(
    pipeline: PipelineState,
    cancelled: bool,
    snapshot: SystemInfoDynamicData,
)
    requires
        !pipeline.acquisition.running,
    ensures
        !after_cycle(pipeline, cancelled, snapshot).acquisition.running,
        step_of_cycle(pipeline, cancelled, snapshot) == NextStep::Stop,
        after_cycle(pipeline, cancelled, snapshot).channel.pending == pipeline.channel.pending,
{
}

/// One use of a channel by either of its ends.
pub enum ChannelOp {
    /// The producer sends this snapshot.
    Send(SystemInfoDynamicData),
    /// The consumer tries to receive.
    Receive,
}

/// The channel after a run of sends and receives, interleaved in any way.
pub open spec fn after_ops(channel: ChannelState, ops: Seq<ChannelOp>) -> ChannelState
    decreases ops.len(),
{
    if ops.len() == 0 {
        channel
    } else {
        let before = after_ops(channel, ops.drop_last());
        match ops.last() {
            ChannelOp::Send(snapshot) => before.send(snapshot),
            ChannelOp::Receive => before.after_receive(),
        }
    }
}

/// The snapshots that the sends of a run hand to the channel, in order.
pub open spec fn sent_by(ops: Seq<ChannelOp>) -> Seq<SystemInfoDynamicData>
    decreases ops.len(),
{
    if ops.len() == 0 {
        Seq::empty()
    } else {
        match ops.last() {
            ChannelOp::Send(snapshot) => sent_by(ops.drop_last()).push(snapshot),
            ChannelOp::Receive => sent_by(ops.drop_last()),
        }
    }
}

/// The snapshots that the receives of a run hand to the consumer, in order.
pub open spec fn received_by(channel: ChannelState, ops: Seq<ChannelOp>) -> Seq<
    SystemInfoDynamicData,
>
    decreases ops.len(),
{
    if ops.len() == 0 {
        Seq::empty()
    } else {
        let earlier = received_by(channel, ops.drop_last());
        match ops.last() {
            ChannelOp::Send(_) => earlier,
            ChannelOp::Receive => match after_ops(channel, ops.drop_last()).next() {
                Received::Snapshot(snapshot) => earlier.push(snapshot),
                _ => earlier,
            },
        }
    }
}

/// Nothing is lost, doubled or reordered, however sends and receives
/// interleave: while both ends are held, what has been received followed by
/// what is pending is what was pending at first followed by what has been
/// sent.
pub proof fn lemma_no_loss_no_reorder(channel: ChannelState, ops: Seq<ChannelOp>)
    requires
        channel.accepts(),
    ensures
        after_ops(channel, ops).accepts(),
        received_by(channel, ops) + after_ops(channel, ops).pending == channel.pending + sent_by(
            ops,
        ),
    decreases ops.len(),
{
    if ops.len() == 0 {
        assert(received_by(channel, ops) + after_ops(channel, ops).pending =~= channel.pending
            + sent_by(ops));
    } else {
        let front = ops.drop_last();
        lemma_no_loss_no_reorder(channel, front);
        let before = after_ops(channel, front);
        let earlier = received_by(channel, front);
        assert(earlier + before.pending == channel.pending + sent_by(front));
        match ops.last() {
            ChannelOp::Send(snapshot) => {
                assert(earlier + before.pending.push(snapshot) =~= (earlier
                    + before.pending).push(snapshot));
            },
            ChannelOp::Receive => {
                if before.pending.len() > 0 {
                    assert(earlier.push(before.pending[0]) + before.pending.subrange(
                        1,
                        before.pending.len() as int,
                    ) =~= earlier + before.pending);
                }
            },
        }
    }
}

/// Everything a dashboard run consists of, as it stands before the first
/// cycle: the host's identity, a loop that has not run, an empty channel and
/// a clear latch.
pub struct Pipeline {
    pub identity: SystemInfoStaticData,
    pub acquisition: AcquisitionLoop,
    pub channel: SnapshotChannel,
    pub flag: CancellationFlag,
}

impl Pipeline {
    /// Whether this is a pipeline that has not run yet, for the given
    /// identity and sampling interval.
    pub open spec fn is_initial(&self, identity: SystemInfoStaticData, interval_ms: u64) -> bool {
        &&& self.identity == identity
        &&& self.acquisition@ == started(interval_ms).acquisition
        &&& self.channel@ == started(interval_ms).channel
        &&& !self.flag@
    }

    /// Sets the pipeline up once the host's identity is known. Where the
    /// identity is missing, nothing is set up and the failure is handed on
    /// unchanged.
    pub fn assemble(
        identity: Result<SystemInfoStaticData, StartupError>,
        interval_ms: u64,
    ) -> (r: Result<Pipeline, StartupError>)
        ensures
            match identity {
                Ok(known) => r is Ok && r->Ok_0.is_initial(known, interval_ms),
                Err(failure) => r == Err::<Pipeline, StartupError>(failure),
            },
    {
        match identity {
            Ok(known) => Ok(
                Pipeline {
                    identity: known,
                    acquisition: AcquisitionLoop::new(interval_ms),
                    channel: SnapshotChannel::new(),
                    flag: CancellationFlag::new(),
                },
            ),
            Err(failure) => Err(failure),
        }
    }

    /// Reads the host's identity and sets the pipeline up for it. A pipeline
    /// that is returned has not run yet, names at least one core and shows
    /// the processor brand and the installed memory that the service holds.
    pub fn start(service: &SystemDataService, interval_ms: u64) -> (r: Result<Pipeline, StartupError>)
        ensures
            r is Ok ==> r->Ok_0.identity.wf() && r->Ok_0.identity.total_memory
                == service@.total_memory && r->Ok_0.identity.processor_name@
                == service@.processor_brand && r->Ok_0.is_initial(
                r->Ok_0.identity,
                interval_ms,
            ),
    {
        Pipeline::assemble(service.static_data(), interval_ms)
    }
}

} // verus!
