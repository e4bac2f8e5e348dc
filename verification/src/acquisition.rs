//! The acquisition loop's decisions: when a cycle samples, what it publishes,
//! and when the loop ends.

use crate::cancel::CancellationFlag;
use crate::channel::{ChannelState, SnapshotChannel};
use crate::services::{SystemDataService, SystemInfoDynamicData};
use vstd::prelude::*;

verus! {

/// The sampling interval used where none is chosen, in milliseconds.
pub const DEFAULT_INTERVAL_MS: u64 = 500;

/// What the loop's driver does after a cycle.
#[derive(Debug, Clone, Copy, PartialEq, Eq, Structural)]
pub enum NextStep {
    /// Sleep for this many milliseconds, then run the next cycle.
    Sleep(u64),
    /// The loop has ended; run no further cycle.
    Stop,
}

/// The loop as contracts see it.
pub struct LoopState {
    pub interval_ms: u64,
    pub running: bool,
}

/// The loop and its channel after the check that opens a cycle. A running
/// loop that sees the flag clear goes on unchanged; otherwise the loop is
/// stopped and the producer end is released.
pub open spec fn begin_spec(state: LoopState, cancelled: bool, channel: ChannelState) -> (
    LoopState,
    ChannelState,
) {
    if state.running && !cancelled {
        (state, channel)
    } else {
        (LoopState { running: false, ..state }, channel.close_sender())
    }
}

/// The loop, its channel and the driver's next step after a snapshot is
/// published. A running loop sends; a delivered send is followed by the
/// sleep, an undelivered one ends the loop silently.
pub open spec fn publish_spec(
    state: LoopState,
    snapshot: SystemInfoDynamicData,
    channel: ChannelState,
) -> (LoopState, ChannelState, NextStep) {
    if !state.running {
        (state, channel, NextStep::Stop)
    } else if channel.accepts() {
        (state, channel.send(snapshot), NextStep::Sleep(state.interval_ms))
    } else {
        (LoopState { running: false, ..state }, channel.close_sender(), NextStep::Stop)
    }
}

/// One whole cycle: the opening check, then, where the loop goes on, the
/// publication of the cycle's snapshot.
pub open spec fn cycle_spec(
    state: LoopState,
    cancelled: bool,
    snapshot: SystemInfoDynamicData,
    channel: ChannelState,
) -> (LoopState, ChannelState, NextStep) {
    let (opened, released) = begin_spec(state, cancelled, channel);
    if opened.running {
        publish_spec(opened, snapshot, released)
    } else {
        (opened, released, NextStep::Stop)
    }
}

/// The producer side of the pipeline: runs cycles until shutdown is requested
/// or the consumer is gone.
pub struct AcquisitionLoop {
    interval_ms: u64,
    running: bool,
}

impl View for AcquisitionLoop {
    type V = LoopState;

    closed spec fn view(&self) -> LoopState {
        LoopState { interval_ms: self.interval_ms, running: self.running }
    }
}

impl AcquisitionLoop {
    /// A loop that has not run yet, with the given sampling interval.
    pub fn new(interval_ms: u64) -> (acquisition: AcquisitionLoop)
        ensures
            acquisition@ == (LoopState { interval_ms, running: true }),
    {
        AcquisitionLoop { interval_ms, running: true }
    }

    /// The sampling interval in milliseconds.
    pub fn interval_ms(&self) -> (interval: u64)
        ensures
            interval == self@.interval_ms,
    {
        self.interval_ms
    }

    /// Whether the loop has not ended yet.
    pub fn is_running(&self) -> (running: bool)
        ensures
            running == self@.running,
    {
        self.running
    }

    /// Opens a cycle by reading the flag. Returns whether the cycle goes on
    /// to sample; where it does not, the loop has ended and the producer end
    /// of the channel is released.
    pub fn begin_cycle(
        &mut self,
        flag: &CancellationFlag,
        channel: &mut SnapshotChannel,
    ) -> (proceed: bool)
        ensures
            (final(self)@, final(channel)@) == begin_spec(old(self)@, flag@, old(channel)@),
            proceed == (old(self)@.running && !flag@),
            proceed == final(self)@.running,
    {
        if self.running && !flag.is_requested() {
            true
        } else {
            self.running = false;
            channel.close_sender();
            false
        }
    }

    /// Publishes the snapshot of a cycle and says what the driver does next.
    pub fn publish(
        &mut self,
        snapshot: SystemInfoDynamicData,
        channel: &mut SnapshotChannel,
    ) -> (step: NextStep)
        ensures
            (final(self)@, final(channel)@, step) == publish_spec(
                old(self)@,
                snapshot,
                old(channel)@,
            ),
    {
        if !self.running {
            return NextStep::Stop;
        }
        match channel.send(snapshot) {
            Ok(()) => NextStep::Sleep(self.interval_ms),
            Err(_) => {
                self.running = false;
                channel.close_sender();
                assert(channel@ == old(channel)@.close_sender());
                NextStep::Stop
            },
        }
    }

    /// Runs one cycle with a snapshot already taken: the opening check, then
    /// the publication.
    pub fn cycle_with(
        &mut self,
        flag: &CancellationFlag,
        snapshot: SystemInfoDynamicData,
        channel: &mut SnapshotChannel,
    ) -> (step: NextStep)
        ensures
            (final(self)@, final(channel)@, step) == cycle_spec(
                old(self)@,
                flag@,
                snapshot,
                old(channel)@,
            ),
    {
        if self.begin_cycle(flag, channel) {
            self.publish(snapshot, channel)
        } else {
            NextStep::Stop
        }
    }

    /// Completes a cycle that went on past its opening check, once the
    /// caller has refreshed the host: takes the snapshot of the refreshed
    /// readings, with the load and the memory in use that the caller read,
    /// and publishes it. What is published is the service's snapshot for
    /// those figures and for the uptime that the host gave at that moment.
    pub fn complete_cycle(
        &mut self,
        service: &SystemDataService,
        cpu_usage_bits: u64,
        memory_used: u64,
        channel: &mut SnapshotChannel,
    ) -> (step: NextStep)
        ensures
            exists|uptime: u64|
                (final(self)@, final(channel)@, step) == #[trigger] publish_spec(
                    old(self)@,
                    service@.snapshot(cpu_usage_bits, memory_used, uptime),
                    old(channel)@,
                ),
    {
        let snapshot = service.dynamic_data(cpu_usage_bits, memory_used);
        let step = self.publish(snapshot, channel);
        assert((self@, channel@, step) == publish_spec(
            old(self)@,
            service@.snapshot(cpu_usage_bits, memory_used, snapshot.uptime),
            old(channel)@,
        ));
        step
    }
}

impl Default for AcquisitionLoop {
    fn default() -> (acquisition: AcquisitionLoop)
        ensures
            acquisition@ == (LoopState { interval_ms: DEFAULT_INTERVAL_MS, running: true }),
    {
        AcquisitionLoop::new(DEFAULT_INTERVAL_MS)
    }
}

} // verus!
