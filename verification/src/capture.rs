use vstd::prelude::*;

use crate::dht22::MAX_COUNT;
use crate::dht22::PulseTrain;
use crate::ReadingError;

verus! {

/// Where a capture stands in the sensor's transmission.
#[derive(Clone, Copy, Debug, PartialEq, Eq, Structural)]
pub enum CaptureStage {
    /// Waiting for the sensor's acknowledgment pulse to end: the line is
    /// read until it goes low.
    AwaitingAck,
    /// Timing the 82 phases, one entry per phase.
    Sampling,
    /// All 82 phases timed; the train can be taken.
    Complete,
    /// A phase outlasted the busy-wait ceiling; the attempt is abandoned.
    Failed,
}

/// Phases alternate: even indices time the line low, odd indices time it
/// high.
pub open spec fn phase_high(p: int) -> bool {
    p % 2 == 1
}

/// The decision half of a capture: it is fed one pin level per busy-wait
/// poll and accumulates the 82 phase durations, aborting the attempt the
/// moment any single phase outlasts the ceiling. The caller performs the
/// wake sequence and the polling; this type decides everything else.
pub struct Capture {
    /// Phase durations gathered so far, in polls.
    pub counts: Vec<usize>,
    /// Polls spent waiting for the acknowledgment pulse to end.
    pub ack: usize,
    /// Index of the phase being timed.
    pub phase: usize,
    /// Where the capture stands.
    pub stage: CaptureStage,
}

impl Capture {
    pub open spec fn wf(&self) -> bool {
        &&& self.counts@.len() == 82
        &&& forall|i: int| 0 <= i < 82 ==> #[trigger] self.counts@[i] <= MAX_COUNT
        &&& self.ack <= MAX_COUNT
        &&& self.phase <= 82
        &&& (self.stage is Sampling ==> self.phase < 82)
        &&& (self.stage is Complete ==> self.phase == 82)
    }

    /// A capture still accepts pin levels.
    pub open spec fn active(&self) -> bool {
        self.stage is AwaitingAck || self.stage is Sampling
    }

    /// A fresh capture: no polls counted yet, waiting for the
    /// acknowledgment pulse.
    pub fn new() -> (r: Capture)
        ensures
            r.wf(),
            r.stage is AwaitingAck,
            r.ack == 0,
            r.counts@.len() == 82,
            forall|i: int| 0 <= i < 82 ==> #[trigger] r.counts@[i] == 0,
    {
        let mut counts: Vec<usize> = Vec::new();
        let mut i: usize = 0;
        while i < 82
            invariant
                i <= 82,
                counts@.len() == i,
                forall|j: int| 0 <= j < i ==> #[trigger] counts@[j] == 0,
            decreases 82 - i,
        {
            counts.push(0);
            i += 1;
        }
        Capture { counts, ack: 0, phase: 0, stage: CaptureStage::AwaitingAck }
    }

    /// Feed one polled pin level.
    ///
    /// Returns `Ok(true)` when the train is complete, `Ok(false)` when
    /// another poll is wanted, and `Err(Timeout)` the moment the current
    /// phase would outlast the ceiling; after that the capture is failed and
    /// takes no further sample.
    pub fn step(&mut self, level_high: bool) -> (r: Result<bool, ReadingError>)
        requires
            old(self).wf(),
            old(self).active(),
        ensures
            final(self).wf(),
            (old(self).stage is AwaitingAck && level_high && old(self).ack < MAX_COUNT) ==> {
                &&& r == Ok::<bool, ReadingError>(false)
                &&& final(self).stage is AwaitingAck
                &&& final(self).ack == old(self).ack + 1
                &&& final(self).counts@ == old(self).counts@
            },
            (old(self).stage is AwaitingAck && level_high && old(self).ack == MAX_COUNT) ==> {
                &&& r == Err::<bool, ReadingError>(ReadingError::Timeout)
                &&& final(self).stage is Failed
                &&& final(self).counts@ == old(self).counts@
            },
            (old(self).stage is AwaitingAck && !level_high) ==> {
                &&& r == Ok::<bool, ReadingError>(false)
                &&& final(self).stage is Sampling
                &&& final(self).phase == 0
                &&& final(self).ack == old(self).ack
                &&& final(self).counts@ == old(self).counts@
            },
            (old(self).stage is Sampling && level_high == phase_high(old(self).phase as int)
                && old(self).counts@[old(self).phase as int] < MAX_COUNT) ==> {
                &&& r == Ok::<bool, ReadingError>(false)
                &&& final(self).stage is Sampling
                &&& final(self).phase == old(self).phase
                &&& final(self).counts@ == old(self).counts@.update(
                    old(self).phase as int,
                    (old(self).counts@[old(self).phase as int] + 1) as usize,
                )
            },
            (old(self).stage is Sampling && level_high == phase_high(old(self).phase as int)
                && old(self).counts@[old(self).phase as int] == MAX_COUNT) ==> {
                &&& r == Err::<bool, ReadingError>(ReadingError::Timeout)
                &&& final(self).stage is Failed
                &&& final(self).counts@ == old(self).counts@
            },
            (old(self).stage is Sampling && level_high != phase_high(old(self).phase as int)
                && old(self).phase + 1 < 82) ==> {
                &&& r == Ok::<bool, ReadingError>(false)
                &&& final(self).stage is Sampling
                &&& final(self).phase == old(self).phase + 1
                &&& final(self).counts@ == old(self).counts@
            },
            (old(self).stage is Sampling && level_high != phase_high(old(self).phase as int)
                && old(self).phase + 1 == 82) ==> {
                &&& r == Ok::<bool, ReadingError>(true)
                &&& final(self).stage is Complete
                &&& final(self).counts@ == old(self).counts@
            },
    {
        match self.stage {
            CaptureStage::AwaitingAck => {
                if level_high {
                    if self.ack == MAX_COUNT {
                        self.stage = CaptureStage::Failed;
                        Err(ReadingError::Timeout)
                    } else {
                        self.ack = self.ack + 1;
                        Ok(false)
                    }
                } else {
                    self.stage = CaptureStage::Sampling;
                    self.phase = 0;
                    Ok(false)
                }
            },
            CaptureStage::Sampling => {
                let expected_high = self.phase % 2 == 1;
                if level_high == expected_high {
                    let current = self.counts[self.phase];
                    if current == MAX_COUNT {
                        self.stage = CaptureStage::Failed;
                        Err(ReadingError::Timeout)
                    } else {
                        self.counts[self.phase] = current + 1;
                        Ok(false)
                    }
                } else {
                    self.phase = self.phase + 1;
                    if self.phase == 82 {
                        self.stage = CaptureStage::Complete;
                        Ok(true)
                    } else {
                        Ok(false)
                    }
                }
            },
            CaptureStage::Complete => unreached(),
            CaptureStage::Failed => unreached(),
        }
    }

    /// Take the completed train; it is well formed by construction.
    pub fn into_train(self) -> (t: PulseTrain)
        requires
            self.wf(),
            self.stage is Complete,
        ensures
            t.wf(),
            t@ == self.counts@,
    {
        PulseTrain { counts: self.counts }
    }
}

} // verus!
