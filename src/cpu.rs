use vstd::prelude::*;

verus! {

/// Wait between two CPU samples that a usage figure needs: the counter gives a
/// rate only over an elapsed interval.
pub const SETTLING_DELAY_MS: u64 = 200;

/// What the caller does next to obtain a CPU usage reading.
#[derive(Clone, Copy, Debug, PartialEq, Eq, Structural)]
pub enum SamplerAction {
    /// Take a CPU sample.
    Refresh,
    /// Wait this many milliseconds without blocking.
    Wait(u64),
    /// Read the usage that the last sample gave.
    Report,
}

/// Progress of one CPU usage reading.
#[derive(Clone, Copy, Debug, PartialEq, Eq, Structural)]
pub struct CpuSampler {
    /// A sample has been taken.
    pub primed: bool,
    /// Milliseconds waited since the last sample.
    pub since_last_ms: u64,
    /// The last sample closed an interval of at least the settling delay.
    pub settled: bool,
}

impl CpuSampler {
    pub open spec fn action(self) -> SamplerAction {
        if !self.primed {
            SamplerAction::Refresh
        } else if self.settled {
            SamplerAction::Report
        } else if self.since_last_ms < SETTLING_DELAY_MS {
            SamplerAction::Wait((SETTLING_DELAY_MS - self.since_last_ms) as u64)
        } else {
            SamplerAction::Refresh
        }
    }

    /// The state after a sample is taken: it settles the reading exactly when an
    /// earlier sample precedes it by at least the settling delay.
    pub open spec fn after_refresh(self) -> CpuSampler {
        CpuSampler {
            primed: true,
            since_last_ms: 0,
            settled: self.primed && self.since_last_ms >= SETTLING_DELAY_MS,
        }
    }

    /// The state after waiting `ms` milliseconds.
    pub open spec fn after_wait(self, ms: u64) -> CpuSampler {
        CpuSampler {
            since_last_ms: if self.since_last_ms + ms > u64::MAX {
                u64::MAX
            } else {
                (self.since_last_ms + ms) as u64
            },
            ..self
        }
    }

    pub open spec fn fresh() -> CpuSampler {
        CpuSampler { primed: false, since_last_ms: 0, settled: false }
    }

    /// A reading that has taken no sample yet.
    pub fn new() -> (r: CpuSampler)
        ensures
            r == CpuSampler::fresh(),
    {
        CpuSampler { primed: false, since_last_ms: 0, settled: false }
    }

    /// What to do next.
    pub fn next_action(&self) -> (r: SamplerAction)
        ensures
            r == self.action(),
    {
        if !self.primed {
            SamplerAction::Refresh
        } else if self.settled {
            SamplerAction::Report
        } else if self.since_last_ms < SETTLING_DELAY_MS {
            SamplerAction::Wait(SETTLING_DELAY_MS - self.since_last_ms)
        } else {
            SamplerAction::Refresh
        }
    }

    /// Records that a sample was taken.
    pub fn refreshed(&mut self)
        ensures
            *final(self) == old(self).after_refresh(),
    {
        self.settled = self.primed && self.since_last_ms >= SETTLING_DELAY_MS;
        self.primed = true;
        self.since_last_ms = 0;
    }

    /// Records that `ms` milliseconds were waited.
    pub fn waited(&mut self, ms: u64)
        ensures
            *final(self) == old(self).after_wait(ms),
    {
        self.since_last_ms = self.since_last_ms.saturating_add(ms);
    }
}

/// The state of a reading that takes a sample, waits `wait_ms`, and takes a
/// second sample.
pub open spec fn after_two_samples(wait_ms: u64) -> CpuSampler {
    CpuSampler::fresh().after_refresh().after_wait(wait_ms).after_refresh()
}

/// A reading is reported after a second sample exactly when the wait between
/// the two samples was at least the settling delay; a second sample taken
/// sooner leads to a further wait instead.
pub proof fn report_needs_settled_interval(wait_ms: u64)
    ensures
        (after_two_samples(wait_ms).action() == SamplerAction::Report) == (wait_ms
            >= SETTLING_DELAY_MS),
        wait_ms < SETTLING_DELAY_MS ==> after_two_samples(wait_ms).action()
            == SamplerAction::Wait(SETTLING_DELAY_MS),
{
}

/// Following the actions from a fresh reading takes a sample, waits the
/// settling delay, takes a second sample, and then reports.
pub proof fn sampling_protocol_steps(s: CpuSampler)
    requires
        !s.primed,
    ensures
        s.action() == SamplerAction::Refresh,
        s.after_refresh().action() == SamplerAction::Wait(SETTLING_DELAY_MS),
        s.after_refresh().after_wait(SETTLING_DELAY_MS).action() == SamplerAction::Refresh,
        s.after_refresh().after_wait(SETTLING_DELAY_MS).after_refresh().action()
            == SamplerAction::Report,
{
}

} // verus!
