//! A harness that collects audio from a stream for a while and says whether
//! anything but silence arrived.

use vstd::prelude::*;
use crate::sample::{audible_count, count_audible, lemma_audible_count_bounded};

verus! {

/// For how many seconds beyond the planned duration a collection may go on.
pub const COLLECTION_GRACE_SECS: u64 = 2;

/// How long to collect, and at which sample rate.
#[derive(Clone, Copy, Debug, PartialEq, Eq, Structural)]
pub struct VoiceProcessingTester {
    pub test_duration_secs: u64,
    pub expected_sample_rate: u32,
}

/// The low 32 bits of a duration in seconds.
pub open spec fn low_seconds(secs: u64) -> nat {
    (secs % 0x1_0000_0000) as nat
}

/// What a collection found.
#[derive(Clone, Copy, Debug, PartialEq, Eq, Structural)]
pub struct TestResults {
    pub total_samples: usize,
    pub non_zero_samples: usize,
}

/// The findings of every kind of collection, side by side.
#[derive(Clone, Copy, Debug, PartialEq, Eq, Structural)]
pub struct ComparisonResults {
    pub basic_voice_processing: TestResults,
    pub apple_voice_processing: TestResults,
    pub integrated_voice_processing: TestResults,
    pub concurrent_mic: TestResults,
    pub concurrent_speaker: TestResults,
}

impl VoiceProcessingTester {
    pub fn new(test_duration_secs: u64, expected_sample_rate: u32) -> (tester: Self)
        ensures
            tester == (VoiceProcessingTester { test_duration_secs, expected_sample_rate }),
    {
        VoiceProcessingTester { test_duration_secs, expected_sample_rate }
    }

    /// The number of samples a collection aims for: the sample rate times
    /// the low 32 bits of the duration.
    pub open spec fn spec_target_samples(&self) -> nat {
        self.expected_sample_rate as nat * low_seconds(self.test_duration_secs)
    }

    pub fn target_samples(&self) -> (target: u64)
        ensures
            target as nat == self.spec_target_samples(),
    {
        let secs: u64 = self.test_duration_secs % 0x1_0000_0000;
        let rate: u64 = self.expected_sample_rate as u64;
        assert(rate * secs <= 0xFFFF_FFFF * 0xFFFF_FFFF) by (nonlinear_arith)
            requires
                rate <= 0xFFFF_FFFF,
                secs <= 0xFFFF_FFFF,
        ;
        rate * secs
    }

    /// The number of seconds after which a collection gives up: the planned
    /// duration and a grace period, as far as the number can be held.
    pub open spec fn spec_deadline_secs(&self) -> nat {
        if self.test_duration_secs + COLLECTION_GRACE_SECS > u64::MAX {
            u64::MAX as nat
        } else {
            (self.test_duration_secs + COLLECTION_GRACE_SECS) as nat
        }
    }

    pub fn deadline_secs(&self) -> (deadline: u64)
        ensures
            deadline as nat == self.spec_deadline_secs(),
    {
        self.test_duration_secs.saturating_add(COLLECTION_GRACE_SECS)
    }

    /// Whether a collection that holds `collected` samples after
    /// `elapsed_secs` whole seconds goes on: it does until it has reached
    /// its target or its deadline.
    pub fn keeps_collecting(&self, collected: usize, elapsed_secs: u64) -> (goes_on: bool)
        ensures
            goes_on == (collected < self.spec_target_samples() && elapsed_secs
                < self.spec_deadline_secs()),
    {
        (collected as u64) < self.target_samples() && elapsed_secs < self.deadline_secs()
    }

    /// Sums up what was collected.
    pub fn summarize(&self, samples: &[u32]) -> (results: TestResults)
        ensures
            results.total_samples == samples@.len(),
            results.non_zero_samples as nat == audible_count(samples@),
            results.non_zero_samples <= results.total_samples,
    {
        proof {
            lemma_audible_count_bounded(samples@);
        }
        TestResults { total_samples: samples.len(), non_zero_samples: count_audible(samples) }
    }
}

impl TestResults {
    /// Whether anything but silence was collected.
    pub open spec fn spec_is_working(&self) -> bool {
        self.non_zero_samples > 0
    }

    #[verifier::when_used_as_spec(spec_is_working)]
    pub fn is_working(&self) -> (working: bool)
        ensures
            working == self.spec_is_working(),
    {
        self.non_zero_samples > 0
    }
}

impl ComparisonResults {
    /// Whether microphone and speaker both delivered sound while they ran
    /// side by side.
    pub fn format_mismatch_resolved(&self) -> (resolved: bool)
        ensures
            resolved == (self.concurrent_mic.non_zero_samples > 0
                && self.concurrent_speaker.non_zero_samples > 0),
    {
        self.concurrent_mic.non_zero_samples > 0 && self.concurrent_speaker.non_zero_samples > 0
    }

    /// Whether at least one of the three inputs delivered sound.
    pub fn any_implementation_works(&self) -> (works: bool)
        ensures
            works == (self.basic_voice_processing.non_zero_samples > 0
                || self.apple_voice_processing.non_zero_samples > 0
                || self.integrated_voice_processing.non_zero_samples > 0),
    {
        self.basic_voice_processing.non_zero_samples > 0
            || self.apple_voice_processing.non_zero_samples > 0
            || self.integrated_voice_processing.non_zero_samples > 0
    }
}

} // verus!
