//! Negotiation of the optional processing features with the host.
//!
//! Each requested feature is first asked for, and switched on only where the
//! host supports it. No answer of the host stops the negotiation: a feature
//! that is unsupported, or that the host refuses to switch on, is recorded as
//! degraded and the next one is taken up.

use vstd::prelude::*;
use crate::audiounit::{Feature, NO_ERR};

verus! {

/// A choice of features.
#[derive(Clone, Copy, Debug, PartialEq, Eq, Structural)]
pub struct FeatureSet {
    pub agc: bool,
    pub noise_suppression: bool,
    pub echo_cancellation: bool,
}

impl FeatureSet {
    pub open spec fn has(self, feature: Feature) -> bool {
        match feature {
            Feature::Agc => self.agc,
            Feature::NoiseSuppression => self.noise_suppression,
            Feature::EchoCancellation => self.echo_cancellation,
        }
    }

    pub open spec fn none() -> FeatureSet {
        FeatureSet { agc: false, noise_suppression: false, echo_cancellation: false }
    }

    /// Whether every feature of `self` is one of `other`.
    pub open spec fn within(self, other: FeatureSet) -> bool {
        &&& self.agc ==> other.agc
        &&& self.noise_suppression ==> other.noise_suppression
        &&& self.echo_cancellation ==> other.echo_cancellation
    }

    /// The first feature of the set, in negotiation order, whose position is
    /// `start` or later.
    pub open spec fn first_from(self, start: int) -> Option<Feature> {
        if start <= 0 && self.agc {
            Some(Feature::Agc)
        } else if start <= 1 && self.noise_suppression {
            Some(Feature::NoiseSuppression)
        } else if start <= 2 && self.echo_cancellation {
            Some(Feature::EchoCancellation)
        } else {
            None
        }
    }

    pub fn contains(&self, feature: Feature) -> (present: bool)
        ensures
            present == self.has(feature),
    {
        match feature {
            Feature::Agc => self.agc,
            Feature::NoiseSuppression => self.noise_suppression,
            Feature::EchoCancellation => self.echo_cancellation,
        }
    }
}

/// Why a requested feature is not in effect.
#[derive(Clone, Copy, Debug, PartialEq, Eq, Structural)]
pub enum FeatureError {
    /// The host does not support the feature.
    Unsupported,
    /// The host supports the feature but refused to switch it on, with this
    /// status.
    EnableFailed(i32),
}

/// What became of one feature.
#[derive(Clone, Copy, Debug, PartialEq, Eq, Structural)]
pub enum FeatureOutcome {
    NotRequested,
    /// Requested, and not yet settled with the host.
    Pending,
    Enabled,
    /// Requested but not in effect; capture goes on without it.
    Degraded(FeatureError),
}

/// What became of each feature.
#[derive(Clone, Copy, Debug, PartialEq, Eq, Structural)]
pub struct FeatureReport {
    pub agc: FeatureOutcome,
    pub noise_suppression: FeatureOutcome,
    pub echo_cancellation: FeatureOutcome,
}

impl FeatureReport {
    pub open spec fn of(self, feature: Feature) -> FeatureOutcome {
        match feature {
            Feature::Agc => self.agc,
            Feature::NoiseSuppression => self.noise_suppression,
            Feature::EchoCancellation => self.echo_cancellation,
        }
    }

    pub open spec fn with(self, feature: Feature, outcome: FeatureOutcome) -> FeatureReport {
        match feature {
            Feature::Agc => FeatureReport { agc: outcome, ..self },
            Feature::NoiseSuppression => FeatureReport { noise_suppression: outcome, ..self },
            Feature::EchoCancellation => FeatureReport { echo_cancellation: outcome, ..self },
        }
    }

    /// The report before anything is settled: every requested feature is
    /// pending.
    pub open spec fn initial(requested: FeatureSet) -> FeatureReport {
        FeatureReport {
            agc: if requested.agc {
                FeatureOutcome::Pending
            } else {
                FeatureOutcome::NotRequested
            },
            noise_suppression: if requested.noise_suppression {
                FeatureOutcome::Pending
            } else {
                FeatureOutcome::NotRequested
            },
            echo_cancellation: if requested.echo_cancellation {
                FeatureOutcome::Pending
            } else {
                FeatureOutcome::NotRequested
            },
        }
    }

    /// The features that are in effect.
    pub open spec fn enabled(self) -> FeatureSet {
        FeatureSet {
            agc: self.agc == FeatureOutcome::Enabled,
            noise_suppression: self.noise_suppression == FeatureOutcome::Enabled,
            echo_cancellation: self.echo_cancellation == FeatureOutcome::Enabled,
        }
    }

    pub fn outcome(&self, feature: Feature) -> (outcome: FeatureOutcome)
        ensures
            outcome == self.of(feature),
    {
        match feature {
            Feature::Agc => self.agc,
            Feature::NoiseSuppression => self.noise_suppression,
            Feature::EchoCancellation => self.echo_cancellation,
        }
    }

    fn record(&mut self, feature: Feature, outcome: FeatureOutcome)
        ensures
            *final(self) == old(self).with(feature, outcome),
    {
        match feature {
            Feature::Agc => {
                self.agc = outcome;
            },
            Feature::NoiseSuppression => {
                self.noise_suppression = outcome;
            },
            Feature::EchoCancellation => {
                self.echo_cancellation = outcome;
            },
        }
    }
}

/// What the negotiator wants of the host next.
#[derive(Clone, Copy, Debug, PartialEq, Eq, Structural)]
pub enum FeatureRequest {
    /// Ask whether the host supports the feature.
    Supports(Feature),
    /// Switch the feature on.
    Enable(Feature),
}

/// Where a negotiation stands.
#[derive(Clone, Copy, Debug, PartialEq, Eq, Structural)]
pub enum NegotiationStep {
    Query(Feature),
    Enable(Feature),
    Done,
}

/// The step that takes up the first requested feature at position `start`
/// or later.
pub open spec fn step_from(requested: FeatureSet, start: int) -> NegotiationStep {
    match requested.first_from(start) {
        Some(feature) => NegotiationStep::Query(feature),
        None => NegotiationStep::Done,
    }
}

/// Takes the requested features one by one through the host.
#[derive(Clone, Copy, Debug, PartialEq, Eq, Structural)]
pub struct FeatureNegotiator {
    pub requested: FeatureSet,
    pub step: NegotiationStep,
    pub report: FeatureReport,
}

impl FeatureNegotiator {
    pub open spec fn spec_new(requested: FeatureSet) -> FeatureNegotiator {
        FeatureNegotiator {
            requested,
            step: step_from(requested, 0),
            report: FeatureReport::initial(requested),
        }
    }

    pub open spec fn spec_pending(&self) -> Option<FeatureRequest> {
        match self.step {
            NegotiationStep::Query(feature) => Some(FeatureRequest::Supports(feature)),
            NegotiationStep::Enable(feature) => Some(FeatureRequest::Enable(feature)),
            NegotiationStep::Done => None,
        }
    }

    pub open spec fn spec_is_done(&self) -> bool {
        self.step == NegotiationStep::Done
    }

    /// The negotiator after the host answered the pending request with
    /// `status`.
    pub open spec fn advanced(self, status: i32) -> FeatureNegotiator {
        match self.step {
            NegotiationStep::Query(feature) => if status == NO_ERR {
                FeatureNegotiator { step: NegotiationStep::Enable(feature), ..self }
            } else {
                FeatureNegotiator {
                    step: step_from(self.requested, feature.spec_index() + 1),
                    report: self.report.with(
                        feature,
                        FeatureOutcome::Degraded(FeatureError::Unsupported),
                    ),
                    ..self
                }
            },
            NegotiationStep::Enable(feature) => FeatureNegotiator {
                step: step_from(self.requested, feature.spec_index() + 1),
                report: self.report.with(
                    feature,
                    if status == NO_ERR {
                        FeatureOutcome::Enabled
                    } else {
                        FeatureOutcome::Degraded(FeatureError::EnableFailed(status))
                    },
                ),
                ..self
            },
            NegotiationStep::Done => self,
        }
    }

    /// The number of host answers the negotiation can still take.
    pub open spec fn remaining(self) -> nat {
        match self.step {
            NegotiationStep::Query(feature) => (2 * (3 - feature.spec_index())) as nat,
            NegotiationStep::Enable(feature) => (2 * (3 - feature.spec_index()) - 1) as nat,
            NegotiationStep::Done => 0,
        }
    }

    /// A negotiation of the requested features, at its first step.
    pub fn new(requested: FeatureSet) -> (negotiator: FeatureNegotiator)
        ensures
            negotiator == Self::spec_new(requested),
    {
        FeatureNegotiator {
            requested,
            step: Self::next_step(&requested, 0),
            report: FeatureReport {
                agc: if requested.agc {
                    FeatureOutcome::Pending
                } else {
                    FeatureOutcome::NotRequested
                },
                noise_suppression: if requested.noise_suppression {
                    FeatureOutcome::Pending
                } else {
                    FeatureOutcome::NotRequested
                },
                echo_cancellation: if requested.echo_cancellation {
                    FeatureOutcome::Pending
                } else {
                    FeatureOutcome::NotRequested
                },
            },
        }
    }

    fn next_step(requested: &FeatureSet, start: u8) -> (step: NegotiationStep)
        ensures
            step == step_from(*requested, start as int),
    {
        if start == 0 && requested.agc {
            NegotiationStep::Query(Feature::Agc)
        } else if start <= 1 && requested.noise_suppression {
            NegotiationStep::Query(Feature::NoiseSuppression)
        } else if start <= 2 && requested.echo_cancellation {
            NegotiationStep::Query(Feature::EchoCancellation)
        } else {
            NegotiationStep::Done
        }
    }

    fn position_after(feature: Feature) -> (next: u8)
        ensures
            next as int == feature.spec_index() + 1,
    {
        match feature {
            Feature::Agc => 1,
            Feature::NoiseSuppression => 2,
            Feature::EchoCancellation => 3,
        }
    }

    /// What to ask of the host next, or `None` when the negotiation is over.
    #[verifier::when_used_as_spec(spec_pending)]
    pub fn pending(&self) -> (request: Option<FeatureRequest>)
        ensures
            request == self.spec_pending(),
    {
        match self.step {
            NegotiationStep::Query(feature) => Some(FeatureRequest::Supports(feature)),
            NegotiationStep::Enable(feature) => Some(FeatureRequest::Enable(feature)),
            NegotiationStep::Done => None,
        }
    }

    #[verifier::when_used_as_spec(spec_is_done)]
    pub fn is_done(&self) -> (done: bool)
        ensures
            done == self.spec_is_done(),
    {
        match self.step {
            NegotiationStep::Done => true,
            _ => false,
        }
    }

    /// Takes the host's answer to the pending request. An answer other than
    /// success to a support query skips the feature; to an enable request it
    /// leaves the feature off. Either way the negotiation moves on.
    pub fn advance(&mut self, status: i32)
        ensures
            *final(self) == old(self).advanced(status),
            !old(self).spec_is_done() ==> final(self).remaining() < old(self).remaining(),
    {
        match self.step {
            NegotiationStep::Query(feature) => {
                if status == NO_ERR {
                    self.step = NegotiationStep::Enable(feature);
                } else {
                    self.report.record(
                        feature,
                        FeatureOutcome::Degraded(FeatureError::Unsupported),
                    );
                    self.step = Self::next_step(&self.requested, Self::position_after(feature));
                }
            },
            NegotiationStep::Enable(feature) => {
                let outcome = if status == NO_ERR {
                    FeatureOutcome::Enabled
                } else {
                    FeatureOutcome::Degraded(FeatureError::EnableFailed(status))
                };
                self.report.record(feature, outcome);
                self.step = Self::next_step(&self.requested, Self::position_after(feature));
            },
            NegotiationStep::Done => {},
        }
    }

    /// The features that are in effect so far.
    pub fn enabled(&self) -> (set: FeatureSet)
        ensures
            set == self.report.enabled(),
    {
        FeatureSet {
            agc: matches!(self.report.agc, FeatureOutcome::Enabled),
            noise_suppression: matches!(self.report.noise_suppression, FeatureOutcome::Enabled),
            echo_cancellation: matches!(self.report.echo_cancellation, FeatureOutcome::Enabled),
        }
    }
}

} // verus!
