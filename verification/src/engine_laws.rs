//! What holds of every capture engine, whatever the host answers.

use vstd::prelude::*;
use crate::audiounit::NO_ERR;
use crate::engine::{
    CaptureConfig,
    CaptureEngine,
    EngineError,
    EnginePhase,
    EngineState,
    HostRequest,
};
use crate::negotiator::FeatureSet;

verus! {

/// Something that happens to an engine.
pub enum EngineEvent {
    /// The host answered the pending request with this status.
    Answer(i32),
    /// The owner asked the engine to stop.
    Stop,
    /// The owner asked for the engine to be disposed of.
    Dispose,
}

/// The engine after one event.
pub open spec fn after_event(engine: CaptureEngine, event: EngineEvent) -> CaptureEngine {
    match event {
        EngineEvent::Answer(status) => engine.advanced(status),
        EngineEvent::Stop => engine.stop_requested(),
        EngineEvent::Dispose => engine.dispose_requested(),
    }
}

/// The engine after a sequence of events, first to last.
pub open spec fn after_events(engine: CaptureEngine, events: Seq<EngineEvent>) -> CaptureEngine
    decreases events.len(),
{
    if events.len() == 0 {
        engine
    } else {
        after_event(after_events(engine, events.drop_last()), events.last())
    }
}

/// A host, as far as an engine can tell: the status it answers each request
/// with.
pub type HostBehaviour = spec_fn(HostRequest) -> i32;

/// The engine after its owner took it through the host for at most `steps`
/// answers, stopping where nothing is pending.
pub open spec fn driven(engine: CaptureEngine, host: HostBehaviour, steps: nat) -> CaptureEngine
    decreases steps,
{
    if steps == 0 || engine.spec_pending() == HostRequest::Idle {
        engine
    } else {
        driven(engine.advanced(host(engine.spec_pending())), host, (steps - 1) as nat)
    }
}

/// A host on which the creation of the instance, the configuration of the
/// directions, the initialization and the start succeed. Nothing is said of
/// its answers on features or on the render callback.
pub open spec fn lifecycle_succeeds(host: HostBehaviour) -> bool {
    forall|request: HostRequest|
        !request.is_feature_request() && request != HostRequest::BindRenderCallback ==> #[trigger] host(
            request,
        ) == NO_ERR
}

/// A host that supports none of the optional features.
pub open spec fn supports_nothing(host: HostBehaviour) -> bool {
    forall|request: HostRequest|
        request is QueryFeatureSupport ==> #[trigger] host(request) != NO_ERR
}

/// Whether the opening of a session is under way and nothing has failed.
pub open spec fn opening(engine: CaptureEngine) -> bool {
    &&& engine.error is None
    &&& engine.spec_state().rank() <= EngineState::Running.rank()
    &&& engine.phase == EnginePhase::Negotiate ==> !engine.negotiator.spec_is_done()
    &&& engine.started == (engine.phase == EnginePhase::Running)
}

/// A feature is requested of the host only while the engine is in the state
/// in which its directions are configured and it is not yet initialized.
pub proof fn law_features_are_requested_before_initialization(engine: CaptureEngine)
    ensures
        engine.spec_pending().is_feature_request() ==> engine.spec_state()
            == EngineState::IOConfigured,
        engine.spec_pending().is_feature_request() ==> engine.spec_state().rank()
            < EngineState::Initialized.rank(),
{
}

/// No event takes an engine back to an earlier state of its life.
pub proof fn law_lifecycle_never_goes_back(engine: CaptureEngine, event: EngineEvent)
    ensures
        after_event(engine, event).spec_state().rank() >= engine.spec_state().rank(),
{
}

/// Once an engine is initialized, no sequence of events makes it request a
/// feature again, and none changes what became of the features: a feature
/// that was not in effect before initialization never comes into effect.
pub proof fn law_no_feature_takes_effect_after_initialization(
    engine: CaptureEngine,
    events: Seq<EngineEvent>,
)
    requires
        engine.spec_state().rank() >= EngineState::Initialized.rank(),
    ensures
        after_events(engine, events).spec_state().rank() >= engine.spec_state().rank(),
        !after_events(engine, events).spec_pending().is_feature_request(),
        after_events(engine, events).negotiator == engine.negotiator,
    decreases events.len(),
{
    if events.len() > 0 {
        law_no_feature_takes_effect_after_initialization(engine, events.drop_last());
        law_lifecycle_never_goes_back(after_events(engine, events.drop_last()), events.last());
    }
}

/// Taking an engine through a sequence of events is the same as taking it
/// through the first events and then through the others.
pub proof fn lemma_events_compose(engine: CaptureEngine, events: Seq<EngineEvent>, at: int)
    requires
        0 <= at <= events.len(),
    ensures
        after_events(engine, events) == after_events(
            after_events(engine, events.take(at)),
            events.skip(at),
        ),
    decreases events.len(),
{
    if at == events.len() {
        assert(events.take(at) =~= events);
    } else {
        lemma_events_compose(engine, events.drop_last(), at);
        assert(events.drop_last().take(at) =~= events.take(at));
        assert(events.drop_last().skip(at) =~= events.skip(at).drop_last());
    }
}

/// The ordering of the lifecycle, for every configuration: in the life of
/// an engine, whatever the host answers and whatever its owner asks, no
/// feature is requested at or after the point of initialization, and what
/// became of the features at that point is what stays.
pub proof fn law_features_are_settled_by_initialization(
    config: CaptureConfig,
    has_reference: bool,
    events: Seq<EngineEvent>,
    initialized_at: int,
)
    requires
        0 <= initialized_at <= events.len(),
        after_events(
            CaptureEngine::spec_new(config, has_reference),
            events.take(initialized_at),
        ).spec_state().rank() >= EngineState::Initialized.rank(),
    ensures
        !after_events(
            CaptureEngine::spec_new(config, has_reference),
            events,
        ).spec_pending().is_feature_request(),
        after_events(CaptureEngine::spec_new(config, has_reference), events).negotiator
            == after_events(
            CaptureEngine::spec_new(config, has_reference),
            events.take(initialized_at),
        ).negotiator,
{
    let start = CaptureEngine::spec_new(config, has_reference);
    lemma_events_compose(start, events, initialized_at);
    law_no_feature_takes_effect_after_initialization(
        after_events(start, events.take(initialized_at)),
        events.skip(initialized_at),
    );
}

/// Every answer of the host brings an engine with a pending request closer
/// to rest, so that taking an engine through the host always ends.
pub proof fn law_pending_work_shrinks(engine: CaptureEngine, status: i32)
    requires
        engine.spec_pending() != HostRequest::Idle,
    ensures
        engine.advanced(status).remaining() < engine.remaining(),
{
}

/// One answer of a host on which the lifecycle succeeds keeps an opening
/// under way, whatever the host says of features and of the callback.
proof fn lemma_opening_goes_on(engine: CaptureEngine, host: HostBehaviour)
    requires
        opening(engine),
        lifecycle_succeeds(host),
        engine.phase != EnginePhase::Running,
    ensures
        opening(engine.advanced(host(engine.spec_pending()))),
        engine.spec_pending() != HostRequest::Idle,
        engine.advanced(host(engine.spec_pending())).remaining() < engine.remaining(),
        engine.advanced(host(engine.spec_pending())).config == engine.config,
        engine.advanced(host(engine.spec_pending())).has_reference == engine.has_reference,
{
}

proof fn lemma_driven_opening_runs(engine: CaptureEngine, host: HostBehaviour, steps: nat)
    requires
        opening(engine),
        lifecycle_succeeds(host),
        steps >= engine.remaining(),
    ensures
        driven(engine, host, steps).phase == EnginePhase::Running,
        driven(engine, host, steps).error is None,
        driven(engine, host, steps).started,
        driven(engine, host, steps).config == engine.config,
    decreases steps,
{
    if engine.phase != EnginePhase::Running {
        lemma_opening_goes_on(engine, host);
        lemma_driven_opening_runs(
            engine.advanced(host(engine.spec_pending())),
            host,
            (steps - 1) as nat,
        );
    }
}

/// Graceful degradation: on a host on which the lifecycle succeeds, every
/// session is opened and runs, with or without a reference, whatever the
/// host answers on the optional features and on the render callback.
pub proof fn law_opening_survives_feature_failures(
    config: CaptureConfig,
    has_reference: bool,
    host: HostBehaviour,
    steps: nat,
)
    requires
        lifecycle_succeeds(host),
        steps >= 15,
    ensures
        driven(CaptureEngine::spec_new(config, has_reference), host, steps).spec_state()
            == EngineState::Running,
        driven(CaptureEngine::spec_new(config, has_reference), host, steps).spec_outcome() == Some(
            Ok::<(), EngineError>(()),
        ),
        driven(CaptureEngine::spec_new(config, has_reference), host, steps).spec_pending()
            == HostRequest::Idle,
        driven(CaptureEngine::spec_new(config, has_reference), host, steps).config == config,
{
    lemma_driven_opening_runs(CaptureEngine::spec_new(config, has_reference), host, steps);
}

/// On a host that supports no feature, nothing is ever switched on.
proof fn lemma_nothing_enabled(engine: CaptureEngine, host: HostBehaviour, steps: nat)
    requires
        supports_nothing(host),
        engine.negotiator.report.enabled() == FeatureSet::none(),
        !(engine.negotiator.step is Enable),
    ensures
        driven(engine, host, steps).negotiator.report.enabled() == FeatureSet::none(),
    decreases steps,
{
    if !(steps == 0 || engine.spec_pending() == HostRequest::Idle) {
        lemma_nothing_enabled(
            engine.advanced(host(engine.spec_pending())),
            host,
            (steps - 1) as nat,
        );
    }
}

/// On a host that supports none of the optional features, and on which the
/// lifecycle succeeds, a session is still opened and runs, with no feature
/// in effect.
pub proof fn law_unsupported_features_do_not_stop_capture(
    config: CaptureConfig,
    has_reference: bool,
    host: HostBehaviour,
    steps: nat,
)
    requires
        lifecycle_succeeds(host),
        supports_nothing(host),
        steps >= 15,
    ensures
        driven(CaptureEngine::spec_new(config, has_reference), host, steps).spec_state()
            == EngineState::Running,
        driven(CaptureEngine::spec_new(config, has_reference), host, steps).error is None,
        driven(
            CaptureEngine::spec_new(config, has_reference),
            host,
            steps,
        ).negotiator.report.enabled() == FeatureSet::none(),
{
    lemma_driven_opening_runs(CaptureEngine::spec_new(config, has_reference), host, steps);
    lemma_nothing_enabled(CaptureEngine::spec_new(config, has_reference), host, steps);
}

/// A session whose component the host does not find fails at once, with
/// nothing left to release.
pub proof fn law_missing_component_leaves_nothing_behind(
    config: CaptureConfig,
    has_reference: bool,
    status: i32,
)
    requires
        status != NO_ERR,
    ensures
        CaptureEngine::spec_new(config, has_reference).advanced(status).spec_outcome() == Some(
            Err::<(), EngineError>(EngineError::ComponentNotFound),
        ),
        CaptureEngine::spec_new(config, has_reference).advanced(status).spec_state()
            == EngineState::Disposed,
        CaptureEngine::spec_new(config, has_reference).advanced(status).spec_pending()
            == HostRequest::Idle,
{
}

/// Disposing of an engine twice is the same as disposing of it once.
pub proof fn law_dispose_is_idempotent(engine: CaptureEngine)
    ensures
        engine.dispose_requested().dispose_requested() == engine.dispose_requested(),
{
}

/// An engine that has an instance and is asked to be disposed of stops the
/// instance before it releases it, and ends disposed.
pub proof fn law_dispose_stops_before_it_releases(engine: CaptureEngine, stop: i32, release: i32)
    requires
        engine.phase.has_instance(),
        engine.spec_state().rank() < EngineState::Stopped.rank(),
    ensures
        engine.dispose_requested().spec_pending() == HostRequest::Stop,
        engine.dispose_requested().advanced(stop).spec_pending() == HostRequest::Dispose,
        engine.dispose_requested().advanced(stop).advanced(release).spec_state()
            == EngineState::Disposed,
{
}

} // verus!
