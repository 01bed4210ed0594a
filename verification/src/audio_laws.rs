//! What the reports of capture and discovery show.

use vstd::prelude::*;

use crate::actor_model::{ActorView, ControllerEventView, EffectView, Moment};
use crate::capture::CaptureUpdateView;
use crate::discovery::UpdateView;
use crate::event::{ErrorScope, EventView, NoticeCode, Severity};
use crate::ids::ReceiverId;
use crate::model::{
    AudioFlow, AudioSourceState, AudioSourceView, DiscoveryPhase, EndpointView, SnapshotView,
};
use crate::requests::{asked, lemma_requested_push};
use crate::text::{in_publication_order, law_listing_sorts};
use crate::transport_laws::lemma_showing_asks_nothing;

verus! {

broadcast use lemma_requested_push;

/// Whether nothing but the audio source and the flow of the session changed
/// in what is shown, and nothing was asked for.
pub open spec fn only_audio_moved(a: ActorView, b: ActorView) -> bool {
    &&& asked(b) == asked(a)
    &&& b.machines == a.machines
    &&& b.inventory == a.inventory
    &&& b.active == a.active
    &&& b.session_generation == a.session_generation
    &&& b.persisted == a.persisted
    &&& b.snapshot.run_intent == a.snapshot.run_intent
    &&& b.snapshot.desired_members == a.snapshot.desired_members
    &&& b.snapshot.session.phase == a.snapshot.session.phase
    &&& b.snapshot.session.active == a.snapshot.session.active
    &&& b.snapshot.discovery == a.snapshot.discovery
    &&& b.snapshot.audio_source.preference == a.snapshot.audio_source.preference
}

proof fn lemma_audio_shown(a: ActorView, source: AudioSourceView, flow: AudioFlow)
    requires
        source.preference == a.snapshot.audio_source.preference,
    ensures
        ({
            let b = a.showing_audio(source, flow);
            &&& only_audio_moved(a, b)
            &&& b.snapshot.audio_source == source
            &&& b.snapshot.session.audio_flow == flow
            &&& b.capture_generation == a.capture_generation
        }),
{
    reveal(ActorView::showing_audio);
    let next = SnapshotView {
        audio_source: source,
        session: crate::model::SessionView { audio_flow: flow, ..a.snapshot.session },
        ..a.snapshot
    };
    lemma_showing_asks_nothing(a, next);
    reveal(ActorView::showing);
    reveal(ActorView::published);
}

/// The generation a capture update names, where it names one.
pub open spec fn named_generation(update: CaptureUpdateView) -> Option<u64> {
    match update {
        CaptureUpdateView::Started { capture_generation, .. } => Some(capture_generation),
        CaptureUpdateView::Ready { capture_generation, .. } => Some(capture_generation),
        CaptureUpdateView::FrameDrop { capture_generation, .. } => Some(capture_generation),
        CaptureUpdateView::Recovering { capture_generation, .. } => Some(capture_generation),
        CaptureUpdateView::Suspended { capture_generation, .. } => Some(capture_generation),
        CaptureUpdateView::Stopped { .. } => None,
    }
}

/// What is shown of the audio source follows capture. A ready worker is shown
/// capturing its endpoint, live exactly while somebody is active; a failed one
/// as recovering, a parked or stopped one as unavailable, both bridged with
/// silence and without an endpoint; a start only forgets the old peak; drops
/// only ever raise the lifetime total. The newest generation named wins, and a
/// stop ends it.
pub proof fn law_the_audio_source_follows_capture(a: ActorView, update: CaptureUpdateView)
    ensures
        ({
            let b = a.capture_updated(update);
            let before = a.snapshot.audio_source;
            let source = b.snapshot.audio_source;
            let flow = b.snapshot.session.audio_flow;
            &&& only_audio_moved(a, b)
            &&& source.active_endpoints == before.active_endpoints
            &&& source.refresh_failed == before.refresh_failed
            &&& named_generation(update) matches Some(named) ==> b.capture_generation
                == if a.capture_generation < named { named } else { a.capture_generation }
            &&& named_generation(update) is None ==> b.capture_generation == 0
            &&& !(update is FrameDrop) ==> source.windows_input_peak_permille is None
                && source.pcm_frames_dropped_total == before.pcm_frames_dropped_total
            &&& update matches CaptureUpdateView::Ready { endpoint, .. } ==> {
                &&& source.state == AudioSourceState::Capturing
                &&& source.captured_endpoint == Some(endpoint)
                &&& flow == if a.active == Set::<ReceiverId>::empty() {
                    AudioFlow::SilenceBridged
                } else {
                    AudioFlow::Live
                }
            }
            &&& update is Recovering ==> source.state == AudioSourceState::Recovering
                && source.captured_endpoint is None && flow == AudioFlow::SilenceBridged
            &&& update is Suspended || update is Stopped ==> source.state
                == AudioSourceState::Unavailable && source.captured_endpoint is None && flow
                == AudioFlow::SilenceBridged
            &&& update is Started ==> source.state == before.state && source.captured_endpoint
                == before.captured_endpoint && flow == a.snapshot.session.audio_flow
            &&& update matches CaptureUpdateView::FrameDrop { dropped, .. } ==> {
                &&& source.pcm_frames_dropped_total == if before.pcm_frames_dropped_total < dropped {
                    dropped
                } else {
                    before.pcm_frames_dropped_total
                }
                &&& source.state == before.state
                &&& source.captured_endpoint == before.captured_endpoint
                &&& source.windows_input_peak_permille == before.windows_input_peak_permille
                &&& flow == a.snapshot.session.audio_flow
            }
        }),
{
    reveal(ActorView::capture_updated);
    let counted = a.capture_counted(update);
    assert forall|source: AudioSourceView, flow: AudioFlow|
        source.preference == a.snapshot.audio_source.preference implies ({
        let b = #[trigger] counted.showing_audio(source, flow);
        &&& only_audio_moved(counted, b)
        &&& b.snapshot.audio_source == source
        &&& b.snapshot.session.audio_flow == flow
        &&& b.capture_generation == counted.capture_generation
    }) by {
        lemma_audio_shown(counted, source, flow);
    }
}

/// A telemetry sample shows its peak and never lowers the lifetime total.
pub proof fn law_telemetry_shows_the_peak(a: ActorView, peak: Option<u16>, dropped: u64)
    ensures
        ({
            let b = a.telemetry_applied(peak, dropped);
            let before = a.snapshot.audio_source;
            let source = b.snapshot.audio_source;
            &&& only_audio_moved(a, b)
            &&& source.windows_input_peak_permille == peak
            &&& source.pcm_frames_dropped_total == if before.pcm_frames_dropped_total < dropped {
                dropped
            } else {
                before.pcm_frames_dropped_total
            }
            &&& source.state == before.state
            &&& source.captured_endpoint == before.captured_endpoint
            &&& source.active_endpoints == before.active_endpoints
            &&& b.snapshot.session.audio_flow == a.snapshot.session.audio_flow
        }),
{
    reveal(ActorView::telemetry_applied);
    let before = a.snapshot.audio_source;
    lemma_audio_shown(
        a,
        AudioSourceView {
            windows_input_peak_permille: peak,
            pcm_frames_dropped_total: crate::actor_model::larger(
                before.pcm_frames_dropped_total,
                dropped,
            ),
            ..before
        },
        a.snapshot.session.audio_flow,
    );
}

/// A successful scan shows exactly the endpoints found, in order, and clears
/// the failure; a failed one only flags itself.
pub proof fn law_a_scan_shows_what_it_found(a: ActorView, found: Seq<EndpointView>)
    ensures
        ({
            let b = a.endpoints_applied(Some(found));
            &&& only_audio_moved(a, b)
            &&& !b.snapshot.audio_source.refresh_failed
            &&& b.snapshot.audio_source.active_endpoints matches Some(shown)
                && shown.to_multiset() == found.to_multiset() && in_publication_order(shown)
            &&& b.snapshot.audio_source.state == a.snapshot.audio_source.state
        }),
        ({
            let b = a.endpoints_applied(None);
            &&& only_audio_moved(a, b)
            &&& b.snapshot.audio_source == (AudioSourceView {
                refresh_failed: true,
                ..a.snapshot.audio_source
            })
        }),
{
    reveal(ActorView::endpoints_applied);
    law_listing_sorts(found);
    let before = a.snapshot.audio_source;
    lemma_audio_shown(
        a,
        AudioSourceView {
            active_endpoints: Some(crate::text::listed(found)),
            refresh_failed: false,
            ..before
        },
        a.snapshot.session.audio_flow,
    );
    lemma_audio_shown(
        a,
        AudioSourceView { refresh_failed: true, ..before },
        a.snapshot.session.audio_flow,
    );
}

/// A browse generation that started is shown running under its number; one
/// that failed is shown retrying with one more failure and the wall-clock end
/// of its backoff, and the user is told once. Older reports change nothing.
/// No receiver is touched either way.
pub proof fn law_discovery_is_shown_running_or_retrying(
    a: ActorView,
    generation: u64,
    error: Seq<char>,
    retry_at: crate::time::Instant,
    at: Moment,
)
    ensures
        ({
            let b = a.discovery_updated(UpdateView::Started { generation }, at);
            &&& generation < a.seen_discovery_generation ==> b == a
            &&& generation >= a.seen_discovery_generation ==> {
                &&& b.snapshot.discovery.generation == generation
                &&& b.snapshot.discovery.phase == DiscoveryPhase::Running
                &&& b.seen_discovery_generation == generation
                &&& b.inventory == a.inventory
                &&& b.machines == a.machines
                &&& asked(b) == asked(a)
            }
        }),
        ({
            let b = a.discovery_updated(UpdateView::Failed { generation, error, retry_at }, at);
            let wait = if at.now.nanos <= retry_at.nanos {
                retry_at.nanos - at.now.nanos
            } else {
                0
            };
            &&& generation < a.seen_discovery_generation ==> b == a
            &&& generation >= a.seen_discovery_generation ==> {
                &&& b.snapshot.discovery.generation == a.snapshot.discovery.generation
                &&& b.snapshot.discovery.phase matches DiscoveryPhase::Retrying {
                    attempt,
                    retry_at: shown,
                } && (a.discovery_failures < u32::MAX ==> attempt == a.discovery_failures + 1) && (
                at.wall.nanos + wait <= u64::MAX ==> shown.nanos == at.wall.nanos + wait)
                &&& a.discovery_failures < u32::MAX ==> b.discovery_failures
                    == a.discovery_failures + 1
                &&& b.inventory == a.inventory
                &&& b.machines == a.machines
                &&& asked(b) == asked(a)
                &&& a.snapshot.discovery.phase != b.snapshot.discovery.phase ==> (
                b.effects.last() matches EffectView::Event(
                    EventView::Notice { severity, code, scope, .. },
                ) && severity == Severity::Warning && code == NoticeCode::DiscoveryFailed && scope
                    == ErrorScope::Discovery)
            }
        }),
{
    reveal(ActorView::discovery_updated);
    reveal(ActorView::showing);
    reveal(ActorView::published);
}

/// Each event of the main loop reaches its own operation, and ends by handing
/// out the counters. Only a worker that became ready or started recovering,
/// and a settled resume, also scan the endpoints.
pub proof fn law_every_event_reaches_its_operation(
    a: ActorView,
    update: CaptureUpdateView,
    browse: UpdateView,
    session: crate::session::SessionUpdateView,
    found: Option<Seq<EndpointView>>,
    peak: Option<u16>,
    dropped: u64,
    at: Moment,
)
    ensures
        ({
            let scanned = if update is Ready || update is Recovering {
                a.doing(EffectView::ScanEndpoints)
            } else {
                a
            };
            a.event_handled(ControllerEventView::Capture(update), at) == scanned.capture_updated(
                update,
            ).sharing_generations()
        }),
        a.event_handled(ControllerEventView::Discovery(browse), at) == a.discovery_updated(
            browse,
            at,
        ).sharing_generations(),
        a.event_handled(ControllerEventView::Session(session), at) == a.session_updated(
            session,
            at,
        ).sharing_generations(),
        a.event_handled(ControllerEventView::Endpoints(found), at) == a.endpoints_applied(
            found,
        ).sharing_generations(),
        a.event_handled(ControllerEventView::Telemetry { peak, dropped }, at)
            == a.telemetry_applied(peak, dropped).sharing_generations(),
        a.event_handled(ControllerEventView::RetryDue, at) == a.retries_fired(
            at.now,
        ).sharing_generations(),
        a.event_handled(ControllerEventView::AutoConnectDue, at) == a.auto_connected(
            at.now,
        ).sharing_generations(),
        ({
            let told = a.sharing_generations();
            &&& told == (ActorView { effects: told.effects, ..a })
            &&& told.effects.len() == a.effects.len() + 1
            &&& told.effects.last() matches EffectView::PublishGenerations(counters) && {
                &&& counters.session == match a.live_session_generation {
                    Some(live) => live,
                    None => 0,
                }
                &&& counters.capture == a.capture_generation
                &&& counters.discovery >= a.browse_generation
                &&& counters.discovery >= a.seen_discovery_generation
                &&& counters.discovery == a.browse_generation || counters.discovery
                    == a.seen_discovery_generation
            }
        }),
{
}

/// Each session report reaches its own operation.
pub proof fn law_every_session_report_reaches_its_operation(
    a: ActorView,
    update: crate::session::SessionUpdateView,
    at: Moment,
)
    ensures
        ({
            let b = a.session_updated(update, at);
            &&& update matches crate::session::SessionUpdateView::Starting { generation } ==> b
                == a.session_starting(generation)
            &&& update matches crate::session::SessionUpdateView::Active {
                generation,
                primary,
                members,
                partial_failures,
            } ==> b == a.session_active(generation, primary, members, partial_failures, at)
            &&& update matches crate::session::SessionUpdateView::MemberFailed {
                generation,
                receiver,
                primary,
                error,
            } ==> b == a.member_lost(generation, receiver, primary, error, at)
            &&& update matches crate::session::SessionUpdateView::Recovering { generation, reason }
                ==> b == a.session_recovering(generation, reason)
            &&& update is Stopped ==> b == a.session_stopped()
        }),
{
}

} // verus!
