//! What the controller has asked of the parts around it.

use vstd::prelude::*;

use crate::actor_model::{ActorView, EffectView};
use crate::capture::CaptureControl;
use crate::discovery::DiscoveryControl;
use crate::ids::ReceiverId;
use crate::model::PreferenceView;
use crate::session::{Gain, SessionRequestView};

verus! {

/// Everything asked of the supervisors, in order, with nothing else.
#[verifier::ext_equal]
pub struct Requests {
    /// Asked of capture.
    pub capture: Seq<CaptureControl>,
    /// Preferences handed to capture.
    pub preferences: Seq<PreferenceView>,
    /// Asked of discovery.
    pub discovery: Seq<DiscoveryControl>,
    /// Asked of the session.
    pub session: Seq<SessionRequestView>,
    /// Setup volumes seeded.
    pub seeded: Seq<(ReceiverId, Gain)>,
    /// Endpoint scans.
    pub scans: nat,
    /// Click patterns injected.
    pub clicks: nat,
}

impl Requests {
    /// These requests and one more for the session.
    pub open spec fn with_session(self, request: SessionRequestView) -> Requests {
        Requests { session: self.session.push(request), ..self }
    }

    /// These requests and one more for capture.
    pub open spec fn with_capture(self, control: CaptureControl) -> Requests {
        Requests { capture: self.capture.push(control), ..self }
    }

    /// These requests and one more for discovery.
    pub open spec fn with_discovery(self, control: DiscoveryControl) -> Requests {
        Requests { discovery: self.discovery.push(control), ..self }
    }

    /// These requests and one more endpoint scan.
    pub open spec fn with_scan(self) -> Requests {
        Requests { scans: self.scans + 1, ..self }
    }
}

/// The requests among a list of effects.
pub open spec fn requested(effects: Seq<EffectView>) -> Requests
    decreases effects.len(),
{
    if effects.len() == 0 {
        Requests {
            capture: Seq::empty(),
            preferences: Seq::empty(),
            discovery: Seq::empty(),
            session: Seq::empty(),
            seeded: Seq::empty(),
            scans: 0,
            clicks: 0,
        }
    } else {
        requested(effects.drop_last()).and(effects.last())
    }
}

impl Requests {
    /// These requests and what one more effect asks for.
    pub open spec fn and(self, effect: EffectView) -> Requests {
        match effect {
            EffectView::Capture(control) => self.with_capture(control),
            EffectView::CapturePreference(preference) =>
                Requests { preferences: self.preferences.push(preference), ..self },
            EffectView::Discovery(control) => self.with_discovery(control),
            EffectView::Session(request) => self.with_session(request),
            EffectView::RememberVolume(id, gain) =>
                Requests { seeded: self.seeded.push((id, gain)), ..self },
            EffectView::ScanEndpoints => self.with_scan(),
            EffectView::InjectClicks => Requests { clicks: self.clicks + 1, ..self },
            _ => self,
        }
    }
}

/// One more effect asks for that effect's request and nothing else.
pub broadcast proof fn lemma_requested_push(effects: Seq<EffectView>, effect: EffectView)
    ensures
        #[trigger] requested(effects.push(effect)) == requested(effects).and(effect),
{
    assert(effects.push(effect).drop_last() =~= effects);
}

/// What a controller has asked for so far.
pub open spec fn asked(a: ActorView) -> Requests {
    requested(a.effects)
}

} // verus!
