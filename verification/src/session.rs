//! Session lifecycle: one gateway VM and one browser VM bound to a profile.
//!
//! The browser is never `Browsing` unless preflight passed; any failure leads to
//! [`SessionState::Failed`].

use crate::ids::{ProfileId, SessionId};
use crate::network::CredentialRef;
use crate::preflight::ProtectionStatus;
use crate::text;
use vstd::prelude::*;

verus! {

/// The lifecycle state of a session.
#[derive(Debug, Clone, Copy, PartialEq, Eq, Structural)]
pub enum SessionState {
    /// Requested but nothing provisioned yet.
    Requested,
    /// Provisioning VMs.
    Provisioning,
    /// Gateway VM starting; tunnel establishing.
    GatewayStarting,
    /// Running the preflight checklist.
    Preflight,
    /// Browser launched and internet permitted: containment was shown.
    Browsing,
    /// Tearing down: closing processes, wiping keys, destroying overlays.
    Closing,
    /// Fully destroyed; nothing left behind. Terminal.
    Destroyed,
    /// A failure occurred; connectivity has been cut. Terminal.
    Failed,
}

impl SessionState {
    /// The successors of the state, in canonical order.
    pub open spec fn successors(self) -> Seq<SessionState> {
        match self {
            SessionState::Requested => seq![
                SessionState::Provisioning,
                SessionState::Failed,
                SessionState::Closing,
            ],
            SessionState::Provisioning => seq![
                SessionState::GatewayStarting,
                SessionState::Failed,
                SessionState::Closing,
            ],
            SessionState::GatewayStarting => seq![
                SessionState::Preflight,
                SessionState::Failed,
                SessionState::Closing,
            ],
            SessionState::Preflight => seq![
                SessionState::Browsing,
                SessionState::Failed,
                SessionState::Closing,
            ],
            SessionState::Browsing => seq![SessionState::Closing, SessionState::Failed],
            SessionState::Closing => seq![SessionState::Destroyed, SessionState::Failed],
            SessionState::Destroyed => seq![],
            SessionState::Failed => seq![SessionState::Closing, SessionState::Destroyed],
        }
    }

    /// Whether the transition `self -> next` is permitted.
    pub open spec fn leads_to(self, next: SessionState) -> bool {
        self.successors().contains(next)
    }

    /// The name of the state in kebab case.
    pub open spec fn token(self) -> Seq<char> {
        match self {
            SessionState::Requested => "requested"@,
            SessionState::Provisioning => "provisioning"@,
            SessionState::GatewayStarting => "gateway-starting"@,
            SessionState::Preflight => "preflight"@,
            SessionState::Browsing => "browsing"@,
            SessionState::Closing => "closing"@,
            SessionState::Destroyed => "destroyed"@,
            SessionState::Failed => "failed"@,
        }
    }

    /// The identifier of the state.
    pub open spec fn identifier(self) -> Seq<char> {
        match self {
            SessionState::Requested => "Requested"@,
            SessionState::Provisioning => "Provisioning"@,
            SessionState::GatewayStarting => "GatewayStarting"@,
            SessionState::Preflight => "Preflight"@,
            SessionState::Browsing => "Browsing"@,
            SessionState::Closing => "Closing"@,
            SessionState::Destroyed => "Destroyed"@,
            SessionState::Failed => "Failed"@,
        }
    }

    /// The successors of the state, in canonical order.
    #[must_use]
    pub fn allowed_next(self) -> (r: Vec<SessionState>)
        ensures
            r@ == self.successors(),
    {
        match self {
            SessionState::Requested => vec![
                SessionState::Provisioning,
                SessionState::Failed,
                SessionState::Closing,
            ],
            SessionState::Provisioning => vec![
                SessionState::GatewayStarting,
                SessionState::Failed,
                SessionState::Closing,
            ],
            SessionState::GatewayStarting => vec![
                SessionState::Preflight,
                SessionState::Failed,
                SessionState::Closing,
            ],
            SessionState::Preflight => vec![
                SessionState::Browsing,
                SessionState::Failed,
                SessionState::Closing,
            ],
            SessionState::Browsing => vec![SessionState::Closing, SessionState::Failed],
            SessionState::Closing => vec![SessionState::Destroyed, SessionState::Failed],
            SessionState::Destroyed => Vec::new(),
            SessionState::Failed => vec![SessionState::Closing, SessionState::Destroyed],
        }
    }

    /// Whether the transition `self -> next` is permitted.
    #[must_use]
    pub fn can_transition_to(self, next: SessionState) -> (r: bool)
        ensures
            r == self.leads_to(next),
    {
        let allowed = self.allowed_next();
        let mut i: usize = 0;
        while i < allowed.len()
            invariant
                allowed@ == self.successors(),
                i <= allowed.len(),
                forall|j: int| 0 <= j < i ==> #[trigger] allowed@[j] != next,
            decreases allowed.len() - i,
        {
            if allowed[i] == next {
                assert(self.successors()[i as int] == next);
                return true;
            }
            i += 1;
        }
        false
    }

    /// Whether the session is in a terminal state: destroyed, or failed with
    /// connectivity cut.
    #[must_use]
    pub fn is_terminal(self) -> (r: bool)
        ensures
            r == (self == SessionState::Destroyed || self == SessionState::Failed),
    {
        matches!(self, SessionState::Destroyed | SessionState::Failed)
    }

    /// Whether the browser currently has live internet access.
    #[must_use]
    pub fn is_browsing(self) -> (r: bool)
        ensures
            r == (self == SessionState::Browsing),
    {
        matches!(self, SessionState::Browsing)
    }

    /// The name of the state in kebab case.
    #[must_use]
    pub fn as_str(self) -> (r: &'static str)
        ensures
            r@ == self.token(),
    {
        match self {
            SessionState::Requested => "requested",
            SessionState::Provisioning => "provisioning",
            SessionState::GatewayStarting => "gateway-starting",
            SessionState::Preflight => "preflight",
            SessionState::Browsing => "browsing",
            SessionState::Closing => "closing",
            SessionState::Destroyed => "destroyed",
            SessionState::Failed => "failed",
        }
    }

    /// The identifier of the state.
    #[must_use]
    pub fn debug_name(self) -> (r: &'static str)
        ensures
            r@ == self.identifier(),
    {
        match self {
            SessionState::Requested => "Requested",
            SessionState::Provisioning => "Provisioning",
            SessionState::GatewayStarting => "GatewayStarting",
            SessionState::Preflight => "Preflight",
            SessionState::Browsing => "Browsing",
            SessionState::Closing => "Closing",
            SessionState::Destroyed => "Destroyed",
            SessionState::Failed => "Failed",
        }
    }
}

/// A request to start a session for a profile.
#[derive(Debug, PartialEq, Eq)]
pub struct SessionRequest {
    /// The profile to launch.
    pub profile: ProfileId,
    /// For persistent profiles, the reference to the unlock secret.
    pub unlock_ref: Option<CredentialRef>,
}

/// A summary view of a session for the UI.
#[derive(Debug, PartialEq, Eq)]
pub struct SessionSummary {
    /// Session id.
    pub id: SessionId,
    /// The profile it belongs to.
    pub profile: ProfileId,
    /// Current lifecycle state.
    pub state: SessionState,
    /// The aggregate protection status.
    pub protection: ProtectionStatus,
    /// The observed public IP, if known.
    pub public_ip: Option<String>,
}

impl Clone for SessionSummary {
    fn clone(&self) -> (r: SessionSummary)
        ensures
            r == *self,
    {
        SessionSummary {
            id: self.id,
            profile: self.profile,
            state: self.state,
            protection: self.protection,
            public_ip: text::copy_opt(&self.public_ip),
        }
    }
}

impl SessionSummary {
    /// A session is safe to use only while browsing with active protection.
    pub open spec fn safe(self) -> bool {
        self.state == SessionState::Browsing && self.protection == ProtectionStatus::Active
    }

    /// A session is safe to use only while browsing with active protection.
    #[must_use]
    pub fn is_safe(&self) -> (r: bool)
        ensures
            r == self.safe(),
    {
        self.state.is_browsing() && self.protection.permits_browsing()
    }
}

/// Preflight cannot be skipped: `Browsing` is reached from `Preflight` alone.
pub proof fn law_browsing_only_after_preflight(from: SessionState)
    ensures
        from.leads_to(SessionState::Browsing) <==> from == SessionState::Preflight,
{
    let s = from.successors();
    if from == SessionState::Preflight {
        assert(s[0] == SessionState::Browsing);
    }
}

/// Every state but `Destroyed` and `Failed` itself can fail, and `Destroyed` is
/// the end.
pub proof fn law_any_live_state_can_fail(from: SessionState, next: SessionState)
    ensures
        from.leads_to(SessionState::Failed) <==> from != SessionState::Destroyed && from
            != SessionState::Failed,
        from == SessionState::Destroyed ==> !from.leads_to(next),
{
    let s = from.successors();
    if from != SessionState::Destroyed && from != SessionState::Failed {
        if from == SessionState::Browsing || from == SessionState::Closing {
            assert(s[1] == SessionState::Failed);
        } else {
            assert(s[1] == SessionState::Failed);
        }
    }
}

/// A session goes forward one state at a time, from the request to browsing, and
/// by no other way; closing is open to it from every state of its life, and it is
/// destroyed only where it was closing or had failed.
pub proof fn law_states_follow_in_order(a: SessionState, b: SessionState)
    ensures
        b is Requested ==> !a.leads_to(b),
        b is Provisioning ==> (a.leads_to(b) <==> a is Requested),
        b is GatewayStarting ==> (a.leads_to(b) <==> a is Provisioning),
        b is Preflight ==> (a.leads_to(b) <==> a is GatewayStarting),
        b is Browsing ==> (a.leads_to(b) <==> a is Preflight),
        b is Closing ==> (a.leads_to(b) <==> a !is Closing && a !is Destroyed),
        b is Destroyed ==> (a.leads_to(b) <==> a is Closing || a is Failed),
        b is Failed ==> (a.leads_to(b) <==> a !is Destroyed && a !is Failed),
{
    let s = a.successors();
    if s.len() > 0 {
        assert(s.contains(s[0]));
    }
    if s.len() > 1 {
        assert(s.contains(s[1]));
    }
    if s.len() > 2 {
        assert(s.contains(s[2]));
    }
}

/// A session is safe exactly where it is browsing under full protection.
pub proof fn law_safe_means_browsing_protected(s: SessionSummary)
    ensures
        s.safe() <==> s.state is Browsing && s.protection is Active,
{
}

/// The words under which states are recorded and shown.
pub proof fn law_states_have_their_words()
    ensures
        SessionState::Requested.token() == "requested"@,
        SessionState::Provisioning.token() == "provisioning"@,
        SessionState::GatewayStarting.token() == "gateway-starting"@,
        SessionState::Preflight.token() == "preflight"@,
        SessionState::Browsing.token() == "browsing"@,
        SessionState::Closing.token() == "closing"@,
        SessionState::Destroyed.token() == "destroyed"@,
        SessionState::Failed.token() == "failed"@,
{
}

} // verus!
