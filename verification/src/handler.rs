//! What the daemon does with a request.
//!
//! A request is answered from the orchestrator alone where that is possible;
//! else [`DaemonHandler::dispatch`] names the capability to call, and [`answer`]
//! turns what came of it into the reply.

use crate::error::Error;
use crate::health::{DiagnosticItem, HealthLevel};
use crate::ids::{ProfileId, SessionId};
use crate::orchestrator::{unknown_session, unknown_session_error, Orchestrator};
use crate::preflight::{CheckId, CheckOutcome, CheckReport, ConnectivityChecklist, ProtectionStatus};
use crate::profile::{Profile, ProfilePatch, ProfileSpec};
use crate::protocol::{Request, Response};
use crate::self_check;
use crate::session::SessionSummary;
use crate::sessions::summarizes;
use crate::update::{
    installed_version, ApplyOutcome, UpdateManifest, VerifiedArtifact, VersionInfo,
};
use crate::VERSION;
use vstd::prelude::*;

verus! {

/// What is to be done for a request.
#[derive(Debug)]
pub enum Route {
    /// Nothing: this is the reply.
    Reply(Response),
    /// List the profiles.
    ListProfiles,
    /// Create a profile.
    CreateProfile(ProfileSpec),
    /// Change a profile.
    UpdateProfile(ProfileId, ProfilePatch),
    /// Delete a profile.
    DeleteProfile(ProfileId),
    /// Run the flow that starts a session.
    Start(ProfileId),
    /// Run the flow that stops a session.
    Stop(SessionId),
    /// Look for an update.
    CheckUpdate(VersionInfo),
    /// Verify an update against a version, before it is applied.
    VerifyUpdate(UpdateManifest, VersionInfo),
}

/// What came of a route.
#[derive(Debug)]
pub enum Outcome {
    /// The profiles.
    Profiles(Result<Vec<Profile>, Error>),
    /// The profile that was created or changed.
    Profile(Result<Profile, Error>),
    /// The profile was deleted.
    Deleted(Result<(), Error>),
    /// The session that was started or stopped.
    Session(Result<SessionSummary, Error>),
    /// The update that is available.
    Update(Result<Option<UpdateManifest>, Error>),
    /// The update was verified.
    Verified(Result<VerifiedArtifact, Error>),
    /// The update was applied.
    Applied(Result<ApplyOutcome, Error>),
}

/// What follows an outcome.
#[derive(Debug)]
pub enum Next {
    /// This is the reply.
    Reply(Response),
    /// Apply the verified update.
    Apply(VerifiedArtifact),
}

/// Whether `c` reports all six checks, all alike.
pub open spec fn uniform(
    c: ConnectivityChecklist,
    passed: bool,
    yes: Seq<char>,
    no: Seq<char>,
) -> bool {
    &&& c.observed_ip is None
    &&& c.reports@.len() == 6
    &&& forall|i: int|
        0 <= i < 6 ==> {
            let r = #[trigger] c.reports@[i];
            &&& r.id == CheckId::every()[i]
            &&& if passed {
                r.outcome == CheckOutcome::Pass && r.detail@ == yes
            } else {
                r.outcome == CheckOutcome::Skipped && r.detail@ == no
            }
        }
}

/// A checklist that reports all six checks, all alike.
fn uniform_checklist(passed: bool, yes: &str, no: &str) -> (r: ConnectivityChecklist)
    ensures
        uniform(r, passed, yes@, no@),
{
    let ids = CheckId::all();
    let mut reports: Vec<CheckReport> = Vec::new();
    let mut i: usize = 0;
    while i < 6
        invariant
            i <= 6,
            ids@ == CheckId::every(),
            reports@.len() == i,
            forall|j: int|
                0 <= j < i ==> {
                    let r = #[trigger] reports@[j];
                    &&& r.id == CheckId::every()[j]
                    &&& if passed {
                        r.outcome == CheckOutcome::Pass && r.detail@ == yes@
                    } else {
                        r.outcome == CheckOutcome::Skipped && r.detail@ == no@
                    }
                },
        decreases 6 - i,
    {
        let id = ids[i];
        let report = if passed {
            CheckReport::pass(id, yes)
        } else {
            CheckReport::skipped(id, no)
        };
        reports.push(report);
        i += 1;
    }
    ConnectivityChecklist::new(reports)
}

/// A checklist that reports all six checks alike permits browsing exactly where
/// they passed.
pub proof fn law_uniform_checklist(
    c: ConnectivityChecklist,
    passed: bool,
    yes: Seq<char>,
    no: Seq<char>,
)
    requires
        uniform(c, passed, yes, no),
    ensures
        c.complete() == passed,
{
    let r = c.reports@;
    let all = CheckId::every();
    assert(r[0].id == all[0] && r[1].id == all[1] && r[2].id == all[2] && r[3].id == all[3]
        && r[4].id == all[4] && r[5].id == all[5]);
    reveal_with_fuel(crate::preflight::first_report, 7);
    assert(r.skip(1)[0] == r[1]);
    assert(r.skip(1).skip(1)[0] == r[2]);
    assert(r.skip(1).skip(1).skip(1)[0] == r[3]);
    assert(r.skip(1).skip(1).skip(1).skip(1)[0] == r[4]);
    assert(r.skip(1).skip(1).skip(1).skip(1).skip(1)[0] == r[5]);
    assert forall|id: CheckId| #[trigger] c.passed(id) == passed by {
        match id {
            CheckId::GatewayReady => {},
            CheckId::TunnelReady => {},
            CheckId::DnsRouteVerified => {},
            CheckId::PublicIpObserved => {},
            CheckId::WebrtcPolicyLoaded => {},
            CheckId::Ipv6PolicyVerified => {},
        }
    }
    if !passed {
        assert(!c.passed(CheckId::GatewayReady));
    }
}

/// Whether `r` shows the diagnostics of a session with the given protection.
pub open spec fn is_diagnostics(r: Response, protection: ProtectionStatus) -> bool {
    r matches Response::Diagnostics { checklist, items } && {
        let active = protection == ProtectionStatus::Active;
        &&& uniform(checklist, active, "verified"@, "session not in a browsing state"@)
        &&& items@.len() == 1
        &&& items@[0].key@ == "protection"@
        &&& items@[0].level == if active {
            HealthLevel::Healthy
        } else {
            HealthLevel::Down
        }
        &&& items@[0].detail@ == protection.name()
    }
}

/// The diagnostics of a session with the given protection.
pub fn diagnostics(protection: ProtectionStatus) -> (r: Response)
    ensures
        is_diagnostics(r, protection),
{
    let permits: bool = protection.permits_browsing();
    let checklist = uniform_checklist(permits, "verified", "session not in a browsing state");
    let level = if permits {
        HealthLevel::Healthy
    } else {
        HealthLevel::Down
    };
    let items = vec![DiagnosticItem::new("protection", level, protection.label())];
    Response::Diagnostics { checklist, items }
}

/// The checklist of the self-test: all checks pass where no invariant has
/// drifted, and none does otherwise.
pub fn doctor(problems: usize) -> (r: ConnectivityChecklist)
    ensures
        uniform(
            r,
            problems == 0,
            "self-check ok"@,
            "self-check found a drifted invariant"@,
        ),
{
    uniform_checklist(problems == 0, "self-check ok", "self-check found a drifted invariant")
}

/// The daemon's request handler.
pub struct DaemonHandler {
    /// The orchestrator.
    pub orchestrator: Orchestrator,
}

/// Whether `route` is what is done for a request, on the given platform.
pub open spec fn routed(pre: Orchestrator, post: Orchestrator, req: Request, platform: Seq<char>, route: Route) -> bool {
    &&& match req {
        Request::SetEnforcement(enforcement) => post == (Orchestrator { enforcement, ..pre }),
        _ => post == pre,
    }
    &&& match req {
        Request::ListProfiles => route is ListProfiles,
        Request::CreateProfile(spec) => route == Route::CreateProfile(spec),
        Request::UpdateProfile { id, patch } => route == Route::UpdateProfile(id, patch),
        Request::DeleteProfile(id) => route == Route::DeleteProfile(id),
        Request::StartSession(r) => route == Route::Start(r.profile),
        Request::StopSession(id) => route == Route::Stop(id),
        Request::CheckUpdate(info) => route == Route::CheckUpdate(info),
        Request::ApplyUpdate(manifest) => route matches Route::VerifyUpdate(m, info) && m
            == manifest && info.current == installed_version(),
        Request::ListSessions => route matches Route::Reply(Response::Sessions(list))
            && summarizes(list@, pre.sessions@),
        Request::GetDiagnostics(id) => route matches Route::Reply(r) && (if pre.sessions@.contains_key(
            id,
        ) {
            is_diagnostics(r, pre.sessions@[id].protection)
        } else {
            exists|e: Error| e@ == unknown_session(id) && #[trigger] r.reports(e)
        }),
        Request::Doctor => route matches Route::Reply(Response::Doctor(c)) && uniform(
            c,
            true,
            "self-check ok"@,
            "self-check found a drifted invariant"@,
        ),
        Request::GetStatus => route matches Route::Reply(Response::Status(s)) && {
            &&& s.version@ == VERSION@
            &&& s.platform@ == platform
            &&& s.isolation_level == pre.enforcement.yields()
            &&& s.enforcement == pre.enforcement
            &&& s.host_browser_available == pre.caps.host_browser
            &&& s.host_browser_path == pre.caps.host_browser_path
        },
        Request::GetEnforcement => route == Route::Reply(Response::Enforcement(pre.enforcement)),
        Request::SetEnforcement(enforcement) => route == Route::Reply(
            Response::Enforcement(enforcement),
        ),
    }
}

impl DaemonHandler {
    /// A handler for an orchestrator.
    #[must_use]
    pub fn new(orchestrator: Orchestrator) -> (r: DaemonHandler)
        ensures
            r.orchestrator == orchestrator,
    {
        DaemonHandler { orchestrator }
    }

    /// Decides what is done for a request.
    pub fn dispatch(&mut self, req: Request, platform: &str) -> (r: Route)
        ensures
            routed(old(self).orchestrator, final(self).orchestrator, req, platform@, r),
    {
        match req {
            Request::ListProfiles => Route::ListProfiles,
            Request::CreateProfile(spec) => Route::CreateProfile(spec),
            Request::UpdateProfile { id, patch } => Route::UpdateProfile(id, patch),
            Request::DeleteProfile(id) => Route::DeleteProfile(id),
            Request::StartSession(r) => Route::Start(r.profile),
            Request::StopSession(id) => Route::Stop(id),
            Request::ListSessions => Route::Reply(
                Response::Sessions(self.orchestrator.list_sessions()),
            ),
            Request::GetDiagnostics(id) => {
                let reply = match self.orchestrator.sessions.get(id) {
                    Some(e) => diagnostics(e.protection),
                    None => {
                        let e = unknown_session_error(id);
                        let r = Response::from_error(&e);
                        assert(r.reports(e));
                        r
                    },
                };
                Route::Reply(reply)
            },
            Request::Doctor => {
                let problems = self_check();
                Route::Reply(Response::Doctor(doctor(problems.len())))
            },
            Request::GetStatus => Route::Reply(Response::Status(self.orchestrator.status(platform))),
            Request::GetEnforcement => Route::Reply(
                Response::Enforcement(self.orchestrator.get_enforcement()),
            ),
            Request::SetEnforcement(enforcement) => Route::Reply(
                Response::Enforcement(self.orchestrator.set_enforcement(enforcement)),
            ),
            Request::CheckUpdate(info) => Route::CheckUpdate(info),
            Request::ApplyUpdate(manifest) => Route::VerifyUpdate(
                manifest,
                VersionInfo::installed(),
            ),
        }
    }
}

/// Turns what came of a route into the reply: the payload, or the report of the
/// error. A verified update is applied first.
pub fn answer(outcome: Outcome) -> (r: Next)
    ensures
        match outcome {
            Outcome::Profiles(Ok(v)) => r == Next::Reply(Response::Profiles(v)),
            Outcome::Profile(Ok(p)) => r == Next::Reply(Response::Profile(p)),
            Outcome::Deleted(Ok(_)) => r == Next::Reply(Response::Done),
            Outcome::Session(Ok(s)) => r == Next::Reply(Response::Session(s)),
            Outcome::Update(Ok(u)) => r == Next::Reply(Response::UpdateAvailable(u)),
            Outcome::Verified(Ok(a)) => r == Next::Apply(a),
            Outcome::Applied(Ok(o)) => r == Next::Reply(Response::UpdateApplied(o)),
            Outcome::Profiles(Err(e)) => r matches Next::Reply(x) && x.reports(e),
            Outcome::Profile(Err(e)) => r matches Next::Reply(x) && x.reports(e),
            Outcome::Deleted(Err(e)) => r matches Next::Reply(x) && x.reports(e),
            Outcome::Session(Err(e)) => r matches Next::Reply(x) && x.reports(e),
            Outcome::Update(Err(e)) => r matches Next::Reply(x) && x.reports(e),
            Outcome::Verified(Err(e)) => r matches Next::Reply(x) && x.reports(e),
            Outcome::Applied(Err(e)) => r matches Next::Reply(x) && x.reports(e),
        },
{
    let result = match outcome {
        Outcome::Verified(Ok(a)) => {
            return Next::Apply(a);
        },
        Outcome::Profiles(Ok(v)) => Ok(Response::Profiles(v)),
        Outcome::Profile(Ok(p)) => Ok(Response::Profile(p)),
        Outcome::Deleted(Ok(_)) => Ok(Response::Done),
        Outcome::Session(Ok(s)) => Ok(Response::Session(s)),
        Outcome::Update(Ok(u)) => Ok(Response::UpdateAvailable(u)),
        Outcome::Applied(Ok(o)) => Ok(Response::UpdateApplied(o)),
        Outcome::Profiles(Err(e)) => Err(e),
        Outcome::Profile(Err(e)) => Err(e),
        Outcome::Deleted(Err(e)) => Err(e),
        Outcome::Session(Err(e)) => Err(e),
        Outcome::Update(Err(e)) => Err(e),
        Outcome::Verified(Err(e)) => Err(e),
        Outcome::Applied(Err(e)) => Err(e),
    };
    Next::Reply(Response::from_result(result))
}

/// Every request reaches its own operation with its own arguments, and only the
/// one that sets the policy changes anything by itself.
pub proof fn law_requests_reach_their_operation(
    pre: Orchestrator,
    post: Orchestrator,
    req: Request,
    platform: Seq<char>,
    route: Route,
)
    requires
        routed(pre, post, req, platform, route),
    ensures
        req !is SetEnforcement ==> post == pre,
        req matches Request::SetEnforcement(e) ==> {
            &&& post.enforcement == e
            &&& post.sessions == pre.sessions
            &&& post.caps == pre.caps
            &&& post.settings == pre.settings
            &&& route == Route::Reply(Response::Enforcement(e))
        },
        req is ListProfiles <==> route is ListProfiles,
        req matches Request::CreateProfile(spec) ==> route == Route::CreateProfile(spec),
        req matches Request::UpdateProfile { id, patch } ==> route == Route::UpdateProfile(id, patch),
        req matches Request::DeleteProfile(id) ==> route == Route::DeleteProfile(id),
        req matches Request::StartSession(r) ==> route == Route::Start(r.profile),
        req matches Request::StopSession(id) ==> route == Route::Stop(id),
        req matches Request::CheckUpdate(info) ==> route == Route::CheckUpdate(info),
        req matches Request::ApplyUpdate(m) ==> (route matches Route::VerifyUpdate(n, info) && n == m
            && info.current.shown() == VERSION@),
        req is GetEnforcement ==> route == Route::Reply(Response::Enforcement(pre.enforcement)),
        req is GetStatus ==> (route matches Route::Reply(Response::Status(s)) && s.version@
            == VERSION@ && s.platform@ == platform && s.enforcement == pre.enforcement && (
        s.isolation_level is FullVm <==> pre.enforcement.require_vm_isolation
            && pre.enforcement.require_gateway)),
        req is Doctor ==> (route matches Route::Reply(Response::Doctor(c)) && c.complete()),
        req matches Request::GetDiagnostics(id) ==> (pre.sessions@.contains_key(id) ==> (
        route matches Route::Reply(Response::Diagnostics { checklist, items }) && (
        checklist.complete() <==> pre.sessions@[id].protection is Active))),
        req matches Request::GetDiagnostics(id) ==> (!pre.sessions@.contains_key(id) ==> (
        route matches Route::Reply(Response::Error { message, class }) && class is Precondition)),
{
    crate::update::law_counting_up_is_newer(crate::update::installed_version(), 0, 0, 0);
    if let Route::Reply(Response::Doctor(c)) = route {
        if req is Doctor {
            law_uniform_checklist(
                c,
                true,
                "self-check ok"@,
                "self-check found a drifted invariant"@,
            );
        }
    }
    if let Request::GetDiagnostics(id) = req {
        if pre.sessions@.contains_key(id) {
            let p = pre.sessions@[id].protection;
            if let Route::Reply(Response::Diagnostics { checklist, items }) = route {
                law_uniform_checklist(
                    checklist,
                    p is Active,
                    "verified"@,
                    "session not in a browsing state"@,
                );
            }
        }
    }
}

/// The diagnostics of a session say how it is protected: healthy exactly under full
/// protection, in the words of its status.
pub proof fn law_diagnostics_tell_the_protection(r: Response, protection: ProtectionStatus)
    requires
        is_diagnostics(r, protection),
    ensures
        r matches Response::Diagnostics { checklist, items } && {
            &&& items@.len() == 1
            &&& items@[0].level is Healthy <==> protection is Active
            &&& items@[0].level is Down <==> protection !is Active
            &&& protection is Active ==> items@[0].detail@ == "protection active"@
            &&& protection is Partial ==> items@[0].detail@ == "partial protection"@
            &&& protection is Unsafe ==> items@[0].detail@ == "unsafe configuration"@
            &&& protection is Unprotected ==> items@[0].detail@ == "no protection"@
        },
{
}

} // verus!
