//! Preflight connectivity checks and the resulting protection status.
//!
//! Before the first tab may load, a fixed checklist runs. If any check fails the
//! browser gets no internet access: there is no partial pass.

use crate::ids::SessionId;
use crate::network::{DnsPolicy, Ipv6Policy};
use vstd::prelude::*;

verus! {

/// The six mandatory preflight checks.
#[derive(Debug, Clone, Copy, PartialEq, Eq, Hash, PartialOrd, Ord, Structural)]
pub enum CheckId {
    /// The gateway VM is up and reachable.
    GatewayReady,
    /// The tunnel is established.
    TunnelReady,
    /// DNS leaves only through the intended route.
    DnsRouteVerified,
    /// A public IP other than the host's was observed.
    PublicIpObserved,
    /// The WebRTC policy that blocks non-proxied UDP is loaded.
    WebrtcPolicyLoaded,
    /// The IPv6 policy is in effect.
    Ipv6PolicyVerified,
}

impl CheckId {
    /// All checks, in execution order.
    pub open spec fn every() -> Seq<CheckId> {
        seq![
            CheckId::GatewayReady,
            CheckId::TunnelReady,
            CheckId::DnsRouteVerified,
            CheckId::PublicIpObserved,
            CheckId::WebrtcPolicyLoaded,
            CheckId::Ipv6PolicyVerified,
        ]
    }

    /// The stable machine-readable name.
    pub open spec fn name(self) -> Seq<char> {
        match self {
            CheckId::GatewayReady => "gateway_ready"@,
            CheckId::TunnelReady => "tunnel_ready"@,
            CheckId::DnsRouteVerified => "dns_route_verified"@,
            CheckId::PublicIpObserved => "public_ip_observed"@,
            CheckId::WebrtcPolicyLoaded => "webrtc_policy_loaded"@,
            CheckId::Ipv6PolicyVerified => "ipv6_policy_verified"@,
        }
    }

    /// All checks, in execution order.
    #[must_use]
    pub fn all() -> (r: [CheckId; 6])
        ensures
            r@ == CheckId::every(),
    {
        [
            CheckId::GatewayReady,
            CheckId::TunnelReady,
            CheckId::DnsRouteVerified,
            CheckId::PublicIpObserved,
            CheckId::WebrtcPolicyLoaded,
            CheckId::Ipv6PolicyVerified,
        ]
    }

    /// Whether a failure of this check must engage the kill switch: every check
    /// protects containment, none may be bypassed.
    #[must_use]
    pub fn is_containment_critical(self) -> (r: bool)
        ensures
            r,
    {
        true
    }

    /// The stable machine-readable name.
    #[must_use]
    pub fn as_str(self) -> (r: &'static str)
        ensures
            r@ == self.name(),
    {
        match self {
            CheckId::GatewayReady => "gateway_ready",
            CheckId::TunnelReady => "tunnel_ready",
            CheckId::DnsRouteVerified => "dns_route_verified",
            CheckId::PublicIpObserved => "public_ip_observed",
            CheckId::WebrtcPolicyLoaded => "webrtc_policy_loaded",
            CheckId::Ipv6PolicyVerified => "ipv6_policy_verified",
        }
    }
}

/// The outcome of a single check.
#[derive(Debug, Clone, Copy, PartialEq, Eq, Structural)]
pub enum CheckOutcome {
    /// The check passed.
    Pass,
    /// The check failed.
    Fail,
    /// The check could not run; counts as a failure.
    Skipped,
}

impl CheckOutcome {
    /// The stable machine-readable name.
    pub open spec fn name(self) -> Seq<char> {
        match self {
            CheckOutcome::Pass => "pass"@,
            CheckOutcome::Fail => "fail"@,
            CheckOutcome::Skipped => "skipped"@,
        }
    }

    /// Only `Pass` satisfies the check.
    #[must_use]
    pub fn is_pass(self) -> (r: bool)
        ensures
            r == (self == CheckOutcome::Pass),
    {
        matches!(self, CheckOutcome::Pass)
    }

    /// The stable machine-readable name.
    #[must_use]
    pub fn as_str(self) -> (r: &'static str)
        ensures
            r@ == self.name(),
    {
        match self {
            CheckOutcome::Pass => "pass",
            CheckOutcome::Fail => "fail",
            CheckOutcome::Skipped => "skipped",
        }
    }
}

/// A single check's report.
#[derive(Debug, PartialEq, Eq)]
pub struct CheckReport {
    /// Which check.
    pub id: CheckId,
    /// The outcome.
    pub outcome: CheckOutcome,
    /// Human-readable detail.
    pub detail: String,
}

impl Clone for CheckReport {
    fn clone(&self) -> (r: CheckReport)
        ensures
            r == *self,
    {
        CheckReport { id: self.id, outcome: self.outcome, detail: self.detail.clone() }
    }
}

impl CheckReport {
    /// A passing report.
    #[must_use]
    pub fn pass(id: CheckId, detail: &str) -> (r: CheckReport)
        ensures
            r.id == id,
            r.outcome == CheckOutcome::Pass,
            r.detail@ == detail@,
    {
        CheckReport { id, outcome: CheckOutcome::Pass, detail: detail.to_owned() }
    }

    /// A failing report.
    #[must_use]
    pub fn fail(id: CheckId, detail: &str) -> (r: CheckReport)
        ensures
            r.id == id,
            r.outcome == CheckOutcome::Fail,
            r.detail@ == detail@,
    {
        CheckReport { id, outcome: CheckOutcome::Fail, detail: detail.to_owned() }
    }

    /// A skipped report.
    #[must_use]
    pub fn skipped(id: CheckId, detail: &str) -> (r: CheckReport)
        ensures
            r.id == id,
            r.outcome == CheckOutcome::Skipped,
            r.detail@ == detail@,
    {
        CheckReport { id, outcome: CheckOutcome::Skipped, detail: detail.to_owned() }
    }
}

/// An observation of the session's apparent public IP.
#[derive(Debug, PartialEq, Eq)]
pub struct IpObservation {
    /// The observed exit IP.
    pub ip: String,
    /// Whether the observation was made through the tunnel.
    pub via_tunnel: bool,
    /// Whether it differs from the host's public IP.
    pub differs_from_host: bool,
}

/// The aggregate protection status shown to the user.
#[derive(Debug, Clone, Copy, PartialEq, Eq, Structural)]
pub enum ProtectionStatus {
    /// All checks pass.
    Active,
    /// Core containment holds but something is degraded.
    Partial,
    /// A containment guarantee is not met.
    Unsafe,
    /// No protection in effect.
    Unprotected,
}

impl ProtectionStatus {
    /// The badge text.
    pub open spec fn name(self) -> Seq<char> {
        match self {
            ProtectionStatus::Active => "protection active"@,
            ProtectionStatus::Partial => "partial protection"@,
            ProtectionStatus::Unsafe => "unsafe configuration"@,
            ProtectionStatus::Unprotected => "no protection"@,
        }
    }

    /// The UI badge text.
    #[must_use]
    pub fn label(self) -> (r: &'static str)
        ensures
            r@ == self.name(),
    {
        match self {
            ProtectionStatus::Active => "protection active",
            ProtectionStatus::Partial => "partial protection",
            ProtectionStatus::Unsafe => "unsafe configuration",
            ProtectionStatus::Unprotected => "no protection",
        }
    }

    /// Whether a session may reach the internet in this state: only `Active`.
    #[must_use]
    pub fn permits_browsing(self) -> (r: bool)
        ensures
            r == (self == ProtectionStatus::Active),
    {
        matches!(self, ProtectionStatus::Active)
    }
}

/// What the auditor is told about the session that it checks.
#[derive(Debug, PartialEq, Eq)]
pub struct PreflightContext {
    /// The session.
    pub session: SessionId,
    /// The gateway's address.
    pub gateway_address: String,
    /// The label of the tunnel mode.
    pub mode_label: String,
    /// The DNS policy that must hold.
    pub dns: DnsPolicy,
    /// The IPv6 policy that must hold.
    pub ipv6: Ipv6Policy,
    /// Whether the WebRTC policy is installed.
    pub webrtc_policy_installed: bool,
    /// The host's own public IP, if known.
    pub host_public_ip: Option<String>,
}

/// The first report of the given check.
pub open spec fn first_report(reports: Seq<CheckReport>, id: CheckId) -> Option<CheckReport>
    decreases reports.len(),
{
    if reports.len() == 0 {
        None
    } else if reports[0].id == id {
        Some(reports[0])
    } else {
        first_report(reports.skip(1), id)
    }
}

/// The checklist and the observed public IP.
#[derive(Debug, PartialEq, Eq)]
pub struct ConnectivityChecklist {
    /// Individual check reports.
    pub reports: Vec<CheckReport>,
    /// The observed public IP, if any.
    pub observed_ip: Option<IpObservation>,
}

impl ConnectivityChecklist {
    /// The first report of the given check.
    pub open spec fn reported(self, id: CheckId) -> Option<CheckReport> {
        first_report(self.reports@, id)
    }

    /// Whether the check is reported as passed. A check without a report has not
    /// passed.
    pub open spec fn passed(self, id: CheckId) -> bool {
        self.reported(id) matches Some(r) && r.outcome == CheckOutcome::Pass
    }

    /// Whether every mandatory check passed.
    pub open spec fn complete(self) -> bool {
        forall|id: CheckId| #[trigger] self.passed(id)
    }

    /// Those of `ids` that have not passed, in their order.
    pub open spec fn failing_among(self, ids: Seq<CheckId>) -> Seq<CheckId>
        decreases ids.len(),
    {
        if ids.len() == 0 {
            Seq::empty()
        } else if self.passed(ids.last()) {
            self.failing_among(ids.drop_last())
        } else {
            self.failing_among(ids.drop_last()).push(ids.last())
        }
    }

    /// The checks that failed, were skipped or are missing, in execution order.
    pub open spec fn failing(self) -> Seq<CheckId> {
        self.failing_among(CheckId::every())
    }

    /// The aggregate status.
    pub open spec fn aggregate(self) -> ProtectionStatus {
        if self.complete() {
            ProtectionStatus::Active
        } else if !self.passed(CheckId::GatewayReady) || !self.passed(CheckId::TunnelReady) {
            ProtectionStatus::Unprotected
        } else {
            ProtectionStatus::Unsafe
        }
    }

    /// A checklist of these reports, without an observed IP.
    #[must_use]
    pub fn new(reports: Vec<CheckReport>) -> (r: ConnectivityChecklist)
        ensures
            r.reports@ == reports@,
            r.observed_ip is None,
    {
        ConnectivityChecklist { reports, observed_ip: None }
    }

    /// The first report of the given check.
    #[must_use]
    pub fn report(&self, id: CheckId) -> (r: Option<&CheckReport>)
        ensures
            match r {
                Some(x) => self.reported(id) == Some(*x),
                None => self.reported(id) is None,
            },
    {
        let mut i: usize = 0;
        assert(self.reports@.skip(0) =~= self.reports@);
        while i < self.reports.len()
            invariant
                i <= self.reports.len(),
                self.reported(id) == first_report(self.reports@.skip(i as int), id),
            decreases self.reports.len() - i,
        {
            if self.reports[i].id == id {
                return Some(&self.reports[i]);
            }
            assert(self.reports@.skip(i as int).skip(1) =~= self.reports@.skip(i + 1));
            i += 1;
        }
        None
    }

    /// Whether the check is reported as passed.
    fn has_passed(&self, id: CheckId) -> (r: bool)
        ensures
            r == self.passed(id),
    {
        match self.report(id) {
            Some(r) => r.outcome.is_pass(),
            None => false,
        }
    }

    /// Whether every mandatory check passed.
    #[must_use]
    pub fn all_passed(&self) -> (r: bool)
        ensures
            r == self.complete(),
    {
        let ids = CheckId::all();
        let mut i: usize = 0;
        while i < 6
            invariant
                ids@ == CheckId::every(),
                i <= 6,
                forall|j: int| 0 <= j < i ==> self.passed(#[trigger] ids@[j]),
            decreases 6 - i,
        {
            if !self.has_passed(ids[i]) {
                return false;
            }
            i += 1;
        }
        proof {
            assert forall|id: CheckId| #[trigger] self.passed(id) by {
                assert(self.passed(ids@[0]));
                assert(self.passed(ids@[1]));
                assert(self.passed(ids@[2]));
                assert(self.passed(ids@[3]));
                assert(self.passed(ids@[4]));
                assert(self.passed(ids@[5]));
            }
        }
        true
    }

    /// The checks that failed, were skipped or are missing, in execution order.
    #[must_use]
    pub fn failures(&self) -> (r: Vec<CheckId>)
        ensures
            r@ == self.failing(),
    {
        let ids = CheckId::all();
        let mut out: Vec<CheckId> = Vec::new();
        let mut i: usize = 0;
        while i < 6
            invariant
                ids@ == CheckId::every(),
                i <= 6,
                out@ == self.failing_among(ids@.take(i as int)),
            decreases 6 - i,
        {
            let id = ids[i];
            proof {
                let t = ids@.take(i + 1);
                assert(t.drop_last() =~= ids@.take(i as int));
                assert(t.last() == id);
            }
            if !self.has_passed(id) {
                out.push(id);
            }
            i += 1;
        }
        assert(ids@.take(6) =~= ids@);
        out
    }

    /// The aggregate protection status.
    #[must_use]
    pub fn status(&self) -> (r: ProtectionStatus)
        ensures
            r == self.aggregate(),
    {
        if self.all_passed() {
            return ProtectionStatus::Active;
        }
        if !self.has_passed(CheckId::GatewayReady) || !self.has_passed(CheckId::TunnelReady) {
            return ProtectionStatus::Unprotected;
        }
        ProtectionStatus::Unsafe
    }

    /// Whether browsing may proceed.
    #[must_use]
    pub fn permits_browsing(&self) -> (r: bool)
        ensures
            r == self.complete(),
    {
        self.status().permits_browsing()
    }
}

/// Browsing is permitted exactly where all six checks passed: the aggregate is
/// `Active` then and only then, and there is no partial pass.
pub proof fn law_active_iff_all_passed(c: ConnectivityChecklist)
    ensures
        c.aggregate() == ProtectionStatus::Active <==> c.complete(),
        c.aggregate() != ProtectionStatus::Partial,
{
}

proof fn lemma_failing_member(c: ConnectivityChecklist, ids: Seq<CheckId>, id: CheckId)
    ensures
        c.failing_among(ids).contains(id) <==> ids.contains(id) && !c.passed(id),
    decreases ids.len(),
{
    if ids.len() > 0 {
        let init = ids.drop_last();
        lemma_failing_member(c, init, id);
        let f = c.failing_among(init);
        assert(ids =~= init.push(ids.last()));
        if ids.contains(id) {
            let i = choose|i: int| 0 <= i < ids.len() && ids[i] == id;
            if i < init.len() {
                assert(init[i] == id);
            }
        }
        if init.contains(id) {
            let i = choose|i: int| 0 <= i < init.len() && init[i] == id;
            assert(ids[i] == id);
        }
        assert(ids[ids.len() - 1] == ids.last());
        if !c.passed(ids.last()) {
            let g = f.push(ids.last());
            if f.contains(id) {
                let i = choose|i: int| 0 <= i < f.len() && f[i] == id;
                assert(g[i] == id);
            }
            assert(g[f.len() as int] == ids.last());
            if g.contains(id) {
                let i = choose|i: int| 0 <= i < g.len() && g[i] == id;
                if i < f.len() {
                    assert(f[i] == id);
                }
            }
        }
    }
}

/// The list of failures names exactly the checks that have not passed; it is
/// empty exactly where browsing is permitted.
pub proof fn law_failures_are_the_unpassed(c: ConnectivityChecklist, id: CheckId)
    ensures
        c.failing().contains(id) <==> !c.passed(id),
        c.failing().len() == 0 <==> c.complete(),
{
    lemma_failing_member(c, CheckId::every(), id);
    let all = CheckId::every();
    assert forall|x: CheckId| all.contains(x) by {
        assert(all[0] == CheckId::GatewayReady);
        assert(all[1] == CheckId::TunnelReady);
        assert(all[2] == CheckId::DnsRouteVerified);
        assert(all[3] == CheckId::PublicIpObserved);
        assert(all[4] == CheckId::WebrtcPolicyLoaded);
        assert(all[5] == CheckId::Ipv6PolicyVerified);
    }
    if c.complete() {
        if c.failing().len() > 0 {
            let x = c.failing()[0];
            lemma_failing_member(c, all, x);
            assert(c.failing().contains(x));
            assert(c.passed(x));
        }
    }
    if c.failing().len() == 0 {
        assert forall|x: CheckId| #[trigger] c.passed(x) by {
            lemma_failing_member(c, all, x);
        }
    }
}

/// A check that was skipped, or that nobody reported, stops browsing as a failed
/// one does.
pub proof fn law_skipped_is_not_passed(c: ConnectivityChecklist, id: CheckId)
    requires
        c.reported(id) is None || c.reported(id)->0.outcome != CheckOutcome::Pass,
    ensures
        !c.complete(),
{
    assert(!c.passed(id));
}

/// The six checks, in the order in which they run, and the names under which they
/// are reported.
pub proof fn law_checks_run_in_order()
    ensures
        CheckId::every().len() == 6,
        CheckId::every()[0] is GatewayReady,
        CheckId::every()[1] is TunnelReady,
        CheckId::every()[2] is DnsRouteVerified,
        CheckId::every()[3] is PublicIpObserved,
        CheckId::every()[4] is WebrtcPolicyLoaded,
        CheckId::every()[5] is Ipv6PolicyVerified,
        CheckId::GatewayReady.name() == "gateway_ready"@,
        CheckId::TunnelReady.name() == "tunnel_ready"@,
        CheckId::DnsRouteVerified.name() == "dns_route_verified"@,
        CheckId::PublicIpObserved.name() == "public_ip_observed"@,
        CheckId::WebrtcPolicyLoaded.name() == "webrtc_policy_loaded"@,
        CheckId::Ipv6PolicyVerified.name() == "ipv6_policy_verified"@,
        CheckOutcome::Pass.name() == "pass"@,
        CheckOutcome::Fail.name() == "fail"@,
        CheckOutcome::Skipped.name() == "skipped"@,
        ProtectionStatus::Active.name() == "protection active"@,
        ProtectionStatus::Partial.name() == "partial protection"@,
        ProtectionStatus::Unsafe.name() == "unsafe configuration"@,
        ProtectionStatus::Unprotected.name() == "no protection"@,
{
}

/// Where not all checks passed, the status says whether there is a tunnel at all:
/// none without gateway or tunnel, else an unsafe one.
pub proof fn law_status_tells_what_is_missing(c: ConnectivityChecklist)
    ensures
        !c.passed(CheckId::GatewayReady) || !c.passed(CheckId::TunnelReady)
            ==> c.aggregate() is Unprotected,
        c.passed(CheckId::GatewayReady) && c.passed(CheckId::TunnelReady) && !c.complete()
            ==> c.aggregate() is Unsafe,
        c.complete() ==> c.aggregate() is Active,
{
}

} // verus!
