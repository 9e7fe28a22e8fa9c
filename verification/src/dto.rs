//! Flat, display-ready records for the manager window.
//!
//! The badge carries a machine token and the exact label of the protection
//! status. No record holds a secret.

use crate::config::{Enforcement, IsolationLevel};
use crate::health::DiagnosticItem;
use crate::preflight::{CheckId, ConnectivityChecklist, ProtectionStatus};
use crate::profile::{size_text, Profile};
use crate::protocol::StatusDto;
use crate::session::{SessionState, SessionSummary};
use crate::text;
use crate::time::{Age, Timestamp};
use vstd::prelude::*;
use vstd::std_specs::convert::FromSpecImpl;

verus! {

/// A compact age: days and hours, hours and minutes, or minutes.
pub open spec fn age_phrase(secs: nat) -> Seq<char> {
    if secs < 60 {
        "just now"@
    } else if secs / 86400 > 0 {
        text::dec(secs / 86400) + "d "@ + text::dec(secs % 86400 / 3600) + "h"@
    } else if secs % 86400 / 3600 > 0 {
        text::dec(secs % 86400 / 3600) + "h "@ + text::dec(secs % 3600 / 60) + "m"@
    } else {
        text::dec(secs % 3600 / 60) + "m"@
    }
}

/// Renders an age; a negative one counts as none.
#[must_use]
pub fn humanize_age(d: Age) -> (r: String)
    ensures
        r@ == age_phrase(d.shown_seconds()),
{
    let secs: u64 = d.clamped();
    if secs < 60 {
        return "just now".to_owned();
    }
    let days: u64 = secs / 86400;
    let hours: u64 = secs % 86400 / 3600;
    let mins: u64 = secs % 3600 / 60;
    if days > 0 {
        text::cat4(text::decimal(days).as_str(), "d ", text::decimal(hours).as_str(), "h")
    } else if hours > 0 {
        text::cat4(text::decimal(hours).as_str(), "h ", text::decimal(mins).as_str(), "m")
    } else {
        text::cat2(text::decimal(mins).as_str(), "m")
    }
}

/// The machine token of an isolation level.
pub open spec fn isolation_word(level: IsolationLevel) -> Seq<char> {
    match level {
        IsolationLevel::FullVm => "full-vm"@,
        IsolationLevel::HostProcess => "host-process"@,
    }
}

/// The machine token of an isolation level.
#[must_use]
pub fn isolation_token(level: IsolationLevel) -> (r: &'static str)
    ensures
        r@ == isolation_word(level),
{
    match level {
        IsolationLevel::FullVm => "full-vm",
        IsolationLevel::HostProcess => "host-process",
    }
}

/// The machine token of a protection status.
pub open spec fn protection_word(s: ProtectionStatus) -> Seq<char> {
    match s {
        ProtectionStatus::Active => "active"@,
        ProtectionStatus::Partial => "partial"@,
        ProtectionStatus::Unsafe => "unsafe"@,
        ProtectionStatus::Unprotected => "none"@,
    }
}

/// The machine token of a protection status.
#[must_use]
pub fn protection_token(s: ProtectionStatus) -> (r: &'static str)
    ensures
        r@ == protection_word(s),
{
    match s {
        ProtectionStatus::Active => "active",
        ProtectionStatus::Partial => "partial",
        ProtectionStatus::Unsafe => "unsafe",
        ProtectionStatus::Unprotected => "none",
    }
}

/// The state column of a profile.
pub open spec fn running_word(running: bool) -> Seq<char> {
    if running {
        "running"@
    } else {
        "idle"@
    }
}

/// A row of the profiles table.
#[derive(Debug, PartialEq, Eq)]
pub struct ProfileView {
    /// The profile id.
    pub id: String,
    /// The name.
    pub name: String,
    /// `ephemeral` or `persistent`.
    pub kind: String,
    /// The label of the network mode.
    pub network_mode: String,
    /// The label of the protection level.
    pub protection_level: String,
    /// Whether a session holds the single-writer lock.
    pub locked: bool,
    /// `running` where the profile is locked or a session of it is live, else
    /// `idle`.
    pub gateway_state: String,
    /// The last observed public IP of the profile's live session; `None` when not
    /// running.
    pub public_ip: Option<String>,
    /// The age.
    pub age: String,
    /// When it was created.
    pub created_at: String,
    /// Its size on disk.
    pub size_on_disk: String,
    /// When it was last launched.
    pub last_run: Option<String>,
}

impl ProfileView {
    /// Whether the columns that no session changes show the profile at `now`.
    pub open spec fn describes(self, p: Profile, now: Timestamp) -> bool {
        &&& self.id@ == p.id.shown()
        &&& self.name@ == p.spec.name@
        &&& self.kind@ == p.spec.kind.name()
        &&& self.network_mode@ == p.spec.network.mode.name()
        &&& self.protection_level@ == p.spec.protection.name()
        &&& self.locked == p.locked
        &&& self.age@ == age_phrase((Age { seconds: now.span_from(p.created_at) }).shown_seconds())
        &&& self.created_at@ == p.created_at.shown()
        &&& self.size_on_disk@ == size_text(p.storage.bytes as nat)
        &&& match p.last_launched {
            Some(t) => self.last_run matches Some(x) && x@ == t.shown(),
            None => self.last_run is None,
        }
    }

    /// A row for a profile, with its age at `now`.
    #[must_use]
    pub fn from_profile(p: &Profile, now: Timestamp) -> (r: ProfileView)
        ensures
            r.describes(*p, now),
            r.gateway_state@ == running_word(p.locked),
            r.public_ip is None,
    {
        let age = p.age(now);
        ProfileView {
            id: p.id.text(),
            name: p.spec.name.clone(),
            kind: p.spec.kind.label().to_owned(),
            network_mode: p.spec.network.mode.label().to_owned(),
            protection_level: p.spec.protection.label().to_owned(),
            locked: p.locked,
            gateway_state: if p.locked {
                "running".to_owned()
            } else {
                "idle".to_owned()
            },
            public_ip: None,
            age: humanize_age(age),
            created_at: p.created_at.to_rfc3339(),
            size_on_disk: p.storage.human(),
            last_run: match &p.last_launched {
                Some(t) => Some(t.to_rfc3339()),
                None => None,
            },
        }
    }
}

/// A session for the window.
#[derive(Debug, PartialEq, Eq)]
pub struct SessionView {
    /// The session id.
    pub id: String,
    /// The profile id.
    pub profile_id: String,
    /// The name of the state in kebab case.
    pub state: String,
    /// Whether the session has internet access.
    pub is_browsing: bool,
    /// Whether the session is safe to use.
    pub is_safe: bool,
    /// The machine token of the protection status.
    pub protection_status: String,
    /// The label of the protection status.
    pub protection_label: String,
    /// The public IP seen from inside the session, if known.
    pub public_ip: Option<String>,
}

impl SessionView {
    /// Whether this shows the session.
    pub open spec fn describes(self, s: SessionSummary) -> bool {
        &&& self.id@ == s.id.shown()
        &&& self.profile_id@ == s.profile.shown()
        &&& self.state@ == s.state.token()
        &&& self.is_browsing == (s.state == SessionState::Browsing)
        &&& self.is_safe == s.safe()
        &&& self.protection_status@ == protection_word(s.protection)
        &&& self.protection_label@ == s.protection.name()
        &&& self.public_ip == s.public_ip
    }

    /// A view of a session.
    #[must_use]
    pub fn from_summary(s: &SessionSummary) -> (r: SessionView)
        ensures
            r.describes(*s),
    {
        SessionView {
            id: s.id.text(),
            profile_id: s.profile.text(),
            state: s.state.as_str().to_owned(),
            is_browsing: s.state.is_browsing(),
            is_safe: s.is_safe(),
            protection_status: protection_token(s.protection).to_owned(),
            protection_label: s.protection.label().to_owned(),
            public_ip: text::copy_opt(&s.public_ip),
        }
    }
}

/// A diagnostics row.
#[derive(Debug, PartialEq, Eq)]
pub struct DiagItemView {
    /// The machine key.
    pub key: String,
    /// The label of the health level.
    pub level: String,
    /// The detail.
    pub detail: String,
}

impl DiagItemView {
    /// Whether this shows the item.
    pub open spec fn describes(self, d: DiagnosticItem) -> bool {
        self.key == d.key && self.level@ == d.level.name() && self.detail == d.detail
    }
}

impl FromSpecImpl<&DiagnosticItem> for DiagItemView {
    open spec fn obeys_from_spec() -> bool {
        false
    }

    open spec fn from_spec(d: &DiagnosticItem) -> DiagItemView {
        arbitrary()
    }
}

impl From<&DiagnosticItem> for DiagItemView {
    fn from(d: &DiagnosticItem) -> (r: DiagItemView)
        ensures
            r.describes(*d),
    {
        DiagItemView {
            key: d.key.clone(),
            level: d.level.label().to_owned(),
            detail: d.detail.clone(),
        }
    }
}

/// A row of the checklist.
#[derive(Debug, PartialEq, Eq)]
pub struct CheckView {
    /// The stable name of the check.
    pub id: String,
    /// `pass`, `fail` or `skipped`.
    pub outcome: String,
    /// Whether the check passed.
    pub passed: bool,
    /// The detail.
    pub detail: String,
}

impl CheckView {
    /// Whether this shows the check `id` of a checklist. A check without a report
    /// counts as skipped.
    pub open spec fn describes(self, c: ConnectivityChecklist, id: CheckId) -> bool {
        &&& self.id@ == id.name()
        &&& self.passed == c.passed(id)
        &&& match c.reported(id) {
            Some(x) => self.outcome@ == x.outcome.name() && self.detail == x.detail,
            None => self.outcome@ == "skipped"@ && self.detail@ == "not reported"@,
        }
    }
}

fn check_view(c: &ConnectivityChecklist, id: CheckId) -> (r: CheckView)
    ensures
        r.describes(*c, id),
{
    match c.report(id) {
        Some(x) => CheckView {
            id: id.as_str().to_owned(),
            outcome: x.outcome.as_str().to_owned(),
            passed: x.outcome.is_pass(),
            detail: x.detail.clone(),
        },
        None => CheckView {
            id: id.as_str().to_owned(),
            outcome: "skipped".to_owned(),
            passed: false,
            detail: "not reported".to_owned(),
        },
    }
}

/// Whether the rows show every check of a checklist, in execution order.
pub open spec fn lists_checks(rows: Seq<CheckView>, c: ConnectivityChecklist) -> bool {
    &&& rows.len() == CheckId::every().len()
    &&& forall|i: int| 0 <= i < rows.len() ==> (#[trigger] rows[i]).describes(c, CheckId::every()[i])
}

fn check_views(c: &ConnectivityChecklist) -> (r: Vec<CheckView>)
    ensures
        lists_checks(r@, *c),
{
    let ids = CheckId::all();
    let mut rows: Vec<CheckView> = Vec::new();
    let mut i: usize = 0;
    while i < 6
        invariant
            i <= 6,
            ids@ == CheckId::every(),
            ids@.len() == 6,
            rows@.len() == i,
            forall|j: int|
                0 <= j < i ==> (#[trigger] rows@[j]).describes(*c, CheckId::every()[j]),
        decreases 6 - i,
    {
        rows.push(check_view(c, ids[i]));
        i += 1;
    }
    rows
}

/// The diagnostics panel of a session.
#[derive(Debug, PartialEq, Eq)]
pub struct DiagnosticsView {
    /// The machine token of the aggregate status.
    pub protection_status: String,
    /// Its label.
    pub protection_label: String,
    /// Whether browsing is permitted.
    pub permits_browsing: bool,
    /// The observed public IP, if any.
    pub public_ip: Option<String>,
    /// Whether it was observed through the tunnel.
    pub public_ip_via_tunnel: Option<bool>,
    /// Whether it differs from the host's own.
    pub public_ip_differs_from_host: Option<bool>,
    /// The checks, in execution order.
    pub checks: Vec<CheckView>,
    /// The items.
    pub items: Vec<DiagItemView>,
}

impl DiagnosticsView {
    /// Whether this shows a checklist and its items.
    pub open spec fn describes(self, c: ConnectivityChecklist, items: Seq<DiagnosticItem>) -> bool {
        &&& self.protection_status@ == protection_word(c.aggregate())
        &&& self.protection_label@ == c.aggregate().name()
        &&& self.permits_browsing == (c.aggregate() == ProtectionStatus::Active)
        &&& match c.observed_ip {
            Some(o) => {
                &&& self.public_ip == Some(o.ip)
                &&& self.public_ip_via_tunnel == Some(o.via_tunnel)
                &&& self.public_ip_differs_from_host == Some(o.differs_from_host)
            },
            None => {
                &&& self.public_ip is None
                &&& self.public_ip_via_tunnel is None
                &&& self.public_ip_differs_from_host is None
            },
        }
        &&& lists_checks(self.checks@, c)
        &&& self.items@.len() == items.len()
        &&& forall|i: int| 0 <= i < items.len() ==> (#[trigger] self.items@[i]).describes(items[i])
    }

    /// The panel for a checklist and its items.
    #[must_use]
    pub fn build(checklist: &ConnectivityChecklist, items: &[DiagnosticItem]) -> (r:
        DiagnosticsView)
        ensures
            r.describes(*checklist, items@),
    {
        let status = checklist.status();
        let mut rows: Vec<DiagItemView> = Vec::new();
        let mut i: usize = 0;
        while i < items.len()
            invariant
                i <= items@.len(),
                rows@.len() == i,
                forall|j: int| 0 <= j < i ==> (#[trigger] rows@[j]).describes(items@[j]),
            decreases items@.len() - i,
        {
            rows.push(DiagItemView::from(&items[i]));
            i += 1;
        }
        let (public_ip, via_tunnel, differs) = match &checklist.observed_ip {
            Some(o) => (Some(o.ip.clone()), Some(o.via_tunnel), Some(o.differs_from_host)),
            None => (None, None, None),
        };
        DiagnosticsView {
            protection_status: protection_token(status).to_owned(),
            protection_label: status.label().to_owned(),
            permits_browsing: status.permits_browsing(),
            public_ip,
            public_ip_via_tunnel: via_tunnel,
            public_ip_differs_from_host: differs,
            checks: check_views(checklist),
            items: rows,
        }
    }
}

/// The result of the self-test.
#[derive(Debug, PartialEq, Eq)]
pub struct DoctorView {
    /// The machine token of the aggregate status.
    pub protection_status: String,
    /// Its label.
    pub protection_label: String,
    /// The checks, in execution order.
    pub checks: Vec<CheckView>,
}

impl DoctorView {
    /// Whether this shows a checklist.
    pub open spec fn describes(self, c: ConnectivityChecklist) -> bool {
        &&& self.protection_status@ == protection_word(c.aggregate())
        &&& self.protection_label@ == c.aggregate().name()
        &&& lists_checks(self.checks@, c)
    }

    /// The view of a checklist.
    #[must_use]
    pub fn build(checklist: &ConnectivityChecklist) -> (r: DoctorView)
        ensures
            r.describes(*checklist),
    {
        let status = checklist.status();
        DoctorView {
            protection_status: protection_token(status).to_owned(),
            protection_label: status.label().to_owned(),
            checks: check_views(checklist),
        }
    }
}

/// The containment policy as three switches.
#[derive(Debug, Clone, Copy, PartialEq, Eq, Structural)]
pub struct EnforcementView {
    /// Require the browser to run in its own isolated VM.
    pub require_vm_isolation: bool,
    /// Require a dedicated gateway VM.
    pub require_gateway: bool,
    /// Permit launching the browser directly on the host.
    pub allow_host_browser: bool,
}

impl EnforcementView {
    /// The switches of a policy.
    pub open spec fn of(e: Enforcement) -> EnforcementView {
        EnforcementView {
            require_vm_isolation: e.require_vm_isolation,
            require_gateway: e.require_gateway,
            allow_host_browser: e.allow_host_browser,
        }
    }

    /// The policy with these switches.
    pub open spec fn policy(self) -> Enforcement {
        Enforcement {
            require_vm_isolation: self.require_vm_isolation,
            require_gateway: self.require_gateway,
            allow_host_browser: self.allow_host_browser,
        }
    }
}

impl FromSpecImpl<Enforcement> for EnforcementView {
    open spec fn obeys_from_spec() -> bool {
        true
    }

    open spec fn from_spec(e: Enforcement) -> EnforcementView {
        EnforcementView::of(e)
    }
}

impl From<Enforcement> for EnforcementView {
    fn from(e: Enforcement) -> (r: EnforcementView) {
        EnforcementView {
            require_vm_isolation: e.require_vm_isolation,
            require_gateway: e.require_gateway,
            allow_host_browser: e.allow_host_browser,
        }
    }
}

impl FromSpecImpl<EnforcementView> for Enforcement {
    open spec fn obeys_from_spec() -> bool {
        true
    }

    open spec fn from_spec(v: EnforcementView) -> Enforcement {
        v.policy()
    }
}

impl From<EnforcementView> for Enforcement {
    fn from(v: EnforcementView) -> (r: Enforcement) {
        Enforcement {
            require_vm_isolation: v.require_vm_isolation,
            require_gateway: v.require_gateway,
            allow_host_browser: v.allow_host_browser,
        }
    }
}

/// A policy survives the way to the window and back, and so does a view.
pub proof fn law_enforcement_round_trips(e: Enforcement, v: EnforcementView)
    ensures
        EnforcementView::of(e).policy() == e,
        EnforcementView::of(v.policy()) == v,
{
}

/// The daemon status for the window. It holds no path of the local file system.
#[derive(Debug, PartialEq, Eq)]
pub struct StatusView {
    /// The daemon's version.
    pub version: String,
    /// The host platform.
    pub platform: String,
    /// The machine token of the isolation level.
    pub isolation_status: String,
    /// Its label.
    pub isolation_label: String,
    /// Whether the full VM-isolation model is in force.
    pub is_full_isolation: bool,
    /// The current policy.
    pub enforcement: EnforcementView,
    /// Whether a host browser could be located.
    pub host_browser_available: bool,
}

impl StatusView {
    /// Whether this shows a status.
    pub open spec fn describes(self, s: StatusDto) -> bool {
        &&& self.version == s.version
        &&& self.platform == s.platform
        &&& self.isolation_status@ == isolation_word(s.isolation_level)
        &&& self.isolation_label@ == s.isolation_level.name()
        &&& self.is_full_isolation == (s.isolation_level == IsolationLevel::FullVm)
        &&& self.enforcement == EnforcementView::of(s.enforcement)
        &&& self.host_browser_available == s.host_browser_available
    }

    /// The view of a status.
    #[must_use]
    pub fn from_status(s: &StatusDto) -> (r: StatusView)
        ensures
            r.describes(*s),
    {
        StatusView {
            version: s.version.clone(),
            platform: s.platform.clone(),
            isolation_status: isolation_token(s.isolation_level).to_owned(),
            isolation_label: s.isolation_level.label().to_owned(),
            is_full_isolation: s.isolation_level.is_full(),
            enforcement: EnforcementView::from(s.enforcement),
            host_browser_available: s.host_browser_available,
        }
    }
}

/// A session is shown as it is: in its state, as browsing only where it is, as safe
/// only where it is browsing under full protection, with its own address.
pub proof fn law_sessions_are_shown_as_they_are(v: SessionView, s: SessionSummary)
    requires
        v.describes(s),
    ensures
        v.id@ == s.id.shown(),
        v.profile_id@ == s.profile.shown(),
        v.is_browsing <==> s.state is Browsing,
        v.is_safe <==> s.state is Browsing && s.protection is Active,
        s.protection is Active ==> v.protection_status@ == "active"@ && v.protection_label@
            == "protection active"@,
        s.protection is Partial ==> v.protection_status@ == "partial"@ && v.protection_label@
            == "partial protection"@,
        s.protection is Unsafe ==> v.protection_status@ == "unsafe"@ && v.protection_label@
            == "unsafe configuration"@,
        s.protection is Unprotected ==> v.protection_status@ == "none"@ && v.protection_label@
            == "no protection"@,
        s.state is Browsing ==> v.state@ == "browsing"@,
        s.state is Failed ==> v.state@ == "failed"@,
        s.state is Destroyed ==> v.state@ == "destroyed"@,
        v.public_ip == s.public_ip,
{
}

/// A profile is shown as it is.
pub proof fn law_profiles_are_shown_as_they_are(v: ProfileView, p: Profile, now: Timestamp)
    requires
        v.describes(p, now),
    ensures
        v.id@ == p.id.shown(),
        v.name@ == p.spec.name@,
        p.spec.kind is Ephemeral ==> v.kind@ == "ephemeral"@,
        p.spec.kind is Persistent ==> v.kind@ == "persistent"@,
        p.spec.network.mode is Tor ==> v.network_mode@ == "Tor"@,
        p.spec.network.mode is Vpn ==> v.network_mode@ == "VPN"@,
        p.spec.network.mode is Proxy ==> v.network_mode@ == "Proxy"@,
        p.spec.protection is Balanced ==> v.protection_level@ == "Balanced"@,
        p.spec.protection is Strict ==> v.protection_level@ == "Strict"@,
        v.locked == p.locked,
        v.created_at@ == p.created_at.shown(),
        p.last_launched is None ==> v.last_run is None,
{
}

/// The diagnostics panel permits browsing exactly where all checks passed, shows the
/// six checks in their order, each passed exactly where it did, and the address as
/// it was observed.
pub proof fn law_panel_shows_the_checklist(
    v: DiagnosticsView,
    c: ConnectivityChecklist,
    items: Seq<DiagnosticItem>,
    i: int,
)
    requires
        v.describes(c, items),
        0 <= i < 6,
    ensures
        v.permits_browsing <==> c.complete(),
        v.checks@.len() == 6,
        v.checks@[i].passed <==> c.passed(CheckId::every()[i]),
        v.checks@[i].id@ == CheckId::every()[i].name(),
        c.reported(CheckId::every()[i]) is None ==> v.checks@[i].outcome@ == "skipped"@,
        c.observed_ip matches Some(o) ==> v.public_ip == Some(o.ip) && v.public_ip_via_tunnel
            == Some(o.via_tunnel) && v.public_ip_differs_from_host == Some(o.differs_from_host),
        c.observed_ip is None ==> v.public_ip is None,
        v.items@.len() == items.len(),
{
}

/// An age is shown in its two largest units, and less than a minute as none.
pub proof fn law_ages_are_phrased_by_their_largest_units(d: nat, h: nat, m: nat, s: nat)
    requires
        h < 24,
        m < 60,
        s < 60,
    ensures
        d > 0 ==> age_phrase(d * 86400 + h * 3600 + m * 60 + s) == text::dec(d) + "d "@ + text::dec(
            h,
        ) + "h"@,
        h > 0 ==> age_phrase(h * 3600 + m * 60 + s) == text::dec(h) + "h "@ + text::dec(m) + "m"@,
        m > 0 ==> age_phrase(m * 60 + s) == text::dec(m) + "m"@,
        age_phrase(s) == "just now"@,
{
    let t = d * 86400 + h * 3600 + m * 60 + s;
    let u = h * 3600 + m * 60 + s;
    assert(u < 86400);
    assert(t / 86400 == d && t % 86400 == u);
    assert(u / 3600 == h && u % 3600 == m * 60 + s);
    assert((m * 60 + s) / 60 == m);
    assert(t % 3600 == m * 60 + s);
}

/// The status is shown as it is, with the policy switch by switch.
pub proof fn law_status_is_shown_as_it_is(v: StatusView, s: StatusDto)
    requires
        v.describes(s),
    ensures
        v.version == s.version && v.platform == s.platform,
        s.isolation_level is FullVm ==> v.isolation_status@ == "full-vm"@ && v.isolation_label@
            == "full VM isolation"@ && v.is_full_isolation,
        s.isolation_level is HostProcess ==> v.isolation_status@ == "host-process"@
            && v.isolation_label@ == "host process (reduced)"@ && !v.is_full_isolation,
        v.enforcement.require_vm_isolation == s.enforcement.require_vm_isolation,
        v.enforcement.require_gateway == s.enforcement.require_gateway,
        v.enforcement.allow_host_browser == s.enforcement.allow_host_browser,
        v.host_browser_available == s.host_browser_available,
{
}

} // verus!
