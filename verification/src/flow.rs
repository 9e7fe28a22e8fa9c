//! The flow of a session: which action follows which event.
//!
//! The machine never acts itself. [`Orchestrator::begin_start`] and
//! [`Orchestrator::begin_stop`] give the first step of a flow and
//! [`Orchestrator::advance`] the next one; the caller writes the records of a
//! step, performs its action and hands back what came of it.
//!
//! A start that fails is torn down again. Where the failure is one of
//! containment or isolation, traffic is cut first.

use crate::browser::{BackendPolicyBundle, BrowserBackendId, BrowserHandle, BrowserLaunchRequest};
use crate::config::IsolationLevel;
use crate::error::{Error, ErrorKind, ErrorModel, FailureClass};
use crate::events::{note, notes, AuditDraft, EventKind, KindModel, RecordModel, Severity};
use crate::gateway::{FirewallPolicy, GatewayConfig};
use crate::ids::{ProfileId, SessionId, VmId};
use crate::orchestrator::{
    browser_launch_request, gateway_config, gateway_proxy, host_endpoint, host_launch_request,
    host_profile_dir, host_proxy_endpoint, immovable, is_bundle, is_gateway_config,
    is_launch_request, is_preflight_context, is_provision_request, may_move, moved,
    no_host_browser, preflight_context, provision_request, proxy_authority, refusal,
    render_complaint, render_vetted, state_draft, state_record, unknown_session,
    unknown_session_error, Capabilities, HostProxy, Orchestrator, GUEST_PROFILE_DIR,
};
use crate::preflight::{CheckId, CheckReport, ConnectivityChecklist, PreflightContext, ProtectionStatus};
use crate::profile::{Profile, ProfileLease, ProfileType};
use crate::secure::SecretKey;
use crate::session::{SessionState, SessionSummary};
use crate::sessions::{Change, SessionEntry, SessionMode};
use crate::text;
use crate::vm::{VmHandle, VmProvisionRequest, VmRole};
use vstd::prelude::*;

verus! {

/// Where a browser runs.
#[derive(Debug, Clone, Copy, PartialEq, Eq, Structural)]
pub enum Target {
    /// In the browser VM.
    Vm,
    /// On the host, by the given engine.
    Host(BrowserBackendId),
}

impl Target {
    /// The engine that renders the policy: Chromium in the VM.
    pub open spec fn renders(self) -> BrowserBackendId {
        match self {
            Target::Vm => BrowserBackendId::Chromium,
            Target::Host(engine) => engine,
        }
    }

    /// The engine that renders the policy.
    #[must_use]
    pub fn engine(self) -> (r: BrowserBackendId)
        ensures
            r == self.renders(),
    {
        match self {
            Target::Vm => BrowserBackendId::Chromium,
            Target::Host(engine) => engine,
        }
    }
}

/// One step of tearing a session down. Every step tolerates failure.
#[derive(Debug, PartialEq, Eq)]
pub enum TeardownStep {
    /// Terminate the browser.
    Terminate {
        /// Where it runs.
        target: Target,
        /// Its handle.
        handle: BrowserHandle,
    },
    /// Remove the user-data directory from the host.
    RemoveDir(String),
    /// Power a VM off at once.
    Shutdown(VmId),
    /// Destroy a VM and its overlay.
    Destroy(VmRole, VmId),
    /// Release the profile's lock.
    Release(ProfileLease),
}

impl Clone for TeardownStep {
    fn clone(&self) -> (r: TeardownStep)
        ensures
            r == *self,
    {
        match self {
            TeardownStep::Terminate { target, handle } => TeardownStep::Terminate {
                target: *target,
                handle: handle.clone(),
            },
            TeardownStep::RemoveDir(dir) => TeardownStep::RemoveDir(dir.clone()),
            TeardownStep::Shutdown(id) => TeardownStep::Shutdown(*id),
            TeardownStep::Destroy(role, id) => TeardownStep::Destroy(*role, *id),
            TeardownStep::Release(lease) => TeardownStep::Release(lease.clone()),
        }
    }
}

/// How a teardown ends.
pub enum Ending {
    /// A start failed with the error.
    Failed(Error),
    /// A session was stopped.
    Stopped,
}

/// The model of an ending.
pub enum EndingModel {
    /// A start failed with the error.
    Failed(ErrorModel),
    /// A session was stopped.
    Stopped,
}

impl View for Ending {
    type V = EndingModel;

    open spec fn view(&self) -> EndingModel {
        match self {
            Ending::Failed(e) => EndingModel::Failed(e@),
            Ending::Stopped => EndingModel::Stopped,
        }
    }
}

impl EndingModel {
    /// The state in which the session ends.
    pub open spec fn state(self) -> SessionState {
        match self {
            EndingModel::Failed(_) => SessionState::Failed,
            EndingModel::Stopped => SessionState::Destroyed,
        }
    }

    /// What the flow comes to, given the sessions at its end.
    pub open spec fn outcome(
        self,
        session: SessionId,
        table: Map<SessionId, SessionEntry>,
    ) -> Result<SessionSummary, ErrorModel> {
        match self {
            EndingModel::Failed(em) => Err(em),
            EndingModel::Stopped => if table.contains_key(session) {
                Ok(table[session].summarized(session))
            } else {
                Err(unknown_session(session))
            },
        }
    }
}

/// What the caller is to do next.
pub enum Action {
    /// Fetch the profile.
    GetProfile(ProfileId),
    /// Take the profile's single-writer lock.
    AcquireLock(ProfileId),
    /// Generate the key of the session's overlays.
    GenerateKey,
    /// Release a lock that no session holds.
    ReleaseLock(ProfileLease),
    /// Look up the proxy that the environment names for host mode.
    ReadHostProxy,
    /// Provision a VM.
    Provision(VmProvisionRequest),
    /// Configure the gateway.
    Configure(GatewayConfig),
    /// Install the firewall.
    ApplyFirewall(FirewallPolicy),
    /// Start a VM.
    StartVm(VmId),
    /// Run the preflight checklist.
    RunPreflight(PreflightContext),
    /// Probe the proxy on the host.
    ProbeProxy {
        /// Its host.
        host: String,
        /// Its port.
        port: u16,
    },
    /// Launch the browser with a vetted bundle.
    Launch {
        /// Where.
        target: Target,
        /// The request.
        request: BrowserLaunchRequest,
        /// The bundle.
        bundle: BackendPolicyBundle,
    },
    /// Record the launch on the profile.
    TouchLaunch(ProfileId),
    /// Cut all traffic.
    EngageKillSwitch,
    /// Perform a teardown step.
    Undo(TeardownStep),
    /// Nothing: the flow has come to this.
    Finish(Result<SessionSummary, Error>),
}

/// What came of an action.
pub enum Event {
    /// The profile was fetched, or not.
    Profile(Result<Profile, Error>),
    /// The lock was taken, or not.
    Lease(Result<ProfileLease, Error>),
    /// The key was generated, or not.
    Key(Result<SecretKey, Error>),
    /// The proxy that the environment names, if any.
    HostProxy(Option<String>),
    /// The VM was provisioned, or not.
    Vm(Result<VmHandle, Error>),
    /// The checklist ran, or not.
    Checklist(Result<ConnectivityChecklist, Error>),
    /// The proxy is reachable or not, or could not be probed.
    Reachable(Result<bool, Error>),
    /// The browser was launched, or not.
    Launched(Result<BrowserHandle, Error>),
    /// Any other action succeeded or failed.
    Done(Result<(), Error>),
}

/// What the flow waits for.
pub enum Flow {
    /// The profile.
    FetchProfile {
        /// The session to be.
        session: SessionId,
        /// The profile asked for.
        profile_id: ProfileId,
    },
    /// The lock.
    TakeLock {
        /// The session to be.
        session: SessionId,
        /// The profile asked for.
        profile_id: ProfileId,
        /// The profile.
        profile: Profile,
    },
    /// The key.
    MakeKey {
        /// The session to be.
        session: SessionId,
        /// The profile asked for.
        profile_id: ProfileId,
        /// The profile.
        profile: Profile,
        /// The lease.
        lease: ProfileLease,
    },
    /// The release of the lock where there was no key.
    DropLock {
        /// Why there was no key.
        error: Error,
    },
    /// The gateway VM.
    ProvisionGateway {
        /// The session.
        session: SessionId,
        /// The profile.
        profile: Profile,
    },
    /// The browser VM.
    ProvisionBrowser {
        /// The session.
        session: SessionId,
        /// The profile.
        profile: Profile,
        /// The gateway VM.
        gateway: VmId,
    },
    /// The gateway's configuration.
    Configure {
        /// The session.
        session: SessionId,
        /// The profile.
        profile: Profile,
        /// The gateway VM.
        gateway: VmId,
        /// The browser VM.
        browser: VmId,
    },
    /// The firewall.
    Firewall {
        /// The session.
        session: SessionId,
        /// The profile.
        profile: Profile,
        /// The gateway VM.
        gateway: VmId,
        /// The browser VM.
        browser: VmId,
    },
    /// The start of the gateway VM.
    StartGateway {
        /// The session.
        session: SessionId,
        /// The profile.
        profile: Profile,
        /// The browser VM.
        browser: VmId,
    },
    /// The start of the browser VM.
    StartBrowser {
        /// The session.
        session: SessionId,
        /// The profile.
        profile: Profile,
    },
    /// The checklist.
    Preflight {
        /// The session.
        session: SessionId,
        /// The profile.
        profile: Profile,
    },
    /// The proxy that the environment names.
    HostPrepare {
        /// The session.
        session: SessionId,
        /// The profile.
        profile: Profile,
    },
    /// The probe of the proxy.
    Probe {
        /// The session.
        session: SessionId,
        /// The profile.
        profile: Profile,
        /// The proxy.
        proxy: HostProxy,
    },
    /// The browser.
    Launch {
        /// The session.
        session: SessionId,
        /// The profile.
        profile_id: ProfileId,
        /// Where it runs.
        target: Target,
    },
    /// The record of the launch.
    Touch {
        /// The session.
        session: SessionId,
        /// Where it runs.
        target: Target,
    },
    /// The kill switch, after a start failed.
    Sever {
        /// The session.
        session: SessionId,
        /// Why the start failed.
        error: Error,
    },
    /// A teardown step.
    TearDown {
        /// The session.
        session: SessionId,
        /// Its profile.
        profile_id: ProfileId,
        /// All steps.
        plan: Vec<TeardownStep>,
        /// The step in progress.
        at: usize,
        /// How the teardown ends.
        ending: Ending,
    },
    /// Nothing.
    Finished,
}

impl Flow {
    /// Whether the flow waits for such an event.
    pub open spec fn awaits(self, event: Event) -> bool {
        match self {
            Flow::FetchProfile { .. } => event is Profile,
            Flow::TakeLock { .. } => event is Lease,
            Flow::MakeKey { .. } => event is Key,
            Flow::ProvisionGateway { .. } | Flow::ProvisionBrowser { .. } => event is Vm,
            Flow::Preflight { .. } => event is Checklist,
            Flow::HostPrepare { .. } => event is HostProxy,
            Flow::Probe { .. } => event is Reachable,
            Flow::Launch { .. } => event is Launched,
            Flow::DropLock { .. } | Flow::Configure { .. } | Flow::Firewall { .. }
            | Flow::StartGateway { .. } | Flow::StartBrowser { .. } | Flow::Touch { .. }
            | Flow::Sever { .. } => event is Done,
            Flow::TearDown { plan, at, .. } => event is Done && at < plan@.len(),
            Flow::Finished => false,
        }
    }

    /// Whether the flow waits for such an event.
    #[must_use]
    pub fn accepts(&self, event: &Event) -> (r: bool)
        ensures
            r == self.awaits(*event),
    {
        match (self, event) {
            (Flow::FetchProfile { .. }, Event::Profile(_)) => true,
            (Flow::TakeLock { .. }, Event::Lease(_)) => true,
            (Flow::MakeKey { .. }, Event::Key(_)) => true,
            (Flow::ProvisionGateway { .. }, Event::Vm(_)) => true,
            (Flow::ProvisionBrowser { .. }, Event::Vm(_)) => true,
            (Flow::Preflight { .. }, Event::Checklist(_)) => true,
            (Flow::HostPrepare { .. }, Event::HostProxy(_)) => true,
            (Flow::Probe { .. }, Event::Reachable(_)) => true,
            (Flow::Launch { .. }, Event::Launched(_)) => true,
            (Flow::DropLock { .. }, Event::Done(_)) => true,
            (Flow::Configure { .. }, Event::Done(_)) => true,
            (Flow::Firewall { .. }, Event::Done(_)) => true,
            (Flow::StartGateway { .. }, Event::Done(_)) => true,
            (Flow::StartBrowser { .. }, Event::Done(_)) => true,
            (Flow::Touch { .. }, Event::Done(_)) => true,
            (Flow::Sever { .. }, Event::Done(_)) => true,
            (Flow::TearDown { plan, at, .. }, Event::Done(_)) => *at < plan.len(),
            _ => false,
        }
    }
}

/// One step of a flow: write the records, then perform the action.
pub struct Step {
    /// The records to write first, in order.
    pub records: Vec<AuditDraft>,
    /// What to do then.
    pub action: Action,
    /// What the flow waits for.
    pub flow: Flow,
}

/// The table of sessions.
pub type Sessions = Map<SessionId, SessionEntry>;

/// Whether the step ends the flow with the given outcome.
pub open spec fn finishes(step: Step, r: Result<SessionSummary, ErrorModel>) -> bool {
    &&& step.flow is Finished
    &&& step.action matches Action::Finish(x) && match (x, r) {
        (Ok(a), Ok(b)) => a == b,
        (Err(a), Err(b)) => a@ == b,
        _ => false,
    }
}

/// The steps that tear a session down: the browser is terminated by the engine
/// that launched it, a disposable directory on the host is removed, both VMs are
/// powered off and destroyed, and last the lock is released.
pub open spec fn teardown_plan(e: SessionEntry, caps: Capabilities) -> Seq<TeardownStep> {
    let browser = match (e.browser_handle, e.mode) {
        (Some(handle), SessionMode::FullVm) => seq![
            TeardownStep::Terminate { target: Target::Vm, handle },
        ],
        (Some(handle), SessionMode::HostProcess { engine, .. }) => if caps.hosts(engine) {
            seq![TeardownStep::Terminate { target: Target::Host(engine), handle }]
        } else {
            Seq::empty()
        },
        _ => Seq::empty(),
    };
    let dir = match e.mode {
        SessionMode::HostProcess { user_data_dir, ephemeral, .. } => if ephemeral {
            seq![TeardownStep::RemoveDir(user_data_dir)]
        } else {
            Seq::empty()
        },
        SessionMode::FullVm => Seq::empty(),
    };
    browser + dir + vm_teardown(VmRole::Browser, e.browser_vm) + vm_teardown(
        VmRole::Gateway,
        e.gateway_vm,
    ) + seq![TeardownStep::Release(e.lease)]
}

/// The steps that remove a VM.
pub open spec fn vm_teardown(role: VmRole, vm: Option<VmId>) -> Seq<TeardownStep> {
    match vm {
        Some(id) => seq![TeardownStep::Shutdown(id), TeardownStep::Destroy(role, id)],
        None => Seq::empty(),
    }
}

/// Whether the step starts to tear a session down, behind the records `prior`.
/// An untracked session has nothing to tear down.
pub open spec fn tears_down(
    caps: Capabilities,
    table: Sessions,
    after: Sessions,
    step: Step,
    session: SessionId,
    ending: EndingModel,
    prior: Seq<RecordModel>,
) -> bool {
    &&& notes(step.records@) == prior
    &&& if table.contains_key(session) {
        &&& after == table.insert(session, table[session].changed(Change::HandleTaken))
        &&& step.flow matches Flow::TearDown { session: s, profile_id, plan, at, ending: en } && {
            &&& s == session
            &&& profile_id == table[session].profile
            &&& plan@ == teardown_plan(table[session], caps)
            &&& at == 0
            &&& en@ == ending
            &&& step.action == Action::Undo(plan@[0])
        }
    } else {
        &&& after == table
        &&& finishes(step, ending.outcome(session, table))
    }
}

/// Whether the step answers the failure of a start, behind the records `prior`:
/// where containment or isolation is at stake, traffic is cut first; else the
/// teardown begins at once.
pub open spec fn fails(
    caps: Capabilities,
    table: Sessions,
    after: Sessions,
    step: Step,
    session: SessionId,
    error: ErrorModel,
    prior: Seq<RecordModel>,
) -> bool {
    if error.severs() {
        &&& after == table
        &&& notes(step.records@) == prior
        &&& step.action is EngageKillSwitch
        &&& step.flow matches Flow::Sever { session: s, error: e } && s == session && e@ == error
    } else {
        tears_down(caps, table, after, step, session, EndingModel::Failed(error), prior)
    }
}

/// Whether the step goes on with the given records, action and flow.
pub open spec fn goes_on(
    step: Step,
    records: Seq<RecordModel>,
    action: Action,
    flow: Flow,
) -> bool {
    &&& notes(step.records@) == records
    &&& step.action == action
    &&& step.flow == flow
}

/// No records.
pub open spec fn silence() -> Seq<RecordModel> {
    Seq::empty()
}

/// A new entry for a session that was just requested.
pub open spec fn fresh_entry(profile: ProfileId, lease: ProfileLease, key: SecretKey) -> SessionEntry {
    SessionEntry {
        profile,
        state: SessionState::Requested,
        lease,
        mode: SessionMode::FullVm,
        gateway_vm: None,
        browser_vm: None,
        browser_handle: None,
        protection: ProtectionStatus::Unprotected,
        public_ip: None,
        ram_key: Some(key),
    }
}

/// What follows where the profile was fetched, or not. A profile that may not
/// start is refused before its lock is taken.
pub open spec fn after_profile(
    pre: Orchestrator,
    after: Sessions,
    step: Step,
    session: SessionId,
    profile_id: ProfileId,
    r: Result<Profile, Error>,
) -> bool {
    &&& after == pre.sessions@
    &&& match r {
        Err(e) => notes(step.records@) == silence() && finishes(step, Err(e@)),
        Ok(profile) => match refusal(profile.spec, pre.enforcement, pre.caps) {
            Some(em) => notes(step.records@) == silence() && finishes(step, Err(em)),
            None => goes_on(
                step,
                silence(),
                Action::AcquireLock(profile_id),
                Flow::TakeLock { session, profile_id, profile },
            ),
        },
    }
}

/// What follows where the lock was taken, or not.
pub open spec fn after_lock(
    pre: Orchestrator,
    after: Sessions,
    step: Step,
    session: SessionId,
    profile_id: ProfileId,
    profile: Profile,
    r: Result<ProfileLease, Error>,
) -> bool {
    &&& after == pre.sessions@
    &&& match r {
        Err(e) => notes(step.records@) == silence() && finishes(step, Err(e@)),
        Ok(lease) => goes_on(
            step,
            silence(),
            Action::GenerateKey,
            Flow::MakeKey { session, profile_id, profile, lease },
        ),
    }
}

/// What follows where the key was generated, or not. Without a key the lock is
/// released again. With one the session is tracked, and set up in a VM or on the
/// host as its profile asks.
pub open spec fn after_key(
    pre: Orchestrator,
    after: Sessions,
    step: Step,
    session: SessionId,
    profile_id: ProfileId,
    profile: Profile,
    lease: ProfileLease,
    r: Result<SecretKey, Error>,
) -> bool {
    match r {
        Err(error) => {
            &&& after == pre.sessions@
            &&& goes_on(step, silence(), Action::ReleaseLock(lease), Flow::DropLock { error })
        },
        Ok(key) => {
            let table = pre.sessions@.insert(session, fresh_entry(profile_id, lease, key));
            let requested = seq![state_record(session, profile_id, SessionState::Requested)];
            match profile.spec.isolation {
                IsolationLevel::FullVm => {
                    &&& after == moved(table, session, SessionState::Provisioning)
                    &&& notes(step.records@) == requested.push(
                        state_record(session, profile_id, SessionState::Provisioning),
                    )
                    &&& step.action matches Action::Provision(req) && is_provision_request(
                        req,
                        pre.settings,
                        VmRole::Gateway,
                        pre.caps.windows,
                    )
                    &&& step.flow == (Flow::ProvisionGateway { session, profile })
                },
                IsolationLevel::HostProcess => {
                    &&& after == table
                    &&& goes_on(
                        step,
                        requested,
                        Action::ReadHostProxy,
                        Flow::HostPrepare { session, profile },
                    )
                },
            }
        },
    }
}

/// The error where a session has vanished during its start.
pub open spec fn vanished() -> ErrorModel {
    ErrorModel::of(ErrorKind::Internal, "session vanished"@)
}

/// What follows where the gateway VM was provisioned, or not.
pub open spec fn after_gateway_vm(
    pre: Orchestrator,
    after: Sessions,
    step: Step,
    session: SessionId,
    profile: Profile,
    r: Result<VmHandle, Error>,
) -> bool {
    let table = pre.sessions@;
    match r {
        Err(e) => fails(pre.caps, table, after, step, session, e@, silence()),
        Ok(vm) => if !table.contains_key(session) {
            fails(pre.caps, table, after, step, session, vanished(), silence())
        } else {
            &&& after == table.insert(
                session,
                table[session].changed(Change::Vm(VmRole::Gateway, vm.id)),
            )
            &&& notes(step.records@) == silence()
            &&& step.action matches Action::Provision(req) && is_provision_request(
                req,
                pre.settings,
                VmRole::Browser,
                pre.caps.windows,
            )
            &&& step.flow == (Flow::ProvisionBrowser { session, profile, gateway: vm.id })
        },
    }
}

/// What follows where the browser VM was provisioned, or not.
pub open spec fn after_browser_vm(
    pre: Orchestrator,
    after: Sessions,
    step: Step,
    session: SessionId,
    profile: Profile,
    gateway: VmId,
    r: Result<VmHandle, Error>,
) -> bool {
    let table = pre.sessions@;
    let next = SessionState::GatewayStarting;
    match r {
        Err(e) => fails(pre.caps, table, after, step, session, e@, silence()),
        Ok(vm) => if !table.contains_key(session) {
            fails(pre.caps, table, after, step, session, vanished(), silence())
        } else {
            let set = table.insert(
                session,
                table[session].changed(Change::Vm(VmRole::Browser, vm.id)),
            );
            if !may_move(set, session, next) {
                fails(
                    pre.caps,
                    set,
                    after,
                    step,
                    session,
                    immovable(set, session, next),
                    silence(),
                )
            } else {
                &&& after == moved(set, session, next)
                &&& notes(step.records@) == seq![
                    state_record(session, table[session].profile, next),
                ]
                &&& step.action matches Action::Configure(c) && is_gateway_config(
                    c,
                    profile.spec.network,
                )
                &&& step.flow == (Flow::Configure { session, profile, gateway, browser: vm.id })
            }
        },
    }
}

/// What follows where the gateway was configured, or not: the fail-closed
/// firewall.
pub open spec fn after_configure(
    pre: Orchestrator,
    after: Sessions,
    step: Step,
    session: SessionId,
    profile: Profile,
    gateway: VmId,
    browser: VmId,
    r: Result<(), Error>,
) -> bool {
    let table = pre.sessions@;
    match r {
        Err(e) => fails(pre.caps, table, after, step, session, e@, silence()),
        Ok(_) => {
            &&& after == table
            &&& goes_on(
                step,
                silence(),
                Action::ApplyFirewall(
                    FirewallPolicy::closed_for(
                        profile.spec.network.mode,
                        profile.spec.network.ipv6,
                    ),
                ),
                Flow::Firewall { session, profile, gateway, browser },
            )
        },
    }
}

/// What follows where a step before preflight was done, or not, with no more to
/// it.
pub open spec fn after_plain(
    pre: Orchestrator,
    after: Sessions,
    step: Step,
    session: SessionId,
    r: Result<(), Error>,
    action: Action,
    flow: Flow,
) -> bool {
    let table = pre.sessions@;
    match r {
        Err(e) => fails(pre.caps, table, after, step, session, e@, silence()),
        Ok(_) => after == table && goes_on(step, silence(), action, flow),
    }
}

/// What follows where the browser VM was started, or not: preflight.
pub open spec fn after_start(
    pre: Orchestrator,
    after: Sessions,
    step: Step,
    session: SessionId,
    profile: Profile,
    r: Result<(), Error>,
) -> bool {
    let table = pre.sessions@;
    let next = SessionState::Preflight;
    match r {
        Err(e) => fails(pre.caps, table, after, step, session, e@, silence()),
        Ok(_) => if !may_move(table, session, next) {
            fails(
                pre.caps,
                table,
                after,
                step,
                session,
                immovable(table, session, next),
                silence(),
            )
        } else {
            &&& after == moved(table, session, next)
            &&& notes(step.records@) == seq![state_record(session, table[session].profile, next)]
            &&& step.action matches Action::RunPreflight(ctx) && is_preflight_context(
                ctx,
                session,
                profile.spec.network,
            )
            &&& step.flow == (Flow::Preflight { session, profile })
        },
    }
}

/// The record of a preflight report.
pub open spec fn check_record(session: SessionId, profile: ProfileId, report: CheckReport) -> RecordModel {
    RecordModel::about(
        if report.outcome is Pass {
            Severity::Info
        } else {
            Severity::Warning
        },
        session,
        profile,
        KindModel::PreflightCheck(report.id.name(), report.outcome.name()),
    )
}

/// The records of the preflight reports, in their order.
pub open spec fn check_records(
    session: SessionId,
    profile: ProfileId,
    reports: Seq<CheckReport>,
) -> Seq<RecordModel> {
    reports.map_values(|r: CheckReport| check_record(session, profile, r))
}

/// The error where preflight does not permit browsing; it names the checks that
/// have not passed.
pub open spec fn preflight_refusal(c: ConnectivityChecklist) -> ErrorModel {
    ErrorModel::of(
        ErrorKind::NetworkContainment,
        "preflight did not permit browsing; failing checks: ["@ + text::joined(
            c.failing().map_values(|id: CheckId| id.name()),
            ", "@,
        ) + "]"@,
    )
}

/// The observed public IP.
pub open spec fn observed(c: ConnectivityChecklist) -> Option<String> {
    match c.observed_ip {
        Some(o) => Some(o.ip),
        None => None,
    }
}

/// What follows where preflight permits browsing: the browser is launched with
/// the vetted bundle of its engine.
pub open spec fn launches(
    caps: Capabilities,
    table: Sessions,
    after: Sessions,
    step: Step,
    session: SessionId,
    profile: Profile,
    target: Target,
    dir: Seq<char>,
    proxy: Seq<char>,
    prior: Seq<RecordModel>,
) -> bool {
    let next = SessionState::Browsing;
    if !may_move(table, session, next) {
        fails(caps, table, after, step, session, immovable(table, session, next), prior)
    } else {
        let browsing = moved(table, session, next);
        let records = prior.push(state_record(session, table[session].profile, next));
        exists|req: BrowserLaunchRequest|
            {
                &&& #[trigger] is_launch_request(req, session, profile, dir, proxy)
                &&& match render_complaint(target.renders(), req) {
                    Some(why) => fails(
                        caps,
                        browsing,
                        after,
                        step,
                        session,
                        ErrorModel::of(ErrorKind::Config, why),
                        records,
                    ),
                    None => {
                        &&& after == browsing
                        &&& notes(step.records@) == records
                        &&& step.action matches Action::Launch { target: t, request, bundle } && t
                            == target && request == req && is_bundle(
                            bundle,
                            target.renders(),
                            req,
                        )
                        &&& step.flow == (Flow::Launch { session, profile_id: profile.id, target })
                    },
                }
            }
    }
}

/// What follows where the checklist ran, or not. Each report is recorded. If any
/// check has not passed, the start fails on containment; there is no partial
/// pass.
pub open spec fn after_preflight(
    pre: Orchestrator,
    after: Sessions,
    step: Step,
    session: SessionId,
    profile: Profile,
    r: Result<ConnectivityChecklist, Error>,
) -> bool {
    let table = pre.sessions@;
    match r {
        Err(e) => fails(pre.caps, table, after, step, session, e@, silence()),
        Ok(c) => {
            let records = check_records(session, profile.id, c.reports@);
            let checked = if table.contains_key(session) {
                table.insert(
                    session,
                    table[session].changed(Change::Checked(c.aggregate(), observed(c))),
                )
            } else {
                table
            };
            if !c.complete() {
                fails(pre.caps, checked, after, step, session, preflight_refusal(c), records)
            } else {
                launches(
                    pre.caps,
                    checked,
                    after,
                    step,
                    session,
                    profile,
                    Target::Vm,
                    GUEST_PROFILE_DIR@,
                    gateway_proxy(profile.spec.network.mode),
                    records,
                )
            }
        },
    }
}

/// What follows where the environment was asked for a proxy: the engine must be
/// on the host, and the proxy must have a host and a port to probe.
pub open spec fn after_host_proxy(
    pre: Orchestrator,
    after: Sessions,
    step: Step,
    session: SessionId,
    profile: Profile,
    named: Option<String>,
) -> bool {
    let table = pre.sessions@;
    let engine = profile.spec.browser;
    if !pre.caps.hosts(engine) {
        fails(pre.caps, table, after, step, session, no_host_browser(engine), silence())
    } else {
        match host_endpoint(profile.spec.network.mode, text::opt_text(named)) {
            Err(em) => fails(pre.caps, table, after, step, session, em, silence()),
            Ok(endpoint) => match proxy_authority(endpoint) {
                Err(why) => fails(
                    pre.caps,
                    table,
                    after,
                    step,
                    session,
                    ErrorModel::of(ErrorKind::Config, why),
                    silence(),
                ),
                Ok((host, port)) => if !may_move(table, session, SessionState::Provisioning) {
                    fails(
                        pre.caps,
                        table,
                        after,
                        step,
                        session,
                        immovable(table, session, SessionState::Provisioning),
                        silence(),
                    )
                } else {
                    let p = table[session].profile;
                    &&& after == moved(table, session, SessionState::Preflight)
                    &&& notes(step.records@) == seq![
                        state_record(session, p, SessionState::Provisioning),
                        state_record(session, p, SessionState::GatewayStarting),
                        state_record(session, p, SessionState::Preflight),
                    ]
                    &&& step.action matches Action::ProbeProxy { host: h, port: n } && h@ == host
                        && n == port
                    &&& step.flow matches Flow::Probe { session: s, profile: q, proxy } && s
                        == session && q == profile && proxy.reads(endpoint)
                },
            },
        }
    }
}

/// The error where the proxy on the host is not reachable.
pub open spec fn unreachable_proxy(proxy: HostProxy) -> ErrorModel {
    ErrorModel::of(
        ErrorKind::NetworkContainment,
        "host-mode proxy at "@ + proxy.probe_host@ + ":"@ + text::dec(proxy.probe_port as nat)
            + " is not reachable; refusing to launch the host browser (it would leak onto the host's default route)"@,
    )
}

/// The record of a proxy that is reachable.
pub open spec fn proxy_record(session: SessionId, profile: ProfileId) -> RecordModel {
    RecordModel::about(
        Severity::Info,
        session,
        profile,
        KindModel::PreflightCheck("host_proxy_reachable"@, "pass"@),
    )
}

/// What follows where the proxy was probed, or not. A proxy that is not
/// reachable fails the start on containment.
pub open spec fn after_probe(
    pre: Orchestrator,
    after: Sessions,
    step: Step,
    session: SessionId,
    profile: Profile,
    proxy: HostProxy,
    r: Result<bool, Error>,
) -> bool {
    let table = pre.sessions@;
    match r {
        Err(e) => fails(pre.caps, table, after, step, session, e@, silence()),
        Ok(false) => fails(
            pre.caps,
            table,
            after,
            step,
            session,
            unreachable_proxy(proxy),
            silence(),
        ),
        Ok(true) => {
            let dir = host_profile_dir(pre.settings.paths.runtime_dir@, profile.id, pre.caps.windows);
            exists|mode: SessionMode|
                {
                    &&& #[trigger] is_host_mode(mode, profile, dir)
                    &&& launches(
                        pre.caps,
                        if table.contains_key(session) {
                            table.insert(session, table[session].changed(Change::Hosted(mode)))
                        } else {
                            table
                        },
                        after,
                        step,
                        session,
                        profile,
                        Target::Host(profile.spec.browser),
                        dir,
                        proxy.endpoint@,
                        seq![proxy_record(session, profile.id)],
                    )
                }
        },
    }
}

/// Whether `mode` is how a profile runs on the host.
pub open spec fn is_host_mode(mode: SessionMode, profile: Profile, dir: Seq<char>) -> bool {
    mode matches SessionMode::HostProcess { user_data_dir, ephemeral, engine } && {
        &&& user_data_dir@ == dir
        &&& ephemeral == (profile.spec.kind == ProfileType::Ephemeral)
        &&& engine == profile.spec.browser
    }
}

/// The record of a browser on the host: protection is reduced.
pub open spec fn host_record(session: SessionId, profile: ProfileId) -> RecordModel {
    RecordModel::about(
        Severity::Warning,
        session,
        profile,
        KindModel::SessionState(
            "host-process browsing (reduced protection: "@ + IsolationLevel::HostProcess.name()
                + ")"@,
        ),
    )
}

/// What follows where the browser was launched, or not.
pub open spec fn after_launch(
    pre: Orchestrator,
    after: Sessions,
    step: Step,
    session: SessionId,
    profile: ProfileId,
    target: Target,
    r: Result<BrowserHandle, Error>,
) -> bool {
    let table = pre.sessions@;
    match r {
        Err(e) => fails(pre.caps, table, after, step, session, e@, silence()),
        Ok(handle) => if !table.contains_key(session) {
            fails(pre.caps, table, after, step, session, vanished(), silence())
        } else {
            &&& after == table.insert(session, table[session].changed(Change::Launched(handle)))
            &&& goes_on(
                step,
                if target is Vm {
                    silence()
                } else {
                    seq![host_record(session, profile)]
                },
                Action::TouchLaunch(profile),
                Flow::Touch { session, target },
            )
        },
    }
}

/// What follows where the launch was recorded on the profile, or not: the start
/// has succeeded.
pub open spec fn after_touch(
    pre: Orchestrator,
    after: Sessions,
    step: Step,
    session: SessionId,
    target: Target,
) -> bool {
    let table = pre.sessions@;
    if table.contains_key(session) {
        &&& after == table
        &&& notes(step.records@) == silence()
        &&& finishes(step, Ok(table[session].summarized(session)))
    } else {
        fails(
            pre.caps,
            table,
            after,
            step,
            session,
            ErrorModel::of(
                ErrorKind::Internal,
                if target is Vm {
                    "session vanished during start"@
                } else {
                    "session vanished during host start"@
                },
            ),
            silence(),
        )
    }
}

/// The records of a cut: why, and that the kill switch is engaged.
pub open spec fn severed_records(
    table: Sessions,
    session: SessionId,
    class: FailureClass,
    reason: Seq<char>,
) -> Seq<RecordModel> {
    seq![
        RecordModel {
            severity: Severity::Critical,
            session: Some(session),
            profile: if table.contains_key(session) {
                Some(table[session].profile)
            } else {
                None
            },
            kind: KindModel::FailClosed(class, reason),
        },
        RecordModel {
            severity: Severity::Critical,
            session: None,
            profile: None,
            kind: KindModel::KillSwitch("engaged"@),
        },
    ]
}

/// What follows where traffic was cut, or could not be: the failure is recorded
/// and the session is torn down.
pub open spec fn after_sever(
    pre: Orchestrator,
    after: Sessions,
    step: Step,
    session: SessionId,
    error: Error,
) -> bool {
    tears_down(
        pre.caps,
        pre.sessions@,
        after,
        step,
        session,
        EndingModel::Failed(error@),
        severed_records(pre.sessions@, session, error.classified(), error.shown()),
    )
}

/// The record of a VM that was destroyed, where a teardown step was that and
/// succeeded.
pub open spec fn undone_records(
    session: SessionId,
    profile: ProfileId,
    done: TeardownStep,
    ok: bool,
) -> Seq<RecordModel> {
    match done {
        TeardownStep::Destroy(role, _) => if ok {
            seq![
                RecordModel::about(
                    Severity::Info,
                    session,
                    profile,
                    KindModel::Vm(role.name(), "destroyed"@),
                ),
            ]
        } else {
            silence()
        },
        _ => silence(),
    }
}

/// What follows a teardown step, whatever came of it: the next step, or the end.
pub open spec fn after_undo(
    pre: Orchestrator,
    after: Sessions,
    step: Step,
    session: SessionId,
    profile: ProfileId,
    plan: Seq<TeardownStep>,
    at: int,
    ending: Ending,
    r: Result<(), Error>,
) -> bool {
    let table = pre.sessions@;
    let records = undone_records(session, profile, plan[at], r is Ok);
    if at + 1 < plan.len() {
        &&& after == table
        &&& notes(step.records@) == records
        &&& step.action == Action::Undo(plan[at + 1])
        &&& step.flow matches Flow::TearDown { session: s, profile_id: p, plan: q, at: i, ending: e }
            && s == session && p == profile && q@ == plan && i == at + 1 && e == ending
    } else {
        let last = if table.contains_key(session) {
            table.insert(session, table[session].changed(Change::Ended(ending@.state())))
        } else {
            table
        };
        &&& after == last
        &&& notes(step.records@) == records.push(
            state_record(session, profile, ending@.state()),
        )
        &&& finishes(step, ending@.outcome(session, last))
    }
}

/// What follows an event that the flow waits for.
pub open spec fn advanced(
    pre: Orchestrator,
    flow: Flow,
    event: Event,
    after: Sessions,
    step: Step,
) -> bool {
    match (flow, event) {
        (Flow::FetchProfile { session, profile_id }, Event::Profile(r)) => after_profile(
            pre,
            after,
            step,
            session,
            profile_id,
            r,
        ),
        (Flow::TakeLock { session, profile_id, profile }, Event::Lease(r)) => after_lock(
            pre,
            after,
            step,
            session,
            profile_id,
            profile,
            r,
        ),
        (Flow::MakeKey { session, profile_id, profile, lease }, Event::Key(r)) => after_key(
            pre,
            after,
            step,
            session,
            profile_id,
            profile,
            lease,
            r,
        ),
        (Flow::DropLock { error }, Event::Done(_)) => {
            &&& after == pre.sessions@
            &&& notes(step.records@) == silence()
            &&& finishes(step, Err(error@))
        },
        (Flow::ProvisionGateway { session, profile }, Event::Vm(r)) => after_gateway_vm(
            pre,
            after,
            step,
            session,
            profile,
            r,
        ),
        (Flow::ProvisionBrowser { session, profile, gateway }, Event::Vm(r)) => after_browser_vm(
            pre,
            after,
            step,
            session,
            profile,
            gateway,
            r,
        ),
        (Flow::Configure { session, profile, gateway, browser }, Event::Done(r)) => {
            after_configure(pre, after, step, session, profile, gateway, browser, r)
        },
        (Flow::Firewall { session, profile, gateway, browser }, Event::Done(r)) => after_plain(
            pre,
            after,
            step,
            session,
            r,
            Action::StartVm(gateway),
            Flow::StartGateway { session, profile, browser },
        ),
        (Flow::StartGateway { session, profile, browser }, Event::Done(r)) => after_plain(
            pre,
            after,
            step,
            session,
            r,
            Action::StartVm(browser),
            Flow::StartBrowser { session, profile },
        ),
        (Flow::StartBrowser { session, profile }, Event::Done(r)) => after_start(
            pre,
            after,
            step,
            session,
            profile,
            r,
        ),
        (Flow::Preflight { session, profile }, Event::Checklist(r)) => after_preflight(
            pre,
            after,
            step,
            session,
            profile,
            r,
        ),
        (Flow::HostPrepare { session, profile }, Event::HostProxy(named)) => after_host_proxy(
            pre,
            after,
            step,
            session,
            profile,
            named,
        ),
        (Flow::Probe { session, profile, proxy }, Event::Reachable(r)) => after_probe(
            pre,
            after,
            step,
            session,
            profile,
            proxy,
            r,
        ),
        (Flow::Launch { session, profile_id, target }, Event::Launched(r)) => after_launch(
            pre,
            after,
            step,
            session,
            profile_id,
            target,
            r,
        ),
        (Flow::Touch { session, target }, Event::Done(_)) => after_touch(
            pre,
            after,
            step,
            session,
            target,
        ),
        (Flow::Sever { session, error }, Event::Done(_)) => after_sever(
            pre,
            after,
            step,
            session,
            error,
        ),
        (Flow::TearDown { session, profile_id, plan, at, ending }, Event::Done(r)) => after_undo(
            pre,
            after,
            step,
            session,
            profile_id,
            plan@,
            at as int,
            ending,
            r,
        ),
        _ => false,
    }
}

impl Step {
    fn finish(records: Vec<AuditDraft>, outcome: Result<SessionSummary, Error>) -> (r: Step)
        ensures
            r.records@ == records@,
            r.flow is Finished,
            r.action == Action::Finish(outcome),
    {
        Step { records, action: Action::Finish(outcome), flow: Flow::Finished }
    }

    fn then_do(action: Action, flow: Flow) -> (r: Step)
        ensures
            goes_on(r, silence(), action, flow),
    {
        let records: Vec<AuditDraft> = Vec::new();
        assert(notes(records@) =~= silence());
        Step { records, action, flow }
    }
}

fn no_records() -> (r: Vec<AuditDraft>)
    ensures
        notes(r@) == silence(),
{
    let r: Vec<AuditDraft> = Vec::new();
    assert(notes(r@) =~= silence());
    r
}

fn undo_vm(plan: &mut Vec<TeardownStep>, role: VmRole, vm: Option<VmId>)
    ensures
        final(plan)@ == old(plan)@ + vm_teardown(role, vm),
{
    if let Some(id) = vm {
        plan.push(TeardownStep::Shutdown(id));
        plan.push(TeardownStep::Destroy(role, id));
    }
    assert(plan@ =~= old(plan)@ + vm_teardown(role, vm));
}

/// The steps that tear a session down.
pub fn plan_teardown(e: &SessionEntry, caps: &Capabilities) -> (r: Vec<TeardownStep>)
    ensures
        r@ == teardown_plan(*e, *caps),
        r@.len() > 0,
{
    let mut plan: Vec<TeardownStep> = Vec::new();
    if let Some(h) = &e.browser_handle {
        match &e.mode {
            SessionMode::FullVm => {
                plan.push(TeardownStep::Terminate { target: Target::Vm, handle: h.clone() });
            },
            SessionMode::HostProcess { engine, .. } => {
                if caps.host_backend_for(*engine).is_ok() {
                    plan.push(
                        TeardownStep::Terminate { target: Target::Host(*engine), handle: h.clone() },
                    );
                }
            },
        }
    }
    let ghost browser = plan@;
    if let SessionMode::HostProcess { user_data_dir, ephemeral, .. } = &e.mode {
        if *ephemeral {
            plan.push(TeardownStep::RemoveDir(user_data_dir.clone()));
        }
    }
    let ghost dir = plan@.skip(browser.len() as int);
    assert(plan@ =~= browser + dir);
    undo_vm(&mut plan, VmRole::Browser, e.browser_vm);
    undo_vm(&mut plan, VmRole::Gateway, e.gateway_vm);
    plan.push(TeardownStep::Release(e.lease.clone()));
    assert(plan@ =~= teardown_plan(*e, *caps));
    plan
}

/// The drafts of the preflight reports, in their order.
fn check_drafts(session: SessionId, profile: ProfileId, reports: &Vec<CheckReport>) -> (r: Vec<
    AuditDraft,
>)
    ensures
        notes(r@) == check_records(session, profile, reports@),
{
    let mut out: Vec<AuditDraft> = Vec::new();
    let mut i: usize = 0;
    assert(notes(out@) =~= check_records(session, profile, reports@.take(0)));
    while i < reports.len()
        invariant
            i <= reports@.len(),
            notes(out@) == check_records(session, profile, reports@.take(i as int)),
        decreases reports@.len() - i,
    {
        let report = &reports[i];
        let severity = if report.outcome.is_pass() {
            Severity::Info
        } else {
            Severity::Warning
        };
        let draft = AuditDraft::about(
            severity,
            session,
            profile,
            EventKind::PreflightCheck {
                check: report.id.as_str().to_owned(),
                outcome: report.outcome.as_str().to_owned(),
            },
        );
        assert(draft@ == check_record(session, profile, *report));
        note(&mut out, draft);
        i += 1;
        assert(check_records(session, profile, reports@.take(i as int)) =~= check_records(
            session,
            profile,
            reports@.take(i - 1),
        ).push(check_record(session, profile, reports@[i - 1])));
    }
    assert(reports@.take(i as int) =~= reports@);
    out
}

/// The error where preflight does not permit browsing.
fn preflight_error(c: &ConnectivityChecklist) -> (r: Error)
    ensures
        r@ == preflight_refusal(*c),
{
    let failing = c.failures();
    let mut names: Vec<&str> = Vec::new();
    let mut i: usize = 0;
    while i < failing.len()
        invariant
            i <= failing@.len(),
            names@.len() == i,
            forall|j: int| 0 <= j < i ==> (#[trigger] names@[j])@ == failing@[j].name(),
        decreases failing@.len() - i,
    {
        names.push(failing[i].as_str());
        i += 1;
    }
    assert(names@.map_values(|s: &str| s@) =~= failing@.map_values(|id: CheckId| id.name()));
    let list = text::join(&names, ", ");
    Error::NetworkContainment(
        text::cat3(
            "preflight did not permit browsing; failing checks: [",
            list.as_str(),
            "]",
        ),
    )
}

impl Orchestrator {
    fn start_teardown(&mut self, session: SessionId, ending: Ending, records: Vec<AuditDraft>) -> (r:
        Step)
        ensures
            final(self).same_setup(*old(self)),
            tears_down(
                old(self).caps,
                old(self).sessions@,
                final(self).sessions@,
                r,
                session,
                ending@,
                notes(records@),
            ),
    {
        let (plan, profile) = match self.sessions.get(session) {
            Some(e) => (plan_teardown(e, &self.caps), e.profile),
            None => {
                return match ending {
                    Ending::Failed(e) => Step::finish(records, Err(e)),
                    Ending::Stopped => Step::finish(records, Err(unknown_session_error(session))),
                };
            },
        };
        let _ = self.sessions.change(session, Change::HandleTaken);
        let first = plan[0].clone();
        Step {
            records,
            action: Action::Undo(first),
            flow: Flow::TearDown { session, profile_id: profile, plan, at: 0, ending },
        }
    }

    fn fail(&mut self, session: SessionId, error: Error, records: Vec<AuditDraft>) -> (r: Step)
        ensures
            final(self).same_setup(*old(self)),
            fails(
                old(self).caps,
                old(self).sessions@,
                final(self).sessions@,
                r,
                session,
                error@,
                notes(records@),
            ),
    {
        if error.requires_killswitch() {
            Step {
                records,
                action: Action::EngageKillSwitch,
                flow: Flow::Sever { session, error },
            }
        } else {
            self.start_teardown(session, Ending::Failed(error), records)
        }
    }

    /// The first step of starting a session of a profile, for a fresh random
    /// session.
    pub fn begin_start(&self, profile: ProfileId) -> (r: Step)
        ensures
            exists|session: SessionId|
                goes_on(
                    r,
                    silence(),
                    Action::GetProfile(profile),
                    (#[trigger] first_flow(session, profile)),
                ),
    {
        let session = SessionId::new();
        let r = self.begin_start_as(session, profile);
        assert(r.flow == first_flow(session, profile));
        r
    }

    /// The first step of starting the given session of a profile.
    pub fn begin_start_as(&self, session: SessionId, profile: ProfileId) -> (r: Step)
        ensures
            goes_on(
                r,
                silence(),
                Action::GetProfile(profile),
                first_flow(session, profile),
            ),
    {
        Step::then_do(
            Action::GetProfile(profile),
            Flow::FetchProfile { session, profile_id: profile },
        )
    }

    /// The first step of stopping a session. A session that cannot be closed
    /// any more is torn down all the same; an unknown session is refused.
    pub fn begin_stop(&mut self, session: SessionId) -> (r: Step)
        ensures
            final(self).same_setup(*old(self)),
            stop_begun(*old(self), final(self).sessions@, r, session),
    {
        if self.sessions.get(session).is_none() {
            return Step::finish(no_records(), Err(unknown_session_error(session)));
        }
        let mut records = no_records();
        if let Ok(draft) = self.transition(session, SessionState::Closing) {
            note(&mut records, draft);
            assert(notes(records@) =~= seq![draft@]);
        }
        self.start_teardown(session, Ending::Stopped, records)
    }

    fn on_profile(
        &mut self,
        session: SessionId,
        profile_id: ProfileId,
        r: Result<Profile, Error>,
    ) -> (step: Step)
        ensures
            *final(self) == *old(self),
            after_profile(*old(self), final(self).sessions@, step, session, profile_id, r),
    {
        let profile = match r {
            Ok(p) => p,
            Err(e) => {
                return Step::finish(no_records(), Err(e));
            },
        };
        if let Err(e) = self.check_start(&profile.spec) {
            return Step::finish(no_records(), Err(e));
        }
        Step::then_do(
            Action::AcquireLock(profile_id),
            Flow::TakeLock { session, profile_id, profile },
        )
    }

    fn on_lock(
        &mut self,
        session: SessionId,
        profile_id: ProfileId,
        profile: Profile,
        r: Result<ProfileLease, Error>,
    ) -> (step: Step)
        ensures
            *final(self) == *old(self),
            after_lock(*old(self), final(self).sessions@, step, session, profile_id, profile, r),
    {
        match r {
            Ok(lease) => Step::then_do(
                Action::GenerateKey,
                Flow::MakeKey { session, profile_id, profile, lease },
            ),
            Err(e) => Step::finish(no_records(), Err(e)),
        }
    }

    fn on_key(
        &mut self,
        session: SessionId,
        profile_id: ProfileId,
        profile: Profile,
        lease: ProfileLease,
        r: Result<SecretKey, Error>,
    ) -> (step: Step)
        ensures
            final(self).same_setup(*old(self)),
            after_key(
                *old(self),
                final(self).sessions@,
                step,
                session,
                profile_id,
                profile,
                lease,
                r,
            ),
    {
        let key = match r {
            Ok(k) => k,
            Err(error) => {
                return Step::then_do(Action::ReleaseLock(lease), Flow::DropLock { error });
            },
        };
        self.sessions.insert(
            session,
            SessionEntry {
                profile: profile_id,
                state: SessionState::Requested,
                lease,
                mode: SessionMode::FullVm,
                gateway_vm: None,
                browser_vm: None,
                browser_handle: None,
                protection: ProtectionStatus::Unprotected,
                public_ip: None,
                ram_key: Some(key),
            },
        );
        let mut records = no_records();
        let requested = state_draft(session, profile_id, SessionState::Requested);
        note(&mut records, requested);
        assert(notes(records@) =~= seq![requested@]);
        match profile.spec.isolation {
            IsolationLevel::HostProcess => Step {
                records,
                action: Action::ReadHostProxy,
                flow: Flow::HostPrepare { session, profile },
            },
            IsolationLevel::FullVm => {
                proof {
                    lemma_start_path();
                }
                match self.transition(session, SessionState::Provisioning) {
                    Ok(draft) => {
                        note(&mut records, draft);
                        Step {
                            records,
                            action: Action::Provision(
                                provision_request(
                                    &self.settings,
                                    VmRole::Gateway,
                                    self.caps.windows,
                                ),
                            ),
                            flow: Flow::ProvisionGateway { session, profile },
                        }
                    },
                    Err(e) => self.fail(session, e, records),
                }
            },
        }
    }

    fn on_gateway_vm(
        &mut self,
        session: SessionId,
        profile: Profile,
        r: Result<VmHandle, Error>,
    ) -> (step: Step)
        ensures
            final(self).same_setup(*old(self)),
            after_gateway_vm(*old(self), final(self).sessions@, step, session, profile, r),
    {
        let vm = match r {
            Ok(h) => h.id,
            Err(e) => {
                return self.fail(session, e, no_records());
            },
        };
        if !self.sessions.change(session, Change::Vm(VmRole::Gateway, vm)) {
            return self.fail(session, Error::Internal("session vanished".to_owned()), no_records());
        }
        Step::then_do(
            Action::Provision(
                provision_request(&self.settings, VmRole::Browser, self.caps.windows),
            ),
            Flow::ProvisionBrowser { session, profile, gateway: vm },
        )
    }

    fn on_browser_vm(
        &mut self,
        session: SessionId,
        profile: Profile,
        gateway: VmId,
        r: Result<VmHandle, Error>,
    ) -> (step: Step)
        ensures
            final(self).same_setup(*old(self)),
            after_browser_vm(*old(self), final(self).sessions@, step, session, profile, gateway, r),
    {
        let vm = match r {
            Ok(h) => h.id,
            Err(e) => {
                return self.fail(session, e, no_records());
            },
        };
        if !self.sessions.change(session, Change::Vm(VmRole::Browser, vm)) {
            return self.fail(session, Error::Internal("session vanished".to_owned()), no_records());
        }
        match self.transition(session, SessionState::GatewayStarting) {
            Ok(draft) => {
                let mut records = no_records();
                note(&mut records, draft);
                assert(notes(records@) =~= seq![draft@]);
                Step {
                    records,
                    action: Action::Configure(gateway_config(&profile.spec.network)),
                    flow: Flow::Configure { session, profile, gateway, browser: vm },
                }
            },
            Err(e) => self.fail(session, e, no_records()),
        }
    }

    fn on_configure(
        &mut self,
        session: SessionId,
        profile: Profile,
        gateway: VmId,
        browser: VmId,
        r: Result<(), Error>,
    ) -> (step: Step)
        ensures
            final(self).same_setup(*old(self)),
            after_configure(
                *old(self),
                final(self).sessions@,
                step,
                session,
                profile,
                gateway,
                browser,
                r,
            ),
    {
        match r {
            Ok(_) => {
                let config = gateway_config(&profile.spec.network);
                Step::then_do(
                    Action::ApplyFirewall(FirewallPolicy::fail_closed(&config)),
                    Flow::Firewall { session, profile, gateway, browser },
                )
            },
            Err(e) => self.fail(session, e, no_records()),
        }
    }

    fn on_plain(
        &mut self,
        session: SessionId,
        r: Result<(), Error>,
        action: Action,
        flow: Flow,
    ) -> (step: Step)
        ensures
            final(self).same_setup(*old(self)),
            after_plain(*old(self), final(self).sessions@, step, session, r, action, flow),
    {
        match r {
            Ok(_) => Step::then_do(action, flow),
            Err(e) => self.fail(session, e, no_records()),
        }
    }

    fn on_start(&mut self, session: SessionId, profile: Profile, r: Result<(), Error>) -> (step:
        Step)
        ensures
            final(self).same_setup(*old(self)),
            after_start(*old(self), final(self).sessions@, step, session, profile, r),
    {
        if let Err(e) = r {
            return self.fail(session, e, no_records());
        }
        match self.transition(session, SessionState::Preflight) {
            Ok(draft) => {
                let mut records = no_records();
                note(&mut records, draft);
                assert(notes(records@) =~= seq![draft@]);
                Step {
                    records,
                    action: Action::RunPreflight(preflight_context(session, &profile.spec.network)),
                    flow: Flow::Preflight { session, profile },
                }
            },
            Err(e) => self.fail(session, e, no_records()),
        }
    }

    fn launch(
        &mut self,
        session: SessionId,
        profile: &Profile,
        target: Target,
        request: BrowserLaunchRequest,
        records: Vec<AuditDraft>,
    ) -> (step: Step)
        requires
            is_launch_request(
                request,
                session,
                *profile,
                request.user_data_dir@,
                request.proxy_endpoint@,
            ),
        ensures
            final(self).same_setup(*old(self)),
            launches(
                old(self).caps,
                old(self).sessions@,
                final(self).sessions@,
                step,
                session,
                *profile,
                target,
                request.user_data_dir@,
                request.proxy_endpoint@,
                notes(records@),
            ),
    {
        let mut records = records;
        match self.transition(session, SessionState::Browsing) {
            Ok(draft) => {
                note(&mut records, draft);
            },
            Err(e) => {
                return self.fail(session, e, records);
            },
        }
        match render_vetted(target.engine(), &request) {
            Ok(bundle) => Step {
                records,
                action: Action::Launch { target, request, bundle },
                flow: Flow::Launch { session, profile_id: profile.id, target },
            },
            Err(e) => self.fail(session, e, records),
        }
    }

    fn on_preflight(
        &mut self,
        session: SessionId,
        profile: Profile,
        r: Result<ConnectivityChecklist, Error>,
    ) -> (step: Step)
        ensures
            final(self).same_setup(*old(self)),
            after_preflight(*old(self), final(self).sessions@, step, session, profile, r),
    {
        let checklist = match r {
            Ok(c) => c,
            Err(e) => {
                return self.fail(session, e, no_records());
            },
        };
        let records = check_drafts(session, profile.id, &checklist.reports);
        let ip = match &checklist.observed_ip {
            Some(o) => Some(o.ip.clone()),
            None => None,
        };
        let _ = self.sessions.change(session, Change::Checked(checklist.status(), ip));
        if !checklist.permits_browsing() {
            let error = preflight_error(&checklist);
            return self.fail(session, error, records);
        }
        let request = browser_launch_request(session, &profile);
        self.launch(session, &profile, Target::Vm, request, records)
    }

    fn on_host_proxy(
        &mut self,
        session: SessionId,
        profile: Profile,
        named: Option<String>,
    ) -> (step: Step)
        ensures
            final(self).same_setup(*old(self)),
            after_host_proxy(*old(self), final(self).sessions@, step, session, profile, named),
    {
        if let Err(e) = self.caps.host_backend_for(profile.spec.browser) {
            return self.fail(session, e, no_records());
        }
        let proxy = match host_proxy_endpoint(&profile.spec.network.mode, named) {
            Ok(p) => p,
            Err(e) => {
                return self.fail(session, e, no_records());
            },
        };
        let mut records = no_records();
        proof {
            lemma_start_path();
        }
        let ghost table = self.sessions@;
        match self.transition(session, SessionState::Provisioning) {
            Ok(draft) => {
                note(&mut records, draft);
            },
            Err(e) => {
                return self.fail(session, e, no_records());
            },
        }
        match self.transition(session, SessionState::GatewayStarting) {
            Ok(draft) => {
                note(&mut records, draft);
            },
            Err(e) => {
                return self.fail(session, e, records);
            },
        }
        match self.transition(session, SessionState::Preflight) {
            Ok(draft) => {
                note(&mut records, draft);
            },
            Err(e) => {
                return self.fail(session, e, records);
            },
        }
        proof {
            let p = table[session].profile;
            assert(notes(records@) =~= seq![
                state_record(session, p, SessionState::Provisioning),
                state_record(session, p, SessionState::GatewayStarting),
                state_record(session, p, SessionState::Preflight),
            ]);
            assert(self.sessions@ =~= moved(table, session, SessionState::Preflight));
        }
        Step {
            records,
            action: Action::ProbeProxy { host: proxy.probe_host.clone(), port: proxy.probe_port },
            flow: Flow::Probe { session, profile, proxy },
        }
    }

    fn on_probe(
        &mut self,
        session: SessionId,
        profile: Profile,
        proxy: HostProxy,
        r: Result<bool, Error>,
    ) -> (step: Step)
        ensures
            final(self).same_setup(*old(self)),
            after_probe(*old(self), final(self).sessions@, step, session, profile, proxy, r),
    {
        let reachable = match r {
            Ok(b) => b,
            Err(e) => {
                return self.fail(session, e, no_records());
            },
        };
        if !reachable {
            let port = text::decimal(proxy.probe_port as u64);
            let error = Error::NetworkContainment(
                text::cat5(
                    "host-mode proxy at ",
                    proxy.probe_host.as_str(),
                    ":",
                    port.as_str(),
                    " is not reachable; refusing to launch the host browser (it would leak onto the host's default route)",
                ),
            );
            return self.fail(session, error, no_records());
        }
        let mut records = no_records();
        let draft = AuditDraft::about(
            Severity::Info,
            session,
            profile.id,
            EventKind::PreflightCheck {
                check: "host_proxy_reachable".to_owned(),
                outcome: "pass".to_owned(),
            },
        );
        note(&mut records, draft);
        assert(notes(records@) =~= seq![proxy_record(session, profile.id)]);
        let windows = self.caps.windows;
        let base = text::join_path(
            self.settings.paths.runtime_dir.as_str(),
            "host-profiles",
            windows,
        );
        let dir = text::join_path(base.as_str(), profile.id.text().as_str(), windows);
        let mode = SessionMode::HostProcess {
            user_data_dir: dir.clone(),
            ephemeral: profile.spec.kind.is_ephemeral(),
            engine: profile.spec.browser,
        };
        assert(is_host_mode(
            mode,
            profile,
            host_profile_dir(self.settings.paths.runtime_dir@, profile.id, windows),
        ));
        let _ = self.sessions.change(session, Change::Hosted(mode));
        let target = Target::Host(profile.spec.browser);
        let request = host_launch_request(session, &profile, dir, proxy.endpoint);
        self.launch(session, &profile, target, request, records)
    }

    fn on_launch(
        &mut self,
        session: SessionId,
        profile: ProfileId,
        target: Target,
        r: Result<BrowserHandle, Error>,
    ) -> (step: Step)
        ensures
            final(self).same_setup(*old(self)),
            after_launch(*old(self), final(self).sessions@, step, session, profile, target, r),
    {
        let handle = match r {
            Ok(h) => h,
            Err(e) => {
                return self.fail(session, e, no_records());
            },
        };
        if !self.sessions.change(session, Change::Launched(handle)) {
            return self.fail(session, Error::Internal("session vanished".to_owned()), no_records());
        }
        let mut records = no_records();
        if let Target::Host(_) = target {
            let draft = AuditDraft::about(
                Severity::Warning,
                session,
                profile,
                EventKind::SessionState {
                    state: text::cat3(
                        "host-process browsing (reduced protection: ",
                        IsolationLevel::HostProcess.label(),
                        ")",
                    ),
                },
            );
            note(&mut records, draft);
            assert(notes(records@) =~= seq![host_record(session, profile)]);
        }
        Step {
            records,
            action: Action::TouchLaunch(profile),
            flow: Flow::Touch { session, target },
        }
    }

    fn on_touch(&mut self, session: SessionId, target: Target) -> (step: Step)
        ensures
            final(self).same_setup(*old(self)),
            after_touch(*old(self), final(self).sessions@, step, session, target),
    {
        let summary = match self.sessions.get(session) {
            Some(e) => Some(e.summary(session)),
            None => None,
        };
        match summary {
            Some(s) => Step::finish(no_records(), Ok(s)),
            None => {
                let why = match target {
                    Target::Vm => "session vanished during start",
                    Target::Host(_) => "session vanished during host start",
                };
                self.fail(session, Error::Internal(why.to_owned()), no_records())
            },
        }
    }

    fn on_sever(&mut self, session: SessionId, error: Error) -> (step: Step)
        ensures
            final(self).same_setup(*old(self)),
            after_sever(*old(self), final(self).sessions@, step, session, error),
    {
        let profile = match self.sessions.get(session) {
            Some(e) => Some(e.profile),
            None => None,
        };
        let mut records = no_records();
        let cut = AuditDraft {
            severity: Severity::Critical,
            session: Some(session),
            profile,
            kind: EventKind::FailClosed { class: error.class(), reason: error.text() },
        };
        let switch = AuditDraft {
            severity: Severity::Critical,
            session: None,
            profile: None,
            kind: EventKind::KillSwitch { state: "engaged".to_owned() },
        };
        note(&mut records, cut);
        note(&mut records, switch);
        assert(notes(records@) =~= severed_records(
            self.sessions@,
            session,
            error.classified(),
            error.shown(),
        ));
        self.start_teardown(session, Ending::Failed(error), records)
    }

    fn on_undo(
        &mut self,
        session: SessionId,
        profile: ProfileId,
        plan: Vec<TeardownStep>,
        at: usize,
        ending: Ending,
        r: Result<(), Error>,
    ) -> (step: Step)
        requires
            at < plan@.len(),
        ensures
            final(self).same_setup(*old(self)),
            after_undo(
                *old(self),
                final(self).sessions@,
                step,
                session,
                profile,
                plan@,
                at as int,
                ending,
                r,
            ),
    {
        let mut records = no_records();
        if let TeardownStep::Destroy(role, _) = &plan[at] {
            if r.is_ok() {
                let draft = AuditDraft::about(
                    Severity::Info,
                    session,
                    profile,
                    EventKind::Vm {
                        role: role.as_str().to_owned(),
                        state: "destroyed".to_owned(),
                    },
                );
                note(&mut records, draft);
            }
        }
        assert(notes(records@) =~= undone_records(session, profile, plan@[at as int], r is Ok));
        if at < plan.len() - 1 {
            let next = plan[at + 1].clone();
            return Step {
                records,
                action: Action::Undo(next),
                flow: Flow::TearDown { session, profile_id: profile, plan, at: at + 1, ending },
            };
        }
        let state = match &ending {
            Ending::Failed(_) => SessionState::Failed,
            Ending::Stopped => SessionState::Destroyed,
        };
        note(&mut records, state_draft(session, profile, state));
        let _ = self.sessions.change(session, Change::Ended(state));
        match ending {
            Ending::Failed(e) => Step::finish(records, Err(e)),
            Ending::Stopped => {
                let outcome = match self.sessions.get(session) {
                    Some(e) => Ok(e.summary(session)),
                    None => Err(unknown_session_error(session)),
                };
                Step::finish(records, outcome)
            },
        }
    }

    /// The next step of a flow, given what came of the last action.
    pub fn advance(&mut self, flow: Flow, event: Event) -> (r: Step)
        requires
            flow.awaits(event),
        ensures
            final(self).same_setup(*old(self)),
            advanced(*old(self), flow, event, final(self).sessions@, r),
    {
        match (flow, event) {
            (Flow::FetchProfile { session, profile_id }, Event::Profile(r)) => self.on_profile(
                session,
                profile_id,
                r,
            ),
            (Flow::TakeLock { session, profile_id, profile }, Event::Lease(r)) => self.on_lock(
                session,
                profile_id,
                profile,
                r,
            ),
            (Flow::MakeKey { session, profile_id, profile, lease }, Event::Key(r)) => self.on_key(
                session,
                profile_id,
                profile,
                lease,
                r,
            ),
            (Flow::DropLock { error }, Event::Done(_)) => Step::finish(no_records(), Err(error)),
            (Flow::ProvisionGateway { session, profile }, Event::Vm(r)) => self.on_gateway_vm(
                session,
                profile,
                r,
            ),
            (Flow::ProvisionBrowser { session, profile, gateway }, Event::Vm(r)) => {
                self.on_browser_vm(session, profile, gateway, r)
            },
            (Flow::Configure { session, profile, gateway, browser }, Event::Done(r)) => {
                self.on_configure(session, profile, gateway, browser, r)
            },
            (Flow::Firewall { session, profile, gateway, browser }, Event::Done(r)) => {
                self.on_plain(
                    session,
                    r,
                    Action::StartVm(gateway),
                    Flow::StartGateway { session, profile, browser },
                )
            },
            (Flow::StartGateway { session, profile, browser }, Event::Done(r)) => self.on_plain(
                session,
                r,
                Action::StartVm(browser),
                Flow::StartBrowser { session, profile },
            ),
            (Flow::StartBrowser { session, profile }, Event::Done(r)) => self.on_start(
                session,
                profile,
                r,
            ),
            (Flow::Preflight { session, profile }, Event::Checklist(r)) => self.on_preflight(
                session,
                profile,
                r,
            ),
            (Flow::HostPrepare { session, profile }, Event::HostProxy(named)) => {
                self.on_host_proxy(session, profile, named)
            },
            (Flow::Probe { session, profile, proxy }, Event::Reachable(r)) => self.on_probe(
                session,
                profile,
                proxy,
                r,
            ),
            (Flow::Launch { session, profile_id, target }, Event::Launched(r)) => self.on_launch(
                session,
                profile_id,
                target,
                r,
            ),
            (Flow::Touch { session, target }, Event::Done(_)) => self.on_touch(session, target),
            (Flow::Sever { session, error }, Event::Done(_)) => self.on_sever(session, error),
            (Flow::TearDown { session, profile_id, plan, at, ending }, Event::Done(r)) => {
                self.on_undo(session, profile_id, plan, at, ending, r)
            },
            _ => Step::finish(no_records(), Err(Error::Internal("unexpected event".to_owned()))),
        }
    }
}

/// The flow at the start of a session.
pub open spec fn first_flow(session: SessionId, profile: ProfileId) -> Flow {
    Flow::FetchProfile { session, profile_id: profile }
}

/// Whether the step is the first of stopping a session.
pub open spec fn stop_begun(
    pre: Orchestrator,
    after: Sessions,
    step: Step,
    session: SessionId,
) -> bool {
    let table = pre.sessions@;
    let next = SessionState::Closing;
    if !table.contains_key(session) {
        &&& after == table
        &&& notes(step.records@) == silence()
        &&& finishes(step, Err(unknown_session(session)))
    } else if may_move(table, session, next) {
        tears_down(
            pre.caps,
            moved(table, session, next),
            after,
            step,
            session,
            EndingModel::Stopped,
            seq![state_record(session, table[session].profile, next)],
        )
    } else {
        tears_down(pre.caps, table, after, step, session, EndingModel::Stopped, silence())
    }
}

/// The states that a start walks through follow each other, and provisioning
/// follows the request alone.
proof fn lemma_start_path()
    ensures
        SessionState::Requested.leads_to(SessionState::Provisioning),
        SessionState::Provisioning.leads_to(SessionState::GatewayStarting),
        SessionState::GatewayStarting.leads_to(SessionState::Preflight),
{
    assert(SessionState::Requested.successors()[0] == SessionState::Provisioning);
    assert(SessionState::Provisioning.successors()[0] == SessionState::GatewayStarting);
    assert(SessionState::GatewayStarting.successors()[0] == SessionState::Preflight);
}
} // verus!
