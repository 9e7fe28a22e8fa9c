//! Tests of the orchestrator, the request handler and the wire format, with an
//! in-memory host in place of the machine.

use aegis::browser::{BrowserBackendId, BrowserHandle};
use aegis::config::{AppConfig, Enforcement, IsolationLevel};
use aegis::error::{Error, FailureClass};
use aegis::events::{AuditDraft, EventKind, Severity};
use aegis::firefox::render_user_js;
use aegis::flow::{plan_teardown, Action, Event, Step, Target, TeardownStep};
use aegis::frame::{
    body_len, header, read_frame, short_header, write_frame, FrameError, HEADER_LEN, MAX_FRAME_LEN,
};
use aegis::gateway::KillSwitchState;
use aegis::handler::{answer, diagnostics, doctor, DaemonHandler, Next, Outcome, Route};
use aegis::health::HealthLevel;
use aegis::ids::{InstanceId, ProfileId, SessionId, VmId};
use aegis::network::{NetworkConfig, NetworkMode, ProxyConfig, ProxyProtocol};
use aegis::orchestrator::{
    browser_launch_request, gateway_config, host_launch_request, host_proxy_endpoint,
    preflight_context, provision_request, provision_request_for, render_vetted, state_draft,
    unknown_session_error, Capabilities, HostProxy, Orchestrator, GATEWAY_ADDRESS,
    GUEST_PROFILE_DIR, HOST_TOR_PROXY,
};
use aegis::preflight::{
    CheckId, CheckReport, ConnectivityChecklist, IpObservation, ProtectionStatus,
};
use aegis::profile::{
    Profile, ProfileLease, ProfilePatch, ProfileSpec, ProfileType, StorageUsage,
};
use aegis::protocol::{Request, Response};
use aegis::secure::SecretKey;
use aegis::session::{SessionRequest, SessionState, SessionSummary};
use aegis::sessions::{SessionEntry, SessionMode, SessionTable};
use aegis::time::Timestamp;
use aegis::transport::{parse_token, tokens_match, uid_from_status, AuthPolicy, MAX_TOKEN_LEN};
use aegis::update::{ApplyOutcome, UpdateKind, UpdateManifest, Version, VersionInfo, VerifiedArtifact};
use aegis::vm::{VmHandle, VmRole, VmState};
use aegis::VERSION;

fn at(secs: i64) -> Timestamp {
    Timestamp::new(secs, 0).unwrap()
}

/// The machine as the orchestrator sees it.
struct Host {
    profile: ProfileId,
    kind: ProfileType,
    isolation: IsolationLevel,
    browser: BrowserBackendId,
    locked: bool,
    dns_ok: bool,
    proxy_ok: bool,
    /// The action at which something fails, by name.
    failing: Option<&'static str>,
    killswitch: KillSwitchState,
    /// The names of the actions performed.
    done: Vec<&'static str>,
    audit: Vec<AuditDraft>,
    user_js: Option<String>,
    /// The user-data directory of the last launch.
    dir: Option<String>,
}

impl Host {
    fn new(kind: ProfileType, isolation: IsolationLevel, browser: BrowserBackendId) -> Host {
        Host {
            profile: ProfileId::from_u128(0xabc),
            kind,
            isolation,
            browser,
            locked: false,
            dns_ok: true,
            proxy_ok: true,
            failing: None,
            killswitch: KillSwitchState::Armed,
            done: Vec::new(),
            audit: Vec::new(),
            user_js: None,
            dir: None,
        }
    }

    fn full_vm() -> Host {
        Host::new(ProfileType::Persistent, IsolationLevel::FullVm, BrowserBackendId::Chromium)
    }

    fn on_host(browser: BrowserBackendId) -> Host {
        Host::new(ProfileType::Ephemeral, IsolationLevel::HostProcess, browser)
    }

    fn spec(&self) -> ProfileSpec {
        let mut spec = ProfileSpec::ephemeral("integration");
        spec.kind = self.kind;
        spec.isolation = self.isolation;
        spec.browser = self.browser;
        spec
    }

    fn fault(&self, name: &str) -> Result<(), Error> {
        if self.failing == Some(name) {
            Err(Error::System(format!("{name} failed")))
        } else {
            Ok(())
        }
    }

    fn perform(&mut self, action: Action) -> Event {
        let (name, event) = match action {
            Action::GetProfile(id) => (
                "get",
                Event::Profile(if id == self.profile {
                    Ok(Profile {
                        id,
                        spec: self.spec(),
                        created_at: at(0),
                        last_launched: None,
                        storage: StorageUsage::default(),
                        locked: self.locked,
                    })
                } else {
                    Err(Error::NotFound("no such profile".into()))
                }),
            ),
            Action::AcquireLock(id) => (
                "lock",
                Event::Lease(if self.locked {
                    Err(Error::Busy("profile is locked".into()))
                } else {
                    self.locked = true;
                    Ok(ProfileLease { profile: id, token: "lease".into() })
                }),
            ),
            Action::GenerateKey => (
                "key",
                Event::Key(self.fault("key").map(|_| SecretKey::from_bytes([1; 32]))),
            ),
            Action::ReleaseLock(_) => {
                self.locked = false;
                ("unlock", Event::Done(Ok(())))
            }
            Action::ReadHostProxy => ("proxy", Event::HostProxy(None)),
            Action::Provision(req) => {
                assert!(req.validate().is_ok());
                let name = match req.role {
                    VmRole::Gateway => "provision-gateway",
                    VmRole::Browser => "provision-browser",
                };
                let made = self.fault(name).map(|_| VmHandle {
                    id: VmId::from_u128(match req.role {
                        VmRole::Gateway => 1,
                        VmRole::Browser => 2,
                    }),
                    instance_id: req.instance_id,
                    role: req.role,
                    domain_name: "d".into(),
                    state: VmState::Defined,
                });
                (name, Event::Vm(made))
            }
            Action::Configure(cfg) => {
                assert_eq!(cfg.gateway_address, GATEWAY_ADDRESS);
                ("configure", Event::Done(self.fault("configure")))
            }
            Action::ApplyFirewall(fw) => {
                assert!(fw.validate().is_none());
                ("firewall", Event::Done(self.fault("firewall")))
            }
            Action::StartVm(_) => ("start-vm", Event::Done(self.fault("start-vm"))),
            Action::RunPreflight(_) => {
                let mut reports: Vec<CheckReport> =
                    CheckId::all().into_iter().map(|id| CheckReport::pass(id, "ok")).collect();
                if !self.dns_ok {
                    reports[2] = CheckReport::fail(CheckId::DnsRouteVerified, "leak");
                }
                let mut c = ConnectivityChecklist::new(reports);
                c.observed_ip = Some(IpObservation {
                    ip: "198.51.100.7".into(),
                    via_tunnel: true,
                    differs_from_host: true,
                });
                ("preflight", Event::Checklist(self.fault("preflight").map(|_| c)))
            }
            Action::ProbeProxy { host, port } => {
                assert_eq!((host.as_str(), port), ("127.0.0.1", 9050));
                ("probe", Event::Reachable(self.fault("probe").map(|_| self.proxy_ok)))
            }
            Action::Launch { target, request, bundle } => {
                assert!(bundle.assert_safe(true).is_ok());
                assert_eq!(bundle.backend, target.engine());
                self.dir = Some(request.user_data_dir.clone());
                if bundle.backend == BrowserBackendId::Firefox {
                    self.user_js = Some(render_user_js(&bundle.preferences));
                }
                let made = self.fault("launch").map(|_| BrowserHandle {
                    session: request.session,
                    backend: bundle.backend,
                    process_token: "42".into(),
                });
                ("launch", Event::Launched(made))
            }
            Action::TouchLaunch(_) => ("touch", Event::Done(self.fault("touch"))),
            Action::EngageKillSwitch => {
                self.killswitch = KillSwitchState::Engaged;
                ("sever", Event::Done(self.fault("sever")))
            }
            Action::Undo(step) => {
                let name = match &step {
                    TeardownStep::Terminate { .. } => "terminate",
                    TeardownStep::RemoveDir(_) => "remove-dir",
                    TeardownStep::Shutdown(_) => "shutdown",
                    TeardownStep::Destroy(..) => "destroy",
                    TeardownStep::Release(_) => {
                        self.locked = false;
                        "release"
                    }
                };
                (name, Event::Done(self.fault("undo")))
            }
            Action::Finish(_) => unreachable!("a finished flow has no action"),
        };
        self.done.push(name);
        event
    }

    fn run(&mut self, orch: &mut Orchestrator, first: Step) -> Result<SessionSummary, Error> {
        let mut step = first;
        loop {
            self.audit.append(&mut step.records);
            if let Action::Finish(outcome) = step.action {
                return outcome;
            }
            let event = self.perform(step.action);
            assert!(step.flow.accepts(&event));
            step = orch.advance(step.flow, event);
        }
    }

    fn start(&mut self, orch: &mut Orchestrator) -> Result<SessionSummary, Error> {
        let first = orch.begin_start(self.profile);
        self.run(orch, first)
    }

    fn stop(&mut self, orch: &mut Orchestrator, id: SessionId) -> Result<SessionSummary, Error> {
        let first = orch.begin_stop(id);
        self.run(orch, first)
    }

    fn states(&self) -> Vec<String> {
        self.audit
            .iter()
            .filter_map(|r| match &r.kind {
                EventKind::SessionState { state } => Some(state.clone()),
                _ => None,
            })
            .collect()
    }

    fn fail_closed(&self) -> Option<FailureClass> {
        self.audit.iter().find_map(|r| match &r.kind {
            EventKind::FailClosed { class, .. } if r.severity == Severity::Critical => Some(*class),
            _ => None,
        })
    }
}

fn caps(present: bool) -> Capabilities {
    Capabilities {
        host_browser: present,
        host_browser_path: if present { Some("/mock/chrome".into()) } else { None },
        host_browser_firefox: present,
        host_browser_firefox_path: if present { Some("/mock/firefox".into()) } else { None },
        windows: false,
    }
}

fn orchestrator(present: bool) -> Orchestrator {
    Orchestrator::new(caps(present), AppConfig::default())
}

// --- sessions ---------------------------------------------------------------

#[test]
fn happy_path_start_reaches_browsing_and_stop_tears_down() {
    let mut orch = orchestrator(true);
    let mut h = Host::full_vm();

    let summary = h.start(&mut orch).expect("start ok");
    assert_eq!(summary.state, SessionState::Browsing, "must reach Browsing");
    assert!(summary.protection.permits_browsing());
    assert_eq!(summary.public_ip.as_deref(), Some("198.51.100.7"));
    assert_eq!(orch.session_state(summary.id), Some(SessionState::Browsing));

    // Kill switch is armed (traffic permitted) while browsing.
    assert_eq!(h.killswitch, KillSwitchState::Armed);

    // The profile is locked while the session holds it.
    assert!(h.locked, "profile must be locked during a session");
    assert_eq!(
        h.done,
        vec![
            "get",
            "lock",
            "key",
            "provision-gateway",
            "provision-browser",
            "configure",
            "firewall",
            "start-vm",
            "start-vm",
            "preflight",
            "launch",
            "touch",
        ]
    );

    // Tear down.
    let final_summary = h.stop(&mut orch, summary.id).expect("stop ok");
    assert_eq!(final_summary.state, SessionState::Destroyed);
    assert_eq!(orch.session_state(summary.id), Some(SessionState::Destroyed));

    // Profile lock released.
    assert!(!h.locked, "profile lock must be released on teardown");

    // The audit trail contains the Browsing and Destroyed lifecycle events.
    let states = h.states();
    assert!(states.iter().any(|s| s == "browsing"), "states: {states:?}");
    assert!(states.iter().any(|s| s == "destroyed"), "states: {states:?}");

    // No Critical fail-closed event on the happy path.
    assert!(
        !h.audit.iter().any(|r| matches!(r.kind, EventKind::FailClosed { .. })),
        "happy path must not record a FailClosed event"
    );
}

#[test]
fn fail_closed_when_dns_route_fails() {
    let mut orch = orchestrator(true);
    let mut h = Host::full_vm();
    h.dns_ok = false;

    let err = h.start(&mut orch).expect_err("start must fail closed");
    assert_eq!(
        err.class(),
        FailureClass::NetworkContainment,
        "must be a network-containment failure"
    );
    assert!(err.requires_killswitch());
    assert!(err.text().contains("dns_route_verified"));

    // Kill switch is engaged (traffic cut).
    assert_eq!(h.killswitch, KillSwitchState::Engaged);

    // A Critical FailClosed audit event was recorded with the right class.
    assert_eq!(
        h.fail_closed(),
        Some(FailureClass::NetworkContainment),
        "expected a Critical FailClosed event"
    );

    // The session ended in Failed and the profile lock was released.
    assert!(!h.locked, "profile lock must be released after fail-closed teardown");
    assert!(!h.done.contains(&"launch"));

    // The session was never left in Browsing.
    assert!(
        orch.list_sessions().iter().all(|s| s.state == SessionState::Failed),
        "no session may be in Browsing after a fail-closed start"
    );
}

#[test]
fn second_concurrent_start_on_persistent_profile_is_busy() {
    let mut orch = orchestrator(true);
    let mut h = Host::full_vm();

    // First session succeeds and holds the lock.
    let first = h.start(&mut orch).expect("first start ok");
    assert_eq!(first.state, SessionState::Browsing);

    // Second start on the SAME profile must be refused as Busy.
    let err = h.start(&mut orch).expect_err("second start must be refused");
    assert_eq!(err.class(), FailureClass::Precondition);
    assert!(matches!(err, Error::Busy(_)), "expected Busy, got {err:?}");

    // Cleanup releases the lock; a subsequent start then succeeds again.
    h.stop(&mut orch, first.id).unwrap();
    let third = h.start(&mut orch).expect("re-start after release ok");
    assert_eq!(third.state, SessionState::Browsing);
    h.stop(&mut orch, third.id).unwrap();
}

#[test]
fn ephemeral_profile_start_stop_roundtrip() {
    let mut orch = orchestrator(true);
    let mut h =
        Host::new(ProfileType::Ephemeral, IsolationLevel::FullVm, BrowserBackendId::Chromium);
    let summary = h.start(&mut orch).expect("start ok");
    assert_eq!(summary.state, SessionState::Browsing);
    h.stop(&mut orch, summary.id).expect("stop ok");
    assert!(!h.locked);
}

#[test]
fn host_mode_with_reachable_proxy_reaches_browsing() {
    let mut orch = orchestrator(true);
    let mut h = Host::on_host(BrowserBackendId::Chromium);
    // Open the global host-browser safety gate at runtime (the profile drives
    // the effective mode; enforcement only permits it).
    orch.set_enforcement(Enforcement::host_browser());
    assert_eq!(
        orch.status("linux").isolation_level,
        IsolationLevel::HostProcess,
        "status must report reduced HostProcess isolation"
    );

    let summary = h.start(&mut orch).expect("host start ok");
    assert_eq!(
        summary.state,
        SessionState::Browsing,
        "host mode must reach Browsing when the proxy is reachable"
    );
    assert!(!h.done.contains(&"provision-gateway"));

    // No Critical FailClosed event on the reachable host path.
    assert!(
        !h.audit.iter().any(|r| matches!(r.kind, EventKind::FailClosed { .. })),
        "reachable host path must not fail closed"
    );

    // Teardown: host process terminated, profile lock released.
    let final_summary = h.stop(&mut orch, summary.id).expect("host stop ok");
    assert_eq!(final_summary.state, SessionState::Destroyed);
    assert!(!h.locked, "profile lock must be released on host teardown");
    assert!(h.done.ends_with(&["terminate", "remove-dir", "release"]), "{:?}", h.done);
}

#[test]
fn host_mode_firefox_profile_writes_user_js_with_socks_proxy() {
    let mut orch = orchestrator(true);
    let mut h = Host::on_host(BrowserBackendId::Firefox);
    orch.set_enforcement(Enforcement::host_browser());

    let summary = h.start(&mut orch).expect("firefox host start ok");
    assert_eq!(
        summary.state,
        SessionState::Browsing,
        "firefox host mode must reach Browsing"
    );

    let user_js = h.user_js.clone().expect("user.js");
    assert!(
        user_js.contains(r#"user_pref("network.proxy.type", 1);"#),
        "user.js must enable manual proxy: {user_js}"
    );
    assert!(
        user_js.contains(r#"user_pref("network.proxy.socks_port", 9050);"#),
        "user.js must route through the SOCKS proxy port: {user_js}"
    );
    assert!(
        user_js.contains(r#"user_pref("media.peerconnection.enabled", false);"#),
        "user.js must disable WebRTC: {user_js}"
    );
    assert!(
        user_js.contains(r#"user_pref("privacy.resistFingerprinting", true);"#),
        "user.js must enable resistFingerprinting: {user_js}"
    );

    let final_summary = h.stop(&mut orch, summary.id).expect("firefox host stop ok");
    assert_eq!(final_summary.state, SessionState::Destroyed);
    assert!(!h.locked, "profile lock must be released on host teardown");
}

#[test]
fn host_mode_firefox_missing_binary_fails_with_named_config_error() {
    // NO host browsers wired at all.
    let mut orch = orchestrator(false);
    let mut h = Host::on_host(BrowserBackendId::Firefox);
    orch.set_enforcement(Enforcement::host_browser());
    let err = h.start(&mut orch).expect_err("missing firefox must be refused");
    assert_eq!(err.class(), FailureClass::Configuration);
    assert!(
        err.text().contains("Firefox"),
        "error must name the missing Firefox browser, got: {err:?}"
    );
    // Refused before any lock was taken.
    assert!(!h.locked, "a refused start must not hold the lock");
    assert_eq!(h.done, vec!["get"]);
}

#[test]
fn host_mode_with_unreachable_proxy_fails_closed() {
    let mut orch = orchestrator(true);
    let mut h = Host::on_host(BrowserBackendId::Chromium);
    h.proxy_ok = false;
    orch.set_enforcement(Enforcement::host_browser());

    let err = h.start(&mut orch).expect_err("unreachable proxy must fail closed");
    assert_eq!(
        err.class(),
        FailureClass::NetworkContainment,
        "unreachable host proxy is a network-containment failure"
    );

    // A Critical FailClosed audit event with the network-containment class.
    assert_eq!(h.fail_closed(), Some(FailureClass::NetworkContainment));

    // Never reached Browsing; lock released.
    assert!(
        orch.list_sessions().iter().all(|s| s.state != SessionState::Browsing),
        "no session may be Browsing after a fail-closed host start"
    );
    assert!(!h.locked);
}

#[test]
fn host_profile_refused_when_host_browser_disabled() {
    let mut orch = orchestrator(true);
    let mut h = Host::on_host(BrowserBackendId::Chromium);
    // Default enforcement keeps allow_host_browser = false (the safety gate).
    assert!(!orch.get_enforcement().allow_host_browser);

    let err =
        h.start(&mut orch).expect_err("host profile must be refused when host-browser is disabled");
    assert_eq!(err.class(), FailureClass::Configuration);
    assert!(
        err.text().contains("host-browser mode is disabled"),
        "expected a clear disabled message, got: {err:?}"
    );

    // The profile lock must not be held (refused before any lock was taken).
    assert!(!h.locked, "a refused start must not hold the lock");
    assert!(
        orch.list_sessions().is_empty(),
        "a refused host profile must never reach Browsing"
    );
}

#[test]
fn fullvm_profile_uses_vm_path_regardless_of_gate() {
    let mut orch = orchestrator(true);
    let mut h = Host::full_vm();
    // Even with the host-browser gate open, a FullVm profile takes the VM path.
    orch.set_enforcement(Enforcement::host_browser());
    let summary = h.start(&mut orch).expect("full-vm start ok");
    assert_eq!(summary.state, SessionState::Browsing);

    // The VM path provisions gateway + browser VMs, so a gateway/vm destroy
    // event appears on teardown (the host path never touches a VM).
    let final_summary = h.stop(&mut orch, summary.id).expect("stop ok");
    assert_eq!(final_summary.state, SessionState::Destroyed);
    let vm_events = h.audit.iter().filter(|r| matches!(r.kind, EventKind::Vm { .. })).count();
    assert!(vm_events >= 1, "the VM path must destroy at least one VM on teardown");
}

#[test]
fn set_then_get_enforcement_round_trips_and_status_reports_platform() {
    let mut orch = orchestrator(true);
    // Default is the secure posture.
    assert!(orch.get_enforcement().is_full_isolation());

    let applied = orch.set_enforcement(Enforcement::host_browser());
    assert_eq!(applied, Enforcement::host_browser());
    assert_eq!(orch.get_enforcement(), Enforcement::host_browser());

    let status = orch.status("linux");
    assert_eq!(status.platform, "linux");
    assert_eq!(status.version, VERSION);
    assert_eq!(status.isolation_level, IsolationLevel::HostProcess);
    assert!(status.host_browser_available);
    assert_eq!(status.host_browser_path.as_deref(), Some("/mock/chrome"));
}

#[test]
fn every_failure_on_the_way_releases_everything() {
    for name in [
        "key",
        "provision-gateway",
        "provision-browser",
        "configure",
        "firewall",
        "start-vm",
        "preflight",
        "launch",
    ] {
        let mut orch = orchestrator(true);
        let mut h = Host::full_vm();
        h.failing = Some(name);
        let err = h.start(&mut orch).unwrap_err();
        assert_eq!(err.text(), format!("system error: {name} failed"));
        assert!(!h.locked, "{name}");
        // A failure that is none of containment does not cut traffic.
        assert_eq!(h.killswitch, KillSwitchState::Armed, "{name}");
        assert!(orch.list_sessions().iter().all(|s| s.state == SessionState::Failed), "{name}");
    }
}

#[test]
fn teardown_goes_on_whatever_fails() {
    let mut orch = orchestrator(true);
    let mut h = Host::full_vm();
    let summary = h.start(&mut orch).unwrap();
    h.done.clear();
    h.failing = Some("undo");
    let end = h.stop(&mut orch, summary.id).unwrap();
    assert_eq!(end.state, SessionState::Destroyed);
    assert_eq!(
        h.done,
        vec!["terminate", "shutdown", "destroy", "shutdown", "destroy", "release"]
    );
    assert!(!h.locked);
}

#[test]
fn teardown_drops_the_key_and_is_done_once() {
    let mut orch = orchestrator(true);
    let mut h = Host::full_vm();
    let summary = h.start(&mut orch).unwrap();
    assert!(orch.sessions.get(summary.id).unwrap().ram_key.is_some());
    h.stop(&mut orch, summary.id).unwrap();
    assert!(orch.sessions.get(summary.id).unwrap().ram_key.is_none());
    h.done.clear();
    h.stop(&mut orch, summary.id).unwrap();
    assert_eq!(h.done, vec!["release"]);
}

#[test]
fn a_started_session_shows_how_it_is_protected() {
    let mut orch = orchestrator(true);
    orch.set_enforcement(Enforcement::host_browser());
    let vm = Host::full_vm().start(&mut orch).unwrap();
    assert_eq!(vm.state, SessionState::Browsing);
    assert_eq!(vm.protection, ProtectionStatus::Active);
    let host = Host::on_host(BrowserBackendId::Chromium).start(&mut orch).unwrap();
    assert_eq!(host.state, SessionState::Browsing);
    assert_eq!(host.protection, ProtectionStatus::Partial);
}

#[test]
fn no_vm_is_started_without_the_firewall() {
    let mut orch = orchestrator(true);
    let mut h = Host::full_vm();
    h.start(&mut orch).unwrap();
    let firewall = h.done.iter().position(|n| *n == "firewall").unwrap();
    let vm = h.done.iter().position(|n| *n == "start-vm").unwrap();
    assert!(firewall < vm);
    let mut h = Host::full_vm();
    h.failing = Some("firewall");
    assert!(h.start(&mut orch).is_err());
    assert!(!h.done.contains(&"start-vm"));
}

#[test]
fn the_host_profile_lies_where_the_host_keeps_it() {
    for windows in [false, true] {
        let mut config = AppConfig::default();
        config.paths.runtime_dir = "R".into();
        let mut orch = Orchestrator::new(Capabilities { windows, ..caps(true) }, config);
        orch.set_enforcement(Enforcement::host_browser());
        let mut h = Host::on_host(BrowserBackendId::Chromium);
        h.start(&mut orch).unwrap();
        let sep = if windows { '\\' } else { '/' };
        let expected = format!("R{sep}host-profiles{sep}{}", h.profile.text());
        assert_eq!(h.dir.as_deref(), Some(expected.as_str()));
    }
}

#[test]
fn a_failed_touch_does_not_fail_the_start() {
    let mut orch = orchestrator(true);
    let mut h = Host::full_vm();
    h.failing = Some("touch");
    assert_eq!(h.start(&mut orch).unwrap().state, SessionState::Browsing);
}

#[test]
fn traffic_that_cannot_be_cut_is_still_recorded() {
    let mut orch = orchestrator(true);
    let mut h = Host::full_vm();
    h.dns_ok = false;
    h.failing = Some("sever");
    let err = h.start(&mut orch).unwrap_err();
    assert_eq!(err.class(), FailureClass::NetworkContainment);
    assert!(h.fail_closed().is_some());
    assert!(!h.locked);
}

#[test]
fn unknown_sessions_and_profiles_are_refused() {
    let mut orch = orchestrator(true);
    let mut h = Host::full_vm();
    let ghost = SessionId::from_u128(77);
    let err = h.stop(&mut orch, ghost).unwrap_err();
    assert!(matches!(err, Error::NotFound(_)));
    assert_eq!(err.text(), unknown_session_error(ghost).text());
    assert!(h.done.is_empty());
    assert_eq!(orch.session_state(ghost), None);
    h.profile = ProfileId::from_u128(1);
    let first = orch.begin_start(ProfileId::from_u128(2));
    assert!(matches!(h.run(&mut orch, first).unwrap_err(), Error::NotFound(_)));
    assert!(matches!(orch.transition(ghost, SessionState::Closing), Err(_)));
}

#[test]
fn sessions_do_not_touch_each_other() {
    let mut orch = orchestrator(true);
    let mut a = Host::full_vm();
    let mut b = Host::full_vm();
    b.profile = ProfileId::from_u128(0xdef);
    let sa = a.start(&mut orch).unwrap();
    let sb = b.start(&mut orch).unwrap();
    assert_ne!(sa.id, sb.id);
    b.stop(&mut orch, sb.id).unwrap();
    assert_eq!(orch.session_state(sa.id), Some(SessionState::Browsing));
    assert_eq!(orch.list_sessions().len(), 2);
}

// --- the parts of a start ---------------------------------------------------

fn profile(spec: ProfileSpec) -> Profile {
    Profile {
        id: ProfileId::from_u128(5),
        spec,
        created_at: at(0),
        last_launched: None,
        storage: StorageUsage::default(),
        locked: false,
    }
}

#[test]
fn tor_on_the_host_uses_the_local_proxy() {
    let tor = NetworkConfig::default().mode;
    let p = host_proxy_endpoint(&tor, None).unwrap();
    assert_eq!(p.endpoint, HOST_TOR_PROXY);
    assert_eq!((p.probe_host.as_str(), p.probe_port), ("127.0.0.1", 9050));
    let named = host_proxy_endpoint(&tor, Some("socks5://h:9150".into())).unwrap();
    assert_eq!((named.probe_host.as_str(), named.probe_port), ("h", 9150));
    let proxy = NetworkMode::Proxy(ProxyConfig {
        protocol: ProxyProtocol::HttpConnect,
        host: "p".into(),
        port: 3128,
        credentials_ref: None,
        remote_dns: true,
    });
    let p = host_proxy_endpoint(&proxy, None).unwrap();
    assert_eq!((p.probe_host.as_str(), p.probe_port), ("p", 3128));
    for bad in ["h", "socks5://h", "h:x", "h:0x1"] {
        assert!(HostProxy::parse(bad).is_err(), "{bad}");
    }
}

#[test]
fn launch_requests_carry_the_policy_in_effect() {
    let mut spec = ProfileSpec::ephemeral("p");
    let mut fp = aegis::fingerprint::FingerprintPolicy::balanced();
    fp.hardware_concurrency = Some(16);
    spec.fingerprint = Some(fp);
    let s = SessionId::from_u128(3);
    let req = browser_launch_request(s, &profile(spec));
    assert_eq!(req.user_data_dir, GUEST_PROFILE_DIR);
    assert_eq!(req.fingerprint.hardware_concurrency, Some(16));
    assert!(req.production);
    let req = host_launch_request(
        s,
        &profile(ProfileSpec::ephemeral("p")),
        "/d".into(),
        "socks5://h:1".into(),
    );
    assert_eq!(req.user_data_dir, "/d");
    assert_eq!(req.proxy_endpoint, "socks5://h:1");
    for engine in [BrowserBackendId::Chromium, BrowserBackendId::Firefox] {
        assert_eq!(render_vetted(engine, &req).unwrap().backend, engine);
    }
}

#[test]
fn paths_go_by_the_host() {
    let mut cfg = AppConfig::default();
    cfg.paths.images_dir = r"D:\images".into();
    cfg.paths.runtime_dir = "E:".into();
    let id = InstanceId::from_u128(1);
    let slug = id.slug();
    let req = provision_request_for(&cfg, VmRole::Gateway, id, true);
    assert_eq!(req.disk.backing_image, r"D:\images\gateway-base.qcow2");
    assert_eq!(req.disk.overlay_path, format!("E:{slug}-overlay.qcow2"));
    let req = provision_request_for(&cfg, VmRole::Browser, id, false);
    assert_eq!(req.disk.backing_image, r"D:\images/browser-base.qcow2");
    assert_eq!(req.disk.overlay_path, format!("E:/{slug}-overlay.qcow2"));
}

#[test]
fn vms_are_provisioned_hardened() {
    let cfg = AppConfig::default();
    for role in [VmRole::Gateway, VmRole::Browser] {
        let req = provision_request_for(&cfg, role, InstanceId::from_u128(1), false);
        assert!(req.validate().is_ok());
        assert!(req.disk.destroy_on_close);
        assert_eq!(req.role, role);
        assert_ne!(
            provision_request(&cfg, role, false).instance_id,
            provision_request(&cfg, role, false).instance_id
        );
    }
    let ctx = preflight_context(SessionId::from_u128(1), &NetworkConfig::default());
    assert_eq!(ctx.mode_label, "Tor");
    assert_eq!(gateway_config(&NetworkConfig::default()).gateway_address, GATEWAY_ADDRESS);
    let d = state_draft(SessionId::from_u128(1), ProfileId::from_u128(2), SessionState::Closing);
    assert!(matches!(d.kind, EventKind::SessionState { state } if state == "closing"));
}

fn entry(mode: SessionMode) -> SessionEntry {
    SessionEntry {
        profile: ProfileId::from_u128(2),
        state: SessionState::Browsing,
        lease: ProfileLease { profile: ProfileId::from_u128(2), token: "t".into() },
        mode,
        gateway_vm: None,
        browser_vm: Some(VmId::from_u128(8)),
        browser_handle: None,
        protection: ProtectionStatus::Active,
        public_ip: None,
        ram_key: Some(SecretKey::from_bytes([0; 32])),
    }
}

#[test]
fn a_teardown_ends_with_the_release_of_the_lock() {
    let plan = plan_teardown(&entry(SessionMode::FullVm), &caps(true));
    assert_eq!(
        plan,
        vec![
            TeardownStep::Shutdown(VmId::from_u128(8)),
            TeardownStep::Destroy(VmRole::Browser, VmId::from_u128(8)),
            TeardownStep::Release(ProfileLease {
                profile: ProfileId::from_u128(2),
                token: "t".into()
            }),
        ]
    );
    assert_eq!(Target::Vm.engine(), BrowserBackendId::Chromium);
}

#[test]
fn the_table_keeps_one_entry_for_each_session() {
    let mut t = SessionTable::new();
    let id = SessionId::from_u128(1);
    assert!(t.get(id).is_none());
    t.insert(id, entry(SessionMode::FullVm));
    t.insert(id, entry(SessionMode::FullVm));
    assert_eq!(t.list().len(), 1);
    assert_eq!(t.get(id).unwrap().summary(id).state, SessionState::Browsing);
}

// --- the request handler ----------------------------------------------------

fn manifest() -> UpdateManifest {
    UpdateManifest {
        schema: 1,
        version: Version::new(1, 2, 3),
        delta_base: None,
        kind: UpdateKind::Full,
        artifacts: vec![],
        sbom: None,
        signature: "aa".into(),
    }
}

#[test]
fn request_handler_maps_operations() {
    let mut handler = DaemonHandler::new(orchestrator(true));
    let mut h = Host::full_vm();

    // ListProfiles on an empty store => Profiles([]).
    assert!(matches!(handler.dispatch(Request::ListProfiles, "linux"), Route::ListProfiles));
    match answer(Outcome::Profiles(Ok(vec![]))) {
        Next::Reply(Response::Profiles(ps)) => assert!(ps.is_empty(), "no profiles yet"),
        other => panic!("expected Profiles, got {other:?}"),
    }

    // CreateProfile => Profile(..).
    let spec = ProfileSpec::ephemeral("via-handler");
    match handler.dispatch(Request::CreateProfile(spec), "linux") {
        Route::CreateProfile(s) => assert_eq!(s.name, "via-handler"),
        other => panic!("expected CreateProfile, got {other:?}"),
    }
    match answer(Outcome::Profile(Ok(profile(ProfileSpec::ephemeral("via-handler"))))) {
        Next::Reply(Response::Profile(p)) => assert_eq!(p.spec.name, "via-handler"),
        other => panic!("expected Profile, got {other:?}"),
    }

    // StartSession => Session(summary in Browsing).
    let start_req = SessionRequest { profile: h.profile, unlock_ref: None };
    let id = match handler.dispatch(Request::StartSession(start_req), "linux") {
        Route::Start(id) => id,
        other => panic!("expected Start, got {other:?}"),
    };
    assert_eq!(id, h.profile);
    let started = h.start(&mut handler.orchestrator);
    let session_id = match answer(Outcome::Session(started)) {
        Next::Reply(Response::Session(s)) => {
            assert_eq!(s.state, SessionState::Browsing);
            assert_eq!(s.profile, h.profile);
            s.id
        }
        other => panic!("expected Session, got {other:?}"),
    };

    // ListSessions reflects the running session.
    match handler.dispatch(Request::ListSessions, "linux") {
        Route::Reply(Response::Sessions(ss)) => assert!(ss.iter().any(|s| s.id == session_id)),
        other => panic!("expected Sessions, got {other:?}"),
    }
    match handler.dispatch(Request::GetDiagnostics(session_id), "linux") {
        Route::Reply(Response::Diagnostics { checklist, items }) => {
            assert!(checklist.all_passed());
            assert_eq!(items[0].key, "protection");
        }
        other => panic!("expected Diagnostics, got {other:?}"),
    }

    // StopSession => Session(Destroyed).
    assert!(matches!(
        handler.dispatch(Request::StopSession(session_id), "linux"),
        Route::Stop(s) if s == session_id
    ));
    let stopped = h.stop(&mut handler.orchestrator, session_id);
    match answer(Outcome::Session(stopped)) {
        Next::Reply(Response::Session(s)) => assert_eq!(s.state, SessionState::Destroyed),
        other => panic!("expected Session, got {other:?}"),
    }
}

#[test]
fn request_handler_get_set_enforcement_and_status() {
    let mut handler = DaemonHandler::new(orchestrator(true));

    // GetEnforcement returns the initial secure posture.
    match handler.dispatch(Request::GetEnforcement, "linux") {
        Route::Reply(Response::Enforcement(e)) => assert!(e.is_full_isolation()),
        other => panic!("expected Enforcement, got {other:?}"),
    }

    // SetEnforcement to host-browser and read it back.
    match handler.dispatch(Request::SetEnforcement(Enforcement::host_browser()), "linux") {
        Route::Reply(Response::Enforcement(e)) => assert_eq!(e, Enforcement::host_browser()),
        other => panic!("expected Enforcement, got {other:?}"),
    }

    // GetStatus reflects the change.
    match handler.dispatch(Request::GetStatus, "linux") {
        Route::Reply(Response::Status(s)) => {
            assert_eq!(s.isolation_level, IsolationLevel::HostProcess);
            assert_eq!(s.platform, "linux");
        }
        other => panic!("expected Status, got {other:?}"),
    }
}

#[test]
fn the_other_requests_are_routed() {
    let mut handler = DaemonHandler::new(orchestrator(true));
    let p = ProfileId::from_u128(4);
    assert!(matches!(
        handler.dispatch(Request::DeleteProfile(p), "linux"),
        Route::DeleteProfile(id) if id == p
    ));
    assert!(matches!(
        handler.dispatch(
            Request::UpdateProfile { id: p, patch: ProfilePatch::default() },
            "linux"
        ),
        Route::UpdateProfile(id, patch) if id == p && patch.is_empty()
    ));
    let info = VersionInfo { current: Version::new(1, 0, 0) };
    assert!(matches!(
        handler.dispatch(Request::CheckUpdate(info), "linux"),
        Route::CheckUpdate(i) if i == info
    ));
    assert!(matches!(
        handler.dispatch(Request::ApplyUpdate(manifest()), "linux"),
        Route::VerifyUpdate(m, i) if m == manifest() && i.current == Version::new(0, 1, 0)
    ));
    match handler.dispatch(Request::Doctor, "linux") {
        Route::Reply(Response::Doctor(c)) => assert!(c.all_passed()),
        other => panic!("expected Doctor, got {other:?}"),
    }
    match handler.dispatch(Request::GetDiagnostics(SessionId::from_u128(1)), "linux") {
        Route::Reply(r) => assert_eq!(r.error_class(), Some(FailureClass::Precondition)),
        other => panic!("expected a reply, got {other:?}"),
    }
    let a = VerifiedArtifact { version: Version::new(1, 2, 3), artifacts: vec![] };
    assert!(matches!(answer(Outcome::Verified(Ok(a))), Next::Apply(_)));
    assert!(matches!(
        answer(Outcome::Applied(Ok(ApplyOutcome::Applied))),
        Next::Reply(Response::UpdateApplied(ApplyOutcome::Applied))
    ));
    assert!(matches!(answer(Outcome::Deleted(Ok(()))), Next::Reply(Response::Done)));
    assert!(matches!(
        answer(Outcome::Update(Ok(None))),
        Next::Reply(Response::UpdateAvailable(None))
    ));
    match answer(Outcome::Deleted(Err(Error::Busy("x".into())))) {
        Next::Reply(r) => assert_eq!(r.error_class(), Some(FailureClass::Precondition)),
        other => panic!("expected a reply, got {other:?}"),
    }
}

#[test]
fn diagnostics_pass_only_with_protection() {
    match diagnostics(ProtectionStatus::Partial) {
        Response::Diagnostics { checklist, items } => {
            assert!(!checklist.permits_browsing());
            assert_eq!(checklist.failures().len(), 6);
            assert_eq!(items[0].level, HealthLevel::Down);
            assert_eq!(items[0].detail, "partial protection");
        }
        other => panic!("expected Diagnostics, got {other:?}"),
    }
    assert!(doctor(0).all_passed());
    assert!(!doctor(1).permits_browsing());
}

// --- the protocol -----------------------------------------------------------

#[test]
fn error_response_preserves_class() {
    let err = Error::NetworkContainment("tunnel down".into());
    let resp = Response::from_error(&err);
    assert!(resp.is_error());
    assert_eq!(resp.error_class(), Some(FailureClass::NetworkContainment));
    // And the message is carried through verbatim.
    match resp {
        Response::Error { message, .. } => assert!(message.contains("tunnel down")),
        _ => panic!("expected error"),
    }
}

#[test]
fn result_into_response_uses_error_arm() {
    let r: Result<Response, Error> = Err(Error::Busy("profile in use".into()));
    let resp: Response = Response::from_result(r);
    assert_eq!(resp.error_class(), Some(FailureClass::Precondition));
}

#[test]
fn op_name_is_argument_free() {
    // op_name must not depend on arguments; the same op yields the same name.
    assert_eq!(
        Request::DeleteProfile(ProfileId::new()).op_name(),
        Request::DeleteProfile(ProfileId::new()).op_name()
    );
    assert_eq!(Request::Doctor.op_name(), "doctor");
}

#[test]
fn operations_have_names_of_their_own() {
    let spec = || ProfileSpec::ephemeral("p");
    let requests = vec![
        Request::ListProfiles,
        Request::CreateProfile(spec()),
        Request::UpdateProfile { id: ProfileId::new(), patch: ProfilePatch::default() },
        Request::DeleteProfile(ProfileId::new()),
        Request::StartSession(SessionRequest { profile: ProfileId::new(), unlock_ref: None }),
        Request::StopSession(SessionId::new()),
        Request::ListSessions,
        Request::GetDiagnostics(SessionId::new()),
        Request::Doctor,
        Request::CheckUpdate(VersionInfo::installed()),
        Request::ApplyUpdate(manifest()),
        Request::GetStatus,
        Request::GetEnforcement,
        Request::SetEnforcement(Enforcement::secure()),
    ];
    for (i, a) in requests.iter().enumerate() {
        for (j, b) in requests.iter().enumerate() {
            assert_eq!(a.op_name() == b.op_name(), i == j);
        }
    }
    assert_eq!(requests[2].op_name(), "update-profile");
}

// --- frames -----------------------------------------------------------------

#[test]
fn frame_roundtrip_small() {
    let body = b"{\"n\":7}".to_vec();
    let wire = write_frame(&body).unwrap();
    assert_eq!(&wire[..HEADER_LEN], &[0, 0, 0, 7]);
    assert_eq!(read_frame(&wire).unwrap(), body);
}

#[test]
fn frame_roundtrip_large_body() {
    let body = vec![0xABu8; 1_000_000];
    let back = read_frame(&write_frame(&body).unwrap()).unwrap();
    assert_eq!(back.len(), 1_000_000);
    assert_eq!(back, body);
}

#[test]
fn multiple_frames_in_sequence() {
    let mut wire: Vec<u8> = Vec::new();
    for i in 0..5u8 {
        wire.extend(write_frame(&vec![i; i as usize]).unwrap());
    }
    for i in 0..5u8 {
        let body = read_frame(&wire).unwrap();
        assert_eq!(body, vec![i; i as usize]);
        wire = wire[HEADER_LEN + body.len()..].to_vec();
    }
}

#[test]
fn clean_eof_is_closed() {
    let err = read_frame(&Vec::new()).unwrap_err();
    assert!(err.is_closed(), "expected Closed, got {err:?}");
}

#[test]
fn oversized_length_prefix_is_rejected_without_reading_body() {
    // Declare a body far larger than MAX_FRAME_LEN, then send nothing.
    let bogus_len = (MAX_FRAME_LEN as u32) + 1;
    let err = read_frame(&bogus_len.to_be_bytes().to_vec()).unwrap_err();
    match err {
        FrameError::TooLarge { len, max } => {
            assert_eq!(len, bogus_len as usize);
            assert_eq!(max, MAX_FRAME_LEN);
        }
        other => panic!("expected TooLarge, got {other:?}"),
    }
    assert!(body_len(&header(bogus_len)).is_err());
    assert_eq!(body_len(&header(MAX_FRAME_LEN as u32)).unwrap(), MAX_FRAME_LEN);
}

#[test]
fn truncated_body_is_io_error() {
    // Declare 100 bytes, send only 10, then close.
    let mut wire = 100u32.to_be_bytes().to_vec();
    wire.extend([0u8; 10]);
    let err = read_frame(&wire).unwrap_err();
    assert!(matches!(err, FrameError::Io(_)), "got {err:?}");
}

#[test]
fn a_truncated_header_is_no_clean_close() {
    for n in 1..HEADER_LEN {
        let err = read_frame(&vec![0u8; n]).unwrap_err();
        assert!(matches!(err, FrameError::Io(_)), "got {err:?}");
        assert!(!err.is_closed());
        assert!(matches!(short_header(n), FrameError::Io(_)));
    }
    assert!(short_header(0).is_closed());
}

#[test]
fn frame_error_maps_to_system_class() {
    let e = FrameError::TooLarge { len: 999, max: MAX_FRAME_LEN }.into_error();
    assert_eq!(e.class(), FailureClass::System);
}

#[test]
fn frame_errors_have_their_texts() {
    assert_eq!(FrameError::Closed.text(), "connection closed");
    assert_eq!(
        FrameError::TooLarge { len: 9, max: 8 }.text(),
        "frame too large: 9 bytes (max 8)"
    );
    assert_eq!(FrameError::Io("x".into()).text(), "io error: x");
    assert_eq!(FrameError::Decode("x".into()).text(), "frame decode error: x");
    assert_eq!(FrameError::Decode("x".into()).into_error().text(), "system error: decode: x");
    assert!(matches!(
        write_frame(&vec![0u8; MAX_FRAME_LEN + 1]),
        Err(FrameError::TooLarge { .. })
    ));
}

// --- peers ------------------------------------------------------------------

#[test]
fn auth_policy_same_uid() {
    let p = AuthPolicy::same_uid(1000);
    assert!(p.permits(1000));
    assert!(!p.permits(0));
    assert!(!p.permits(1001));
}

#[test]
fn auth_policy_with_extra_allowed_uid() {
    let p = AuthPolicy::with_allowed(0, 1000);
    assert!(p.permits(0)); // daemon (root)
    assert!(p.permits(1000)); // configured service account
    assert!(!p.permits(1001));
}

#[test]
fn the_uid_is_read_from_a_status() {
    assert_eq!(uid_from_status("Name:\tx\nUid:\t1000\t1000\t1000\t1000\nGid:\t5\n"), 1000);
    assert_eq!(uid_from_status("Uid: x\nUid: 7"), 7);
    assert_eq!(uid_from_status("Name: x"), 0);
    assert_eq!(uid_from_status("Uid: 4294967296"), 0);
}

#[test]
fn tokens_are_trimmed_and_bounded() {
    assert_eq!(parse_token("abc \r\n").unwrap(), "abc");
    assert_eq!(parse_token(" abc\n").unwrap(), " abc");
    assert_eq!(
        parse_token(" \n").unwrap_err().text(),
        "invalid configuration: token file is empty"
    );
    assert_eq!(
        parse_token(&"x".repeat(MAX_TOKEN_LEN + 1)).unwrap_err().text(),
        "invalid configuration: token is too long"
    );
    assert!(parse_token(&"x".repeat(MAX_TOKEN_LEN)).is_ok());
    assert!(tokens_match("abc", "abc"));
    assert!(!tokens_match("abc", "abd"));
    assert!(!tokens_match("abc", "ab"));
    assert!(!tokens_match("", "a"));
}
