//! The hardened Chromium backend.
//!
//! Rendering is a pure function from a launch request to managed policies and a
//! vetted command line: the sandbox and Site Isolation are kept, all traffic is
//! forced through the proxy, non-proxied UDP is blocked for WebRTC, sync and
//! telemetry are off, and remote debugging never appears.

use crate::browser::{
    arg_complaint, first_complaint, forbidden_flags, is_forbidden, law_one_bad_argument_refuses,
    sets_flag, BackendCapabilities, BackendPolicyBundle, BrowserBackendId, BrowserHandle,
    BrowserLaunchRequest,
};
use crate::error::Error;
use crate::fingerprint::{ProtectionLevel, WebGlMode};
use crate::permissions::{Feature, PermissionState};
use crate::policy::{PolicyModel, PolicyTable, PolicyValue};
use crate::runner::{launch_plan, plans_launch, LaunchSpec};
use crate::table::TextTable;
use crate::text;
use vstd::prelude::*;

verus! {

/// The managed-policy filename that Chromium reads.
pub const MANAGED_POLICY_FILE: &'static str = "aegis-managed.json";

/// The origin at which feature defaults are resolved for the global policies.
pub const POLICY_ORIGIN: &'static str = "https://example.invalid";

/// The content setting that blocks.
const SETTING_BLOCK: i64 = 2;

/// The content setting that asks.
const SETTING_ASK: i64 = 3;

/// The Chromium content setting of a permission state: 1 allows, 2 blocks, 3
/// asks.
pub open spec fn setting_of(state: PermissionState) -> int {
    match state {
        PermissionState::Allow | PermissionState::ConfinedToVm | PermissionState::Limited => 1,
        PermissionState::Ask => 3,
        PermissionState::Block | PermissionState::Quarantine => 2,
    }
}

/// The geolocation setting: blocked unless allowed outright.
pub open spec fn geolocation_setting(state: PermissionState) -> int {
    if state == PermissionState::Allow {
        1
    } else {
        2
    }
}

/// The command line for a request.
pub open spec fn chromium_args(req: BrowserLaunchRequest) -> Seq<Seq<char>> {
    let base = seq![
            "--user-data-dir="@ + req.user_data_dir@,
            "--proxy-server="@ + req.proxy_endpoint@,
            "--proxy-bypass-list="@,
            "--force-webrtc-ip-handling-policy=disable_non_proxied_udp"@,
            "--disable-sync"@,
            "--disable-background-networking"@,
            "--disable-component-update"@,
            "--disable-domain-reliability"@,
            "--disable-breakpad"@,
            "--no-pings"@,
            "--no-default-browser-check"@,
            "--no-first-run"@,
            "--disable-first-run-ui"@,
            "--metrics-recording-only"@,
            "--disable-features=Translate,MediaRouter,OptimizationHints"@,
            "--site-per-process"@,
            "--enable-features=StrictOriginIsolation"@,
            "--lang="@ + req.fingerprint.primary_language@,
            "--accept-lang="@ + req.fingerprint.primary_language@,
    ];
    let gl = if req.fingerprint.webgl == WebGlMode::Disabled {
        base.push("--disable-webgl"@).push("--disable-webgl2"@)
    } else {
        base
    };
    let gpu = if !req.fingerprint.webgpu_enabled {
        gl.push("--disable-features=WebGPU,WebGPUService"@).push("--disable-webgpu"@)
    } else {
        gl
    };
    if req.fingerprint.level == ProtectionLevel::Strict {
        gpu.push("--disable-3d-apis"@)
    } else {
        gpu
    }
}

/// The managed policies for a request.
pub open spec fn chromium_policies(req: BrowserLaunchRequest) -> Map<Seq<char>, PolicyModel> {
    let at = |f: Feature| req.permissions.in_effect(POLICY_ORIGIN@, f);
    map![
            "SyncDisabled"@ => PolicyModel::Flag(true),
            "MetricsReportingEnabled"@ => PolicyModel::Flag(false),
            "BrowserSignin"@ => PolicyModel::Number(0),
            "RemoteDebuggingAllowed"@ => PolicyModel::Flag(false),
            "BackgroundModeEnabled"@ => PolicyModel::Flag(false),
            "PromotionalTabsEnabled"@ => PolicyModel::Flag(false),
            "SpellCheckServiceEnabled"@ => PolicyModel::Flag(false),
            "UrlKeyedAnonymizedDataCollectionEnabled"@ => PolicyModel::Flag(false),
            "SafeBrowsingExtendedReportingEnabled"@ => PolicyModel::Flag(false),
            "DefaultGeolocationSetting"@ => PolicyModel::Number(geolocation_setting(at(Feature::Location))),
            "DefaultSensorsSetting"@ => PolicyModel::Number(2),
            "AudioCaptureAllowed"@ => PolicyModel::Flag(at(Feature::Microphone) == PermissionState::Allow),
            "VideoCaptureAllowed"@ => PolicyModel::Flag(at(Feature::Camera) == PermissionState::Allow),
            "DefaultWebBluetoothGuardSetting"@ => PolicyModel::Number(2),
            "DefaultWebUsbGuardSetting"@ => PolicyModel::Number(2),
            "DefaultSerialGuardSetting"@ => PolicyModel::Number(2),
            "DefaultHidGuardSetting"@ => PolicyModel::Number(2),
            "DefaultNotificationsSetting"@ => PolicyModel::Number(setting_of(at(Feature::Notifications))),
            "DefaultClipboardSetting"@ => PolicyModel::Number(setting_of(at(Feature::ClipboardRead))),
            "PromptForDownloadLocation"@ => PolicyModel::Flag(true),
            "DownloadRestrictions"@ => PolicyModel::Number(0),
            "DefaultPopupsSetting"@ => PolicyModel::Number(2),
            "DefaultInsecureContentSetting"@ => PolicyModel::Number(2),
            "BlockThirdPartyCookies"@ => PolicyModel::Flag(true),
            "DefaultWebHidGuardSetting"@ => PolicyModel::Number(2),
    ]
}

/// Whether `bundle` is the Chromium bundle for a request.
pub open spec fn is_chromium_bundle(bundle: BackendPolicyBundle, req: BrowserLaunchRequest) -> bool {
    &&& bundle.backend == BrowserBackendId::Chromium
    &&& text::texts(bundle.command_line@) == chromium_args(req)
    &&& bundle.managed_policies@.dom() == set![MANAGED_POLICY_FILE@]
    &&& bundle.managed_policies@[MANAGED_POLICY_FILE@]@ == chromium_policies(req)
    &&& bundle.preferences@ == Map::<Seq<char>, PolicyModel>::empty()
}

/// Appends an argument.
pub(crate) fn push_arg(args: &mut Vec<String>, arg: &str)
    ensures
        text::texts(final(args)@) == text::texts(old(args)@).push(arg@),
{
    args.push(arg.to_owned());
    assert(text::texts(args@) =~= text::texts(old(args)@).push(arg@));
}

/// The command line for a request.
fn render_command_line(req: &BrowserLaunchRequest) -> (r: Vec<String>)
    ensures
        text::texts(r@) == chromium_args(*req),
{
    let mut args: Vec<String> = Vec::new();
    assert(text::texts(args@) =~= Seq::<Seq<char>>::empty());
    push_arg(&mut args, text::cat2("--user-data-dir=", req.user_data_dir.as_str()).as_str());
    push_arg(&mut args, text::cat2("--proxy-server=", req.proxy_endpoint.as_str()).as_str());
    push_arg(&mut args, "--proxy-bypass-list=");
    push_arg(&mut args, "--force-webrtc-ip-handling-policy=disable_non_proxied_udp");
    push_arg(&mut args, "--disable-sync");
    push_arg(&mut args, "--disable-background-networking");
    push_arg(&mut args, "--disable-component-update");
    push_arg(&mut args, "--disable-domain-reliability");
    push_arg(&mut args, "--disable-breakpad");
    push_arg(&mut args, "--no-pings");
    push_arg(&mut args, "--no-default-browser-check");
    push_arg(&mut args, "--no-first-run");
    push_arg(&mut args, "--disable-first-run-ui");
    push_arg(&mut args, "--metrics-recording-only");
    push_arg(&mut args, "--disable-features=Translate,MediaRouter,OptimizationHints");
    push_arg(&mut args, "--site-per-process");
    push_arg(&mut args, "--enable-features=StrictOriginIsolation");
    push_arg(&mut args, text::cat2("--lang=", req.fingerprint.primary_language.as_str()).as_str());
    push_arg(&mut args, text::cat2("--accept-lang=", req.fingerprint.primary_language.as_str()).as_str());
    if matches!(req.fingerprint.webgl, WebGlMode::Disabled) {
        push_arg(&mut args, "--disable-webgl");
        push_arg(&mut args, "--disable-webgl2");
    }
    if !req.fingerprint.webgpu_enabled {
        push_arg(&mut args, "--disable-features=WebGPU,WebGPUService");
        push_arg(&mut args, "--disable-webgpu");
    }
    if req.fingerprint.level == ProtectionLevel::Strict {
        push_arg(&mut args, "--disable-3d-apis");
    }
    args
}

/// The Chromium content setting of a permission state.
fn content_setting(state: PermissionState) -> (r: i64)
    ensures
        r == setting_of(state),
{
    match state {
        PermissionState::Allow => 1,
        PermissionState::ConfinedToVm => 1,
        PermissionState::Limited => 1,
        PermissionState::Ask => SETTING_ASK,
        PermissionState::Block => SETTING_BLOCK,
        PermissionState::Quarantine => SETTING_BLOCK,
    }
}

/// The managed policies for a request.
fn render_managed_policies(req: &BrowserLaunchRequest) -> (r: TextTable<PolicyTable>)
    ensures
        r@.dom() == set![MANAGED_POLICY_FILE@],
        r@[MANAGED_POLICY_FILE@]@ == chromium_policies(*req),
{
    let perms = &req.permissions;
    let geo = perms.effective(POLICY_ORIGIN, Feature::Location);
    let cam = perms.effective(POLICY_ORIGIN, Feature::Camera);
    let mic = perms.effective(POLICY_ORIGIN, Feature::Microphone);
    let notif = perms.effective(POLICY_ORIGIN, Feature::Notifications);
    let clipboard = perms.effective(POLICY_ORIGIN, Feature::ClipboardRead);
    let geolocation: i64 = if matches!(geo, PermissionState::Allow) {
        1
    } else {
        SETTING_BLOCK
    };
    let mut doc = PolicyTable::new();
    doc.put("SyncDisabled", PolicyValue::Flag(true));
    doc.put("MetricsReportingEnabled", PolicyValue::Flag(false));
    doc.put("BrowserSignin", PolicyValue::Number(0));
    doc.put("RemoteDebuggingAllowed", PolicyValue::Flag(false));
    doc.put("BackgroundModeEnabled", PolicyValue::Flag(false));
    doc.put("PromotionalTabsEnabled", PolicyValue::Flag(false));
    doc.put("SpellCheckServiceEnabled", PolicyValue::Flag(false));
    doc.put("UrlKeyedAnonymizedDataCollectionEnabled", PolicyValue::Flag(false));
    doc.put("SafeBrowsingExtendedReportingEnabled", PolicyValue::Flag(false));
    doc.put("DefaultGeolocationSetting", PolicyValue::Number(geolocation));
    doc.put("DefaultSensorsSetting", PolicyValue::Number(SETTING_BLOCK));
    doc.put("AudioCaptureAllowed", PolicyValue::Flag(matches!(mic, PermissionState::Allow)));
    doc.put("VideoCaptureAllowed", PolicyValue::Flag(matches!(cam, PermissionState::Allow)));
    doc.put("DefaultWebBluetoothGuardSetting", PolicyValue::Number(SETTING_BLOCK));
    doc.put("DefaultWebUsbGuardSetting", PolicyValue::Number(SETTING_BLOCK));
    doc.put("DefaultSerialGuardSetting", PolicyValue::Number(SETTING_BLOCK));
    doc.put("DefaultHidGuardSetting", PolicyValue::Number(SETTING_BLOCK));
    doc.put("DefaultNotificationsSetting", PolicyValue::Number(content_setting(notif)));
    doc.put("DefaultClipboardSetting", PolicyValue::Number(content_setting(clipboard)));
    doc.put("PromptForDownloadLocation", PolicyValue::Flag(true));
    doc.put("DownloadRestrictions", PolicyValue::Number(0));
    doc.put("DefaultPopupsSetting", PolicyValue::Number(SETTING_BLOCK));
    doc.put("DefaultInsecureContentSetting", PolicyValue::Number(SETTING_BLOCK));
    doc.put("BlockThirdPartyCookies", PolicyValue::Flag(true));
    doc.put("DefaultWebHidGuardSetting", PolicyValue::Number(SETTING_BLOCK));
    let mut out: TextTable<PolicyTable> = TextTable::new();
    out.insert(MANAGED_POLICY_FILE.to_owned(), doc);
    assert(out@.dom() =~= set![MANAGED_POLICY_FILE@]);
    out
}

/// Renders the Chromium policy for a request. Fails exactly where the
/// fingerprint policy breaks a rule; what it renders passes
/// [`BackendPolicyBundle::assert_safe`] in every build.
pub fn render_chromium_policy(req: &BrowserLaunchRequest) -> (r: Result<BackendPolicyBundle, Error>)
    ensures
        match r {
            Ok(b) => {
                &&& req.fingerprint.violation() is None
                &&& is_chromium_bundle(b, *req)
                &&& b.complaint(true) is None
                &&& b.complaint(false) is None
            },
            Err(e) => {
                &&& req.fingerprint.violation() is Some
                &&& e matches Error::Config(m) && m@ == "invalid fingerprint policy: "@
                    + req.fingerprint.violation()->0
            },
        },
{
    if let Some(reason) = req.fingerprint.validate() {
        return Err(Error::Config(text::cat2("invalid fingerprint policy: ", reason)));
    }
    let bundle = BackendPolicyBundle {
        backend: BrowserBackendId::Chromium,
        managed_policies: render_managed_policies(req),
        command_line: render_command_line(req),
        preferences: PolicyTable::new(),
    };
    proof {
        law_chromium_args_are_safe(*req, true);
        law_chromium_args_are_safe(*req, false);
    }
    match bundle.assert_safe(req.production) {
        Ok(_) => Ok(bundle),
        Err(e) => Err(e),
    }
}

/// An argument that differs from each forbidden flag and from the debugging
/// prefix at some position is harmless.
pub(crate) proof fn lemma_harmless(arg: Seq<char>, production: bool, a: int, b: int, c: int, d: int)
    requires
        ({
            let f = forbidden_flags();
            &&& 0 <= a < arg.len() && a < f[0].len() && arg[a] != f[0][a]
            &&& 0 <= b < arg.len() && b < f[1].len() && arg[b] != f[1][b]
            &&& 0 <= c < arg.len() && c < f[2].len() && arg[c] != f[2][c]
            &&& 0 <= d < arg.len() && d < "--remote-debugging"@.len() && arg[d]
                != "--remote-debugging"@[d]
        }),
    ensures
        arg_complaint(arg, production) is None,
{
    let f = forbidden_flags();
    lemma_differs(arg, f[0], a);
    lemma_differs(arg, f[1], b);
    lemma_differs(arg, f[2], c);
    assert(!is_forbidden(arg));
    if "--remote-debugging"@.is_prefix_of(arg) {
        assert("--remote-debugging"@ == arg.subrange(0, "--remote-debugging"@.len() as int));
        assert("--remote-debugging"@[d] == arg.subrange(0, "--remote-debugging"@.len() as int)[d]);
    }
}

proof fn lemma_differs(arg: Seq<char>, flag: Seq<char>, i: int)
    requires
        0 <= i < arg.len(),
        i < flag.len(),
        arg[i] != flag[i],
    ensures
        !sets_flag(arg, flag),
{
    let p = flag + "="@;
    if p.is_prefix_of(arg) {
        assert(p[i] == flag[i]);
        assert(p == arg.subrange(0, p.len() as int));
        assert(p[i] == arg.subrange(0, p.len() as int)[i]);
    }
}

/// Whether an argument parts early from every forbidden flag and from the
/// debugging prefix.
spec fn keeps_clear(arg: Seq<char>) -> bool {
    &&& arg.len() > 5
    &&& arg[2] != 'r'
    &&& arg[2] == 'n' ==> arg[5] != 's'
    &&& arg[2] == 'd' ==> {
        &&& arg.len() > 13
        &&& arg[10] == 's' ==> arg[11] != 'i'
        &&& arg[10] == 'w' ==> arg[13] != '-'
    }
}

proof fn lemma_keeps_clear(arg: Seq<char>, production: bool)
    requires
        keeps_clear(arg),
    ensures
        arg_complaint(arg, production) is None,
{
    reveal_strlit("--no-sandbox");
    reveal_strlit("--disable-web-security");
    reveal_strlit("--disable-site-isolation-trials");
    reveal_strlit("--remote-debugging");
    let a: int = if arg[2] == 'n' { 5 } else { 2 };
    let b: int = if arg[2] != 'd' { 2 } else if arg[10] == 'w' { 13 } else { 10 };
    let c: int = if arg[2] != 'd' { 2 } else if arg[10] == 's' { 11 } else { 10 };
    lemma_harmless(arg, production, a, b, c, 2);
}

/// No request makes the rendered command line unsafe: it holds neither a
/// forbidden flag nor remote debugging, in any build.
pub proof fn law_chromium_args_are_safe(req: BrowserLaunchRequest, production: bool)
    ensures
        first_complaint(chromium_args(req), production) is None,
{
    reveal_strlit("--user-data-dir=");
    reveal_strlit("--proxy-server=");
    reveal_strlit("--proxy-bypass-list=");
    reveal_strlit("--force-webrtc-ip-handling-policy=disable_non_proxied_udp");
    reveal_strlit("--disable-sync");
    reveal_strlit("--disable-background-networking");
    reveal_strlit("--disable-component-update");
    reveal_strlit("--disable-domain-reliability");
    reveal_strlit("--disable-breakpad");
    reveal_strlit("--no-pings");
    reveal_strlit("--no-default-browser-check");
    reveal_strlit("--no-first-run");
    reveal_strlit("--disable-first-run-ui");
    reveal_strlit("--metrics-recording-only");
    reveal_strlit("--disable-features=Translate,MediaRouter,OptimizationHints");
    reveal_strlit("--site-per-process");
    reveal_strlit("--enable-features=StrictOriginIsolation");
    reveal_strlit("--lang=");
    reveal_strlit("--accept-lang=");
    reveal_strlit("--disable-webgl");
    reveal_strlit("--disable-webgl2");
    reveal_strlit("--disable-features=WebGPU,WebGPUService");
    reveal_strlit("--disable-webgpu");
    reveal_strlit("--disable-3d-apis");
    let args = chromium_args(req);
    assert forall|i: int| 0 <= i < args.len() implies arg_complaint(
        #[trigger] args[i],
        production,
    ) is None by {
        assert(keeps_clear(args[i]));
        lemma_keeps_clear(args[i], production);
    }
    law_one_bad_argument_refuses(args, production);
}

/// The hardened Chromium backend: a runner, the program that it starts and the
/// slug of the VM that it addresses.
#[derive(Debug)]
pub struct ChromiumBackend<R> {
    /// The runner that controls the process.
    pub runner: R,
    /// The executable name.
    pub program: String,
    /// The slug that the runner addresses.
    pub vm_slug: String,
}

impl<R> ChromiumBackend<R> {
    /// A backend bound to a runner, a program name and a VM slug.
    pub fn new(runner: R, program: &str, vm_slug: &str) -> (r: ChromiumBackend<R>)
        ensures
            r.runner == runner,
            r.program@ == program@,
            r.vm_slug@ == vm_slug@,
    {
        ChromiumBackend { runner, program: program.to_owned(), vm_slug: vm_slug.to_owned() }
    }

    /// Which backend this is.
    #[must_use]
    pub fn id(&self) -> (r: BrowserBackendId)
        ensures
            r == BrowserBackendId::Chromium,
    {
        BrowserBackendId::Chromium
    }

    /// What the backend can do: everything but letterboxing.
    #[must_use]
    pub fn capabilities(&self) -> (r: BackendCapabilities)
        ensures
            !r.letterboxing,
            r.site_isolation,
            r.renderer_sandbox,
            r.webrtc_policy,
    {
        BackendCapabilities {
            letterboxing: false,
            site_isolation: true,
            renderer_sandbox: true,
            webrtc_policy: true,
        }
    }

    /// Renders the policy for a request.
    pub fn render_policy(&self, req: &BrowserLaunchRequest) -> (r: Result<
        BackendPolicyBundle,
        Error,
    >)
        ensures
            r is Ok <==> req.fingerprint.violation() is None,
            r matches Ok(b) ==> is_chromium_bundle(b, *req) && b.complaint(req.production) is None,
            r matches Err(e) ==> (e matches Error::Config(m) && m@ == "invalid fingerprint policy: "@
                + req.fingerprint.violation()->0),
    {
        render_chromium_policy(req)
    }

    /// What the runner is to start: the vetted bundle's command line, verbatim.
    /// A bundle that is unsafe or of another backend is refused.
    pub fn launch_spec(&self, req: &BrowserLaunchRequest, bundle: &BackendPolicyBundle) -> (r: Result<
        LaunchSpec,
        Error,
    >)
        ensures
            match r {
                Ok(s) => {
                    &&& bundle.complaint(req.production) is None
                    &&& bundle.backend == BrowserBackendId::Chromium
                    &&& plans_launch(s, self.program@, *req, *bundle)
                },
                Err(Error::Config(m)) => {
                    ||| bundle.complaint(req.production) == Some(m@)
                    ||| bundle.complaint(req.production) is None && bundle.backend
                        != BrowserBackendId::Chromium && m@
                        == "bundle backend does not match ChromiumBackend"@
                },
                Err(_) => false,
            },
    {
        match bundle.assert_safe(req.production) {
            Ok(_) => {},
            Err(e) => {
                return Err(e);
            },
        }
        if bundle.backend != BrowserBackendId::Chromium {
            return Err(Error::Config("bundle backend does not match ChromiumBackend".to_owned()));
        }
        Ok(launch_plan(self.program.as_str(), req, bundle))
    }

    /// The handle of a process that the runner started.
    #[must_use]
    pub fn handle(&self, req: &BrowserLaunchRequest, token: String) -> (r: BrowserHandle)
        ensures
            r.session == req.session,
            r.backend == BrowserBackendId::Chromium,
            r.process_token == token,
    {
        BrowserHandle {
            session: req.session,
            backend: BrowserBackendId::Chromium,
            process_token: token,
        }
    }
}

/// What tells two keys of the managed policies apart: the length and two characters.
spec fn mark(key: Seq<char>) -> (nat, char, char) {
    (key.len(), key[0], key[10])
}

/// No two keys of the managed policies have the same mark.
proof fn lemma_marks()
    ensures
        mark("SyncDisabled"@) == (12nat, 'S', 'e'),
        mark("MetricsReportingEnabled"@) == (23nat, 'M', 'o'),
        mark("BrowserSignin"@) == (13nat, 'B', 'n'),
        mark("RemoteDebuggingAllowed"@) == (22nat, 'R', 'g'),
        mark("BackgroundModeEnabled"@) == (21nat, 'B', 'M'),
        mark("PromotionalTabsEnabled"@) == (22nat, 'P', 'l'),
        mark("SpellCheckServiceEnabled"@) == (24nat, 'S', 'S'),
        mark("UrlKeyedAnonymizedDataCollectionEnabled"@) == (39nat, 'U', 'o'),
        mark("SafeBrowsingExtendedReportingEnabled"@) == (36nat, 'S', 'n'),
        mark("DefaultGeolocationSetting"@) == (25nat, 'D', 'l'),
        mark("DefaultSensorsSetting"@) == (21nat, 'D', 's'),
        mark("AudioCaptureAllowed"@) == (19nat, 'A', 'r'),
        mark("VideoCaptureAllowed"@) == (19nat, 'V', 'r'),
        mark("DefaultWebBluetoothGuardSetting"@) == (31nat, 'D', 'B'),
        mark("DefaultWebUsbGuardSetting"@) == (25nat, 'D', 'U'),
        mark("DefaultSerialGuardSetting"@) == (25nat, 'D', 'i'),
        mark("DefaultHidGuardSetting"@) == (22nat, 'D', 'G'),
        mark("DefaultNotificationsSetting"@) == (27nat, 'D', 'i'),
        mark("DefaultClipboardSetting"@) == (23nat, 'D', 'p'),
        mark("PromptForDownloadLocation"@) == (25nat, 'P', 'o'),
        mark("DownloadRestrictions"@) == (20nat, 'D', 's'),
        mark("DefaultPopupsSetting"@) == (20nat, 'D', 'u'),
        mark("DefaultInsecureContentSetting"@) == (29nat, 'D', 'e'),
        mark("BlockThirdPartyCookies"@) == (22nat, 'B', 'P'),
        mark("DefaultWebHidGuardSetting"@) == (25nat, 'D', 'H'),
{
    reveal_strlit("SyncDisabled");
    reveal_strlit("MetricsReportingEnabled");
    reveal_strlit("BrowserSignin");
    reveal_strlit("RemoteDebuggingAllowed");
    reveal_strlit("BackgroundModeEnabled");
    reveal_strlit("PromotionalTabsEnabled");
    reveal_strlit("SpellCheckServiceEnabled");
    reveal_strlit("UrlKeyedAnonymizedDataCollectionEnabled");
    reveal_strlit("SafeBrowsingExtendedReportingEnabled");
    reveal_strlit("DefaultGeolocationSetting");
    reveal_strlit("DefaultSensorsSetting");
    reveal_strlit("AudioCaptureAllowed");
    reveal_strlit("VideoCaptureAllowed");
    reveal_strlit("DefaultWebBluetoothGuardSetting");
    reveal_strlit("DefaultWebUsbGuardSetting");
    reveal_strlit("DefaultSerialGuardSetting");
    reveal_strlit("DefaultHidGuardSetting");
    reveal_strlit("DefaultNotificationsSetting");
    reveal_strlit("DefaultClipboardSetting");
    reveal_strlit("PromptForDownloadLocation");
    reveal_strlit("DownloadRestrictions");
    reveal_strlit("DefaultPopupsSetting");
    reveal_strlit("DefaultInsecureContentSetting");
    reveal_strlit("BlockThirdPartyCookies");
    reveal_strlit("DefaultWebHidGuardSetting");
}

/// Whatever the request, the managed policies keep every device class and the
/// sensors blocked, sync, metrics and remote debugging off, and third-party
/// cookies blocked.
pub proof fn law_chromium_guards_hold(req: BrowserLaunchRequest)
    ensures
        ({
            let p = chromium_policies(req);
            &&& p["SyncDisabled"@] == PolicyModel::Flag(true)
            &&& p["MetricsReportingEnabled"@] == PolicyModel::Flag(false)
            &&& p["RemoteDebuggingAllowed"@] == PolicyModel::Flag(false)
            &&& p["DefaultSensorsSetting"@] == PolicyModel::Number(2)
            &&& p["DefaultWebBluetoothGuardSetting"@] == PolicyModel::Number(2)
            &&& p["DefaultWebUsbGuardSetting"@] == PolicyModel::Number(2)
            &&& p["DefaultSerialGuardSetting"@] == PolicyModel::Number(2)
            &&& p["DefaultHidGuardSetting"@] == PolicyModel::Number(2)
            &&& p["BlockThirdPartyCookies"@] == PolicyModel::Flag(true)
            &&& p["DefaultWebHidGuardSetting"@] == PolicyModel::Number(2)
        }),
{
    lemma_marks();
}

/// Every Chromium launch goes through the proxy with nothing exempt, and WebRTC
/// sends nothing past it.
pub proof fn law_chromium_is_proxied(req: BrowserLaunchRequest)
    ensures
        chromium_args(req).contains("--proxy-server="@ + req.proxy_endpoint@),
        chromium_args(req).contains("--proxy-bypass-list="@),
        chromium_args(req).contains("--force-webrtc-ip-handling-policy=disable_non_proxied_udp"@),
{
    let args = chromium_args(req);
    assert(args[1] == "--proxy-server="@ + req.proxy_endpoint@);
    assert(args[2] == "--proxy-bypass-list="@);
    assert(args[3] == "--force-webrtc-ip-handling-policy=disable_non_proxied_udp"@);
}

/// Whether an argument switches Site Isolation off through the feature list.
pub open spec fn switches_isolation_off(arg: Seq<char>) -> bool {
    &&& "--disable-features="@.is_prefix_of(arg)
    &&& text::mentions(arg, "IsolateOrigins"@) || text::mentions(arg, "site-per-process"@)
}

/// Site Isolation is strengthened on every command line and never switched off.
pub proof fn law_chromium_isolates_sites(bundle: BackendPolicyBundle, req: BrowserLaunchRequest)
    requires
        is_chromium_bundle(bundle, req),
    ensures
        text::texts(bundle.command_line@).contains("--site-per-process"@),
        text::texts(bundle.command_line@).contains("--enable-features=StrictOriginIsolation"@),
        forall|i: int|
            0 <= i < bundle.command_line@.len() ==> !switches_isolation_off(
                (#[trigger] bundle.command_line@[i])@,
            ),
{
    let args = chromium_args(req);
    assert(args[15] == "--site-per-process"@);
    assert(args[16] == "--enable-features=StrictOriginIsolation"@);
    assert forall|i: int| 0 <= i < bundle.command_line@.len() implies !switches_isolation_off(
        (#[trigger] bundle.command_line@[i])@,
    ) by {
        assert(bundle.command_line@[i]@ == args[i]);
        if "--disable-features="@.is_prefix_of(args[i]) {
            lemma_feature_lists(req, i);
            lemma_no_isolation_in(args[i]);
        }
    }
}

/// The only feature lists on a command line are these two.
proof fn lemma_feature_lists(req: BrowserLaunchRequest, i: int)
    requires
        0 <= i < chromium_args(req).len(),
        "--disable-features="@.is_prefix_of(chromium_args(req)[i]),
    ensures
        chromium_args(req)[i] == "--disable-features=Translate,MediaRouter,OptimizationHints"@
            || chromium_args(req)[i] == "--disable-features=WebGPU,WebGPUService"@,
{
    reveal_strlit("--user-data-dir=");
    reveal_strlit("--proxy-server=");
    reveal_strlit("--proxy-bypass-list=");
    reveal_strlit("--force-webrtc-ip-handling-policy=disable_non_proxied_udp");
    reveal_strlit("--disable-sync");
    reveal_strlit("--disable-background-networking");
    reveal_strlit("--disable-component-update");
    reveal_strlit("--disable-domain-reliability");
    reveal_strlit("--disable-breakpad");
    reveal_strlit("--no-pings");
    reveal_strlit("--no-default-browser-check");
    reveal_strlit("--no-first-run");
    reveal_strlit("--disable-first-run-ui");
    reveal_strlit("--metrics-recording-only");
    reveal_strlit("--disable-features=Translate,MediaRouter,OptimizationHints");
    reveal_strlit("--site-per-process");
    reveal_strlit("--enable-features=StrictOriginIsolation");
    reveal_strlit("--lang=");
    reveal_strlit("--accept-lang=");
    reveal_strlit("--disable-webgl");
    reveal_strlit("--disable-webgl2");
    reveal_strlit("--disable-features=WebGPU,WebGPUService");
    reveal_strlit("--disable-webgpu");
    reveal_strlit("--disable-3d-apis");
    reveal_strlit("--disable-features=");
    let arg = chromium_args(req)[i];
    let front = arg.subrange(0, 19);
    assert(front == "--disable-features="@);
    assert(front[2] == arg[2] && front[10] == arg[10] && front[11] == arg[11]);
    assert(arg[2] == 'd' && arg[10] == 'f' && arg[11] == 'e');
}

proof fn lemma_no_isolation_in(arg: Seq<char>)
    requires
        arg == "--disable-features=Translate,MediaRouter,OptimizationHints"@ || arg
            == "--disable-features=WebGPU,WebGPUService"@,
    ensures
        !text::mentions(arg, "IsolateOrigins"@),
        !text::mentions(arg, "site-per-process"@),
{
    reveal_strlit("--disable-features=Translate,MediaRouter,OptimizationHints");
    reveal_strlit("--disable-features=WebGPU,WebGPUService");
    reveal_strlit("IsolateOrigins");
    reveal_strlit("site-per-process");
    assert forall|j: int| !#[trigger] text::stands_at(arg, "IsolateOrigins"@, j) by {
        if text::stands_at(arg, "IsolateOrigins"@, j) {
            assert(arg.subrange(j, j + 14)[0] == arg[j]);
        }
    }
    assert forall|j: int| !#[trigger] text::stands_at(arg, "site-per-process"@, j) by {
        if text::stands_at(arg, "site-per-process"@, j) {
            assert(arg.subrange(j, j + 16)[4] == arg[j + 4]);
            assert(arg.subrange(j, j + 16)[1] == arg[j + 1]);
        }
    }
}

/// The command line is that of the request: its profile directory, its proxy and
/// its language, and beside them every switch that keeps the browser quiet: no
/// sync, no background traffic, no updates, no reports. There is no room for an
/// argument more.
pub proof fn law_chromium_launch_is_the_requested_one(
    bundle: BackendPolicyBundle,
    req: BrowserLaunchRequest,
)
    requires
        is_chromium_bundle(bundle, req),
    ensures
        bundle.backend is Chromium,
        bundle.command_line@.len() == 19 + (if req.fingerprint.webgl is Disabled {
            2int
        } else {
            0
        }) + (if !req.fingerprint.webgpu_enabled {
            2int
        } else {
            0
        }) + (if req.fingerprint.level is Strict {
            1int
        } else {
            0
        }),
        text::texts(bundle.command_line@)[0] == "--user-data-dir="@ + req.user_data_dir@,
        text::texts(bundle.command_line@)[1] == "--proxy-server="@ + req.proxy_endpoint@,
        text::texts(bundle.command_line@)[2] == "--proxy-bypass-list="@,
        text::texts(bundle.command_line@)[3]
            == "--force-webrtc-ip-handling-policy=disable_non_proxied_udp"@,
        text::texts(bundle.command_line@).contains("--disable-sync"@),
        text::texts(bundle.command_line@).contains("--disable-background-networking"@),
        text::texts(bundle.command_line@).contains("--disable-component-update"@),
        text::texts(bundle.command_line@).contains("--disable-domain-reliability"@),
        text::texts(bundle.command_line@).contains("--disable-breakpad"@),
        text::texts(bundle.command_line@).contains("--no-pings"@),
        text::texts(bundle.command_line@).contains("--no-default-browser-check"@),
        text::texts(bundle.command_line@).contains("--no-first-run"@),
        text::texts(bundle.command_line@).contains("--disable-first-run-ui"@),
        text::texts(bundle.command_line@).contains("--metrics-recording-only"@),
        text::texts(bundle.command_line@).contains(
            "--disable-features=Translate,MediaRouter,OptimizationHints"@,
        ),
        text::texts(bundle.command_line@).contains(
            "--lang="@ + req.fingerprint.primary_language@,
        ),
        text::texts(bundle.command_line@).contains(
            "--accept-lang="@ + req.fingerprint.primary_language@,
        ),
{
    let args = chromium_args(req);
    assert(bundle.command_line@.len() == text::texts(bundle.command_line@).len());
    assert(args[4] == "--disable-sync"@);
    assert(args[5] == "--disable-background-networking"@);
    assert(args[6] == "--disable-component-update"@);
    assert(args[7] == "--disable-domain-reliability"@);
    assert(args[8] == "--disable-breakpad"@);
    assert(args[9] == "--no-pings"@);
    assert(args[10] == "--no-default-browser-check"@);
    assert(args[11] == "--no-first-run"@);
    assert(args[12] == "--disable-first-run-ui"@);
    assert(args[13] == "--metrics-recording-only"@);
    assert(args[14] == "--disable-features=Translate,MediaRouter,OptimizationHints"@);
    assert(args[17] == "--lang="@ + req.fingerprint.primary_language@);
    assert(args[18] == "--accept-lang="@ + req.fingerprint.primary_language@);
}

/// WebGL, WebGPU and the 3D interfaces are switched off exactly where the policy
/// asks for it: WebGL where it is disabled, WebGPU where it is not enabled, and
/// everything 3D at the strict level.
#[verifier::rlimit(60)]
pub proof fn law_chromium_graphics_follow_the_policy(
    bundle: BackendPolicyBundle,
    req: BrowserLaunchRequest,
)
    requires
        is_chromium_bundle(bundle, req),
    ensures
        ({
            let args = text::texts(bundle.command_line@);
            let fp = req.fingerprint;
            &&& args.contains("--disable-webgl"@) <==> fp.webgl is Disabled
            &&& args.contains("--disable-webgl2"@) <==> fp.webgl is Disabled
            &&& args.contains("--disable-webgpu"@) <==> !fp.webgpu_enabled
            &&& args.contains("--disable-features=WebGPU,WebGPUService"@) <==> !fp.webgpu_enabled
            &&& args.contains("--disable-3d-apis"@) <==> fp.level is Strict
        }),
{
    reveal_strlit("--user-data-dir=");
    reveal_strlit("--proxy-server=");
    reveal_strlit("--proxy-bypass-list=");
    reveal_strlit("--force-webrtc-ip-handling-policy=disable_non_proxied_udp");
    reveal_strlit("--disable-sync");
    reveal_strlit("--disable-background-networking");
    reveal_strlit("--disable-component-update");
    reveal_strlit("--disable-domain-reliability");
    reveal_strlit("--disable-breakpad");
    reveal_strlit("--no-pings");
    reveal_strlit("--no-default-browser-check");
    reveal_strlit("--no-first-run");
    reveal_strlit("--disable-first-run-ui");
    reveal_strlit("--metrics-recording-only");
    reveal_strlit("--disable-features=Translate,MediaRouter,OptimizationHints");
    reveal_strlit("--site-per-process");
    reveal_strlit("--enable-features=StrictOriginIsolation");
    reveal_strlit("--lang=");
    reveal_strlit("--accept-lang=");
    reveal_strlit("--disable-webgl");
    reveal_strlit("--disable-webgl2");
    reveal_strlit("--disable-features=WebGPU,WebGPUService");
    reveal_strlit("--disable-webgpu");
    reveal_strlit("--disable-3d-apis");
    let args = chromium_args(req);
    let fp = req.fingerprint;
    let a: int = if fp.webgl is Disabled {
        2
    } else {
        0
    };
    let b: int = if !fp.webgpu_enabled {
        2
    } else {
        0
    };
    if fp.webgl is Disabled {
        assert(args[19] == "--disable-webgl"@);
        assert(args[20] == "--disable-webgl2"@);
    }
    if !fp.webgpu_enabled {
        assert(args[19 + a] == "--disable-features=WebGPU,WebGPUService"@);
        assert(args[20 + a] == "--disable-webgpu"@);
    }
    if fp.level is Strict {
        assert(args[19 + a + b] == "--disable-3d-apis"@);
    }
    assert forall|i: int|
        0 <= i < args.len() && (#[trigger] args[i] == "--disable-webgl"@ || args[i]
            == "--disable-webgl2"@) implies fp.webgl is Disabled by {
        assert(args[i][2] == 'd' && args[i][10] == 'w' && args[i][14] == 'l');
    }
    assert forall|i: int|
        0 <= i < args.len() && #[trigger] args[i] == "--disable-webgpu"@ implies !fp.webgpu_enabled by {
        assert(args[i].len() == 16 && args[i][2] == 'd' && args[i][10] == 'w' && args[i][14] == 'p');
    }
    assert forall|i: int|
        0 <= i < args.len() && #[trigger] args[i]
            == "--disable-features=WebGPU,WebGPUService"@ implies !fp.webgpu_enabled by {
        assert(args[i][2] == 'd' && args[i][10] == 'f' && args[i][19] == 'W' && args[i].len() == 39);
    }
    assert forall|i: int|
        0 <= i < args.len() && #[trigger] args[i] == "--disable-3d-apis"@ implies fp.level is Strict by {
        assert(args[i][2] == 'd' && args[i][10] == '3');
    }
}

/// The managed policies follow the permissions of the profile: capture is allowed
/// for microphone and camera each by its own permission alone, location is blocked
/// unless allowed outright, and notifications and the clipboard are allowed,
/// blocked or asked for as their own permission says.
pub proof fn law_chromium_policies_follow_permissions(
    bundle: BackendPolicyBundle,
    req: BrowserLaunchRequest,
)
    requires
        is_chromium_bundle(bundle, req),
    ensures
        ({
            let p = bundle.managed_policies@["aegis-managed.json"@]@;
            let at = |f: Feature| req.permissions.in_effect("https://example.invalid"@, f);
            &&& p["AudioCaptureAllowed"@] == PolicyModel::Flag(at(Feature::Microphone) is Allow)
            &&& p["VideoCaptureAllowed"@] == PolicyModel::Flag(at(Feature::Camera) is Allow)
            &&& at(Feature::Location) is Allow ==> p["DefaultGeolocationSetting"@]
                == PolicyModel::Number(1)
            &&& at(Feature::Location) !is Allow ==> p["DefaultGeolocationSetting"@]
                == PolicyModel::Number(2)
            &&& p["DefaultNotificationsSetting"@] == PolicyModel::Number(1) <==> (at(
                Feature::Notifications,
            ) is Allow || at(Feature::Notifications) is ConfinedToVm || at(
                Feature::Notifications,
            ) is Limited)
            &&& p["DefaultNotificationsSetting"@] == PolicyModel::Number(3) <==> at(
                Feature::Notifications,
            ) is Ask
            &&& p["DefaultNotificationsSetting"@] == PolicyModel::Number(2) <==> (at(
                Feature::Notifications,
            ) is Block || at(Feature::Notifications) is Quarantine)
            &&& p["DefaultClipboardSetting"@] == PolicyModel::Number(1) <==> (at(
                Feature::ClipboardRead,
            ) is Allow || at(Feature::ClipboardRead) is ConfinedToVm || at(
                Feature::ClipboardRead,
            ) is Limited)
            &&& p["DefaultClipboardSetting"@] == PolicyModel::Number(3) <==> at(
                Feature::ClipboardRead,
            ) is Ask
            &&& p["DefaultClipboardSetting"@] == PolicyModel::Number(2) <==> (at(
                Feature::ClipboardRead,
            ) is Block || at(Feature::ClipboardRead) is Quarantine)
        }),
{
    lemma_marks();
}

/// Whatever the request, the browser is not signed in, does not run on in the
/// background and reports nothing; it asks where to put a download, and blocks
/// pop-ups and insecure content. These are all the managed policies there are.
pub proof fn law_chromium_stays_quiet(bundle: BackendPolicyBundle, req: BrowserLaunchRequest)
    requires
        is_chromium_bundle(bundle, req),
    ensures
        ({
            let p = bundle.managed_policies@["aegis-managed.json"@]@;
            &&& p["BrowserSignin"@] == PolicyModel::Number(0)
            &&& p["BackgroundModeEnabled"@] == PolicyModel::Flag(false)
            &&& p["PromotionalTabsEnabled"@] == PolicyModel::Flag(false)
            &&& p["SpellCheckServiceEnabled"@] == PolicyModel::Flag(false)
            &&& p["UrlKeyedAnonymizedDataCollectionEnabled"@] == PolicyModel::Flag(false)
            &&& p["SafeBrowsingExtendedReportingEnabled"@] == PolicyModel::Flag(false)
            &&& p["PromptForDownloadLocation"@] == PolicyModel::Flag(true)
            &&& p["DownloadRestrictions"@] == PolicyModel::Number(0)
            &&& p["DefaultPopupsSetting"@] == PolicyModel::Number(2)
            &&& p["DefaultInsecureContentSetting"@] == PolicyModel::Number(2)
            &&& p["SyncDisabled"@] == PolicyModel::Flag(true)
            &&& p["MetricsReportingEnabled"@] == PolicyModel::Flag(false)
            &&& p["RemoteDebuggingAllowed"@] == PolicyModel::Flag(false)
            &&& p["DefaultSensorsSetting"@] == PolicyModel::Number(2)
            &&& p["DefaultWebBluetoothGuardSetting"@] == PolicyModel::Number(2)
            &&& p["DefaultWebUsbGuardSetting"@] == PolicyModel::Number(2)
            &&& p["DefaultSerialGuardSetting"@] == PolicyModel::Number(2)
            &&& p["DefaultHidGuardSetting"@] == PolicyModel::Number(2)
            &&& p["DefaultWebHidGuardSetting"@] == PolicyModel::Number(2)
            &&& p["BlockThirdPartyCookies"@] == PolicyModel::Flag(true)
        }),
        bundle.managed_policies@.dom() == set!["aegis-managed.json"@],
        bundle.preferences@ == Map::<Seq<char>, PolicyModel>::empty(),
        bundle.managed_policies@["aegis-managed.json"@]@.dom() == set![
            "SyncDisabled"@,
            "MetricsReportingEnabled"@,
            "BrowserSignin"@,
            "RemoteDebuggingAllowed"@,
            "BackgroundModeEnabled"@,
            "PromotionalTabsEnabled"@,
            "SpellCheckServiceEnabled"@,
            "UrlKeyedAnonymizedDataCollectionEnabled"@,
            "SafeBrowsingExtendedReportingEnabled"@,
            "DefaultGeolocationSetting"@,
            "DefaultSensorsSetting"@,
            "AudioCaptureAllowed"@,
            "VideoCaptureAllowed"@,
            "DefaultWebBluetoothGuardSetting"@,
            "DefaultWebUsbGuardSetting"@,
            "DefaultSerialGuardSetting"@,
            "DefaultHidGuardSetting"@,
            "DefaultNotificationsSetting"@,
            "DefaultClipboardSetting"@,
            "PromptForDownloadLocation"@,
            "DownloadRestrictions"@,
            "DefaultPopupsSetting"@,
            "DefaultInsecureContentSetting"@,
            "BlockThirdPartyCookies"@,
            "DefaultWebHidGuardSetting"@,
        ],
{
    lemma_marks();
    let p = chromium_policies(req);
    assert(p.dom() =~= set![
        "SyncDisabled"@,
        "MetricsReportingEnabled"@,
        "BrowserSignin"@,
        "RemoteDebuggingAllowed"@,
        "BackgroundModeEnabled"@,
        "PromotionalTabsEnabled"@,
        "SpellCheckServiceEnabled"@,
        "UrlKeyedAnonymizedDataCollectionEnabled"@,
        "SafeBrowsingExtendedReportingEnabled"@,
        "DefaultGeolocationSetting"@,
        "DefaultSensorsSetting"@,
        "AudioCaptureAllowed"@,
        "VideoCaptureAllowed"@,
        "DefaultWebBluetoothGuardSetting"@,
        "DefaultWebUsbGuardSetting"@,
        "DefaultSerialGuardSetting"@,
        "DefaultHidGuardSetting"@,
        "DefaultNotificationsSetting"@,
        "DefaultClipboardSetting"@,
        "PromptForDownloadLocation"@,
        "DownloadRestrictions"@,
        "DefaultPopupsSetting"@,
        "DefaultInsecureContentSetting"@,
        "BlockThirdPartyCookies"@,
        "DefaultWebHidGuardSetting"@,
    ]);
}

} // verus!
