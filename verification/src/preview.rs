//! What a profile will present to websites.
//!
//! Everything is derived from the profile specification, so that the preview
//! cannot drift from what the launcher applies.

use crate::browser::BrowserBackendId;
use crate::config::IsolationLevel;
use crate::fingerprint::{
    representative_user_agent, user_agent_text, CanvasMode, FingerprintPolicy, LetterboxMode,
    ProtectionLevel, WebGlMode,
};
use crate::profile::ProfileSpec;
use vstd::prelude::*;

verus! {

/// A display-friendly summary of a profile's observable properties.
#[derive(Debug, PartialEq, Eq)]
pub struct ProfilePreview {
    /// Browser engine family.
    pub browser: BrowserBackendId,
    /// A representative User-Agent string.
    pub user_agent: String,
    /// Isolation level.
    pub isolation: IsolationLevel,
    /// Human label for the isolation level.
    pub isolation_label: String,
    /// Network route label.
    pub network: String,
    /// Coarse protection level.
    pub protection: ProtectionLevel,
    /// Pinned timezone, or "system-derived".
    pub timezone: String,
    /// Pinned primary language.
    pub language: String,
    /// Reported CPU count, if fixed.
    pub hardware_concurrency: Option<u32>,
    /// WebGL treatment label.
    pub webgl: String,
    /// Whether WebGPU is exposed.
    pub webgpu_enabled: bool,
    /// Canvas treatment label.
    pub canvas: String,
    /// Whether letterboxing is on.
    pub letterbox: bool,
    /// Timer coarsening in microseconds.
    pub timer_coarsening_us: u32,
    /// Whether the device APIs are blocked.
    pub device_apis_blocked: bool,
    /// Whether the media-device list is limited.
    pub limit_media_devices: bool,
    /// Whether the Battery Status API is suppressed.
    pub battery_disabled: bool,
    /// Whether sensors are suppressed.
    pub sensors_disabled: bool,
}

impl ProfilePreview {
    /// Whether the preview shows the specification under the policy `fp`.
    pub open spec fn shows(self, spec: ProfileSpec, fp: FingerprintPolicy) -> bool {
        &&& self.browser == spec.browser
        &&& self.user_agent@ == user_agent_text(spec.browser)
        &&& self.isolation == spec.isolation
        &&& self.isolation_label@ == spec.isolation.name()
        &&& self.network@ == spec.network.mode.name()
        &&& self.protection == fp.level
        &&& self.timezone@ == match fp.timezone {
            Some(z) => z@,
            None => "system-derived"@,
        }
        &&& self.language@ == fp.primary_language@
        &&& self.hardware_concurrency == fp.hardware_concurrency
        &&& self.webgl@ == match fp.webgl {
            WebGlMode::VirtualBackend => "virtual backend"@,
            WebGlMode::Restricted => "restricted"@,
            WebGlMode::Disabled => "disabled"@,
        }
        &&& self.webgpu_enabled == fp.webgpu_enabled
        &&& self.canvas@ == match fp.canvas {
            CanvasMode::Passthrough => "passthrough"@,
            CanvasMode::Limited => "limited"@,
        }
        &&& self.letterbox == (fp.letterbox == LetterboxMode::On)
        &&& self.timer_coarsening_us == fp.timer_coarsening_us
        &&& self.device_apis_blocked == fp.block_device_apis
        &&& self.limit_media_devices == fp.limit_media_device_enumeration
        &&& self.battery_disabled == fp.disable_battery_api
        &&& self.sensors_disabled == fp.disable_sensor_apis
    }

    /// Whether the preview shows the specification under the policy in effect.
    pub open spec fn previews(self, spec: ProfileSpec) -> bool {
        exists|fp: FingerprintPolicy| #[trigger] spec.resolves_to(fp) && self.shows(spec, fp)
    }

    /// The preview of a profile specification.
    #[must_use]
    pub fn from_spec(spec: &ProfileSpec) -> (r: ProfilePreview)
        ensures
            r.previews(*spec),
    {
        let fp = spec.resolved_fingerprint();
        let r = ProfilePreview {
            browser: spec.browser,
            user_agent: representative_user_agent(spec.browser),
            isolation: spec.isolation,
            isolation_label: spec.isolation.label().to_owned(),
            network: spec.network.mode.label().to_owned(),
            protection: fp.level,
            timezone: match &fp.timezone {
                Some(z) => z.clone(),
                None => "system-derived".to_owned(),
            },
            language: fp.primary_language.clone(),
            hardware_concurrency: fp.hardware_concurrency,
            webgl: match fp.webgl {
                WebGlMode::VirtualBackend => "virtual backend".to_owned(),
                WebGlMode::Restricted => "restricted".to_owned(),
                WebGlMode::Disabled => "disabled".to_owned(),
            },
            webgpu_enabled: fp.webgpu_enabled,
            canvas: match fp.canvas {
                CanvasMode::Passthrough => "passthrough".to_owned(),
                CanvasMode::Limited => "limited".to_owned(),
            },
            letterbox: matches!(fp.letterbox, LetterboxMode::On),
            timer_coarsening_us: fp.timer_coarsening_us,
            device_apis_blocked: fp.block_device_apis,
            limit_media_devices: fp.limit_media_device_enumeration,
            battery_disabled: fp.disable_battery_api,
            sensors_disabled: fp.disable_sensor_apis,
        };
        assert(spec.resolves_to(fp) && r.shows(*spec, fp));
        r
    }

    /// Whether both previews show the same.
    pub open spec fn same(self, other: ProfilePreview) -> bool {
        &&& self.browser == other.browser
        &&& self.user_agent@ == other.user_agent@
        &&& self.isolation == other.isolation
        &&& self.isolation_label@ == other.isolation_label@
        &&& self.network@ == other.network@
        &&& self.protection == other.protection
        &&& self.timezone@ == other.timezone@
        &&& self.language@ == other.language@
        &&& self.hardware_concurrency == other.hardware_concurrency
        &&& self.webgl@ == other.webgl@
        &&& self.webgpu_enabled == other.webgpu_enabled
        &&& self.canvas@ == other.canvas@
        &&& self.letterbox == other.letterbox
        &&& self.timer_coarsening_us == other.timer_coarsening_us
        &&& self.device_apis_blocked == other.device_apis_blocked
        &&& self.limit_media_devices == other.limit_media_devices
        &&& self.battery_disabled == other.battery_disabled
        &&& self.sensors_disabled == other.sensors_disabled
    }
}

/// The preview is determined by the specification: two previews of one
/// specification show the same.
pub proof fn law_preview_is_determined(spec: ProfileSpec, a: ProfilePreview, b: ProfilePreview)
    requires
        a.previews(spec),
        b.previews(spec),
    ensures
        a.same(b),
{
}

/// A preview shows what the policy of the profile will show a site: the profile's
/// own policy, or the one that its level implies; and where, and through what, it
/// will run.
pub proof fn law_preview_shows_the_policy(v: ProfilePreview, spec: ProfileSpec)
    requires
        v.previews(spec),
    ensures
        v.browser == spec.browser,
        v.isolation == spec.isolation,
        spec.isolation is FullVm ==> v.isolation_label@ == "full VM isolation"@,
        spec.isolation is HostProcess ==> v.isolation_label@ == "host process (reduced)"@,
        spec.network.mode is Tor ==> v.network@ == "Tor"@,
        spec.network.mode is Vpn ==> v.network@ == "VPN"@,
        spec.network.mode is Proxy ==> v.network@ == "Proxy"@,
        spec.fingerprint is None ==> v.protection == spec.protection && v.timezone@ == "UTC"@
            && v.language@ == "en-US"@ && v.device_apis_blocked && v.battery_disabled
            && v.sensors_disabled && !v.webgpu_enabled,
        spec.fingerprint matches Some(fp) ==> {
            &&& v.protection == fp.level
            &&& v.timezone@ == match fp.timezone {
                Some(z) => z@,
                None => "system-derived"@,
            }
            &&& v.language@ == fp.primary_language@
            &&& v.hardware_concurrency == fp.hardware_concurrency
            &&& fp.webgl is VirtualBackend ==> v.webgl@ == "virtual backend"@
            &&& fp.webgl is Restricted ==> v.webgl@ == "restricted"@
            &&& fp.webgl is Disabled ==> v.webgl@ == "disabled"@
            &&& v.webgpu_enabled == fp.webgpu_enabled
            &&& fp.canvas is Passthrough ==> v.canvas@ == "passthrough"@
            &&& fp.canvas is Limited ==> v.canvas@ == "limited"@
            &&& v.letterbox <==> fp.letterbox is On
            &&& v.timer_coarsening_us == fp.timer_coarsening_us
            &&& v.device_apis_blocked == fp.block_device_apis
            &&& v.limit_media_devices == fp.limit_media_device_enumeration
            &&& v.battery_disabled == fp.disable_battery_api
            &&& v.sensors_disabled == fp.disable_sensor_apis
        },
{
}

} // verus!
