//! Fingerprint-normalization policy.
//!
//! The goal is unlinkability through uniformity: sessions of one level look
//! alike, and values stay stable within a session.

use crate::browser::BrowserBackendId;
use crate::text;
use vstd::prelude::*;

verus! {

/// The two supported protection levels.
#[derive(Debug, Clone, Copy, PartialEq, Eq, Hash, Structural)]
pub enum ProtectionLevel {
    /// Most sites work normally.
    Balanced,
    /// More privacy, more breakage.
    Strict,
}

impl Default for ProtectionLevel {
    fn default() -> (r: ProtectionLevel)
        ensures
            r == ProtectionLevel::Balanced,
    {
        ProtectionLevel::Balanced
    }
}

impl ProtectionLevel {
    /// The UI label.
    pub open spec fn name(self) -> Seq<char> {
        match self {
            ProtectionLevel::Balanced => "Balanced"@,
            ProtectionLevel::Strict => "Strict"@,
        }
    }

    /// Short UI label.
    #[must_use]
    pub fn label(self) -> (r: &'static str)
        ensures
            r@ == self.name(),
    {
        match self {
            ProtectionLevel::Balanced => "Balanced",
            ProtectionLevel::Strict => "Strict",
        }
    }

    /// The full normalization policy implied by this level.
    #[must_use]
    pub fn policy(self) -> (r: FingerprintPolicy)
        ensures
            r.implied_by(self),
    {
        match self {
            ProtectionLevel::Balanced => FingerprintPolicy::balanced(),
            ProtectionLevel::Strict => FingerprintPolicy::strict(),
        }
    }
}

/// The four one-click safety tiers.
///
/// They collapse onto the two protection levels: `Compatibility` and `Balanced`
/// onto [`ProtectionLevel::Balanced`], `Strict` and `Paranoid` onto
/// [`ProtectionLevel::Strict`].
#[derive(Debug, Clone, Copy, PartialEq, Eq, Hash, Structural)]
pub enum SafetyPreset {
    /// Least intrusive.
    Compatibility,
    /// The default tier.
    Balanced,
    /// Stronger privacy.
    Strict,
    /// Strongest privacy.
    Paranoid,
}

impl SafetyPreset {
    /// The protection level that the tier collapses onto.
    pub open spec fn collapsed(self) -> ProtectionLevel {
        match self {
            SafetyPreset::Compatibility | SafetyPreset::Balanced => ProtectionLevel::Balanced,
            SafetyPreset::Strict | SafetyPreset::Paranoid => ProtectionLevel::Strict,
        }
    }

    /// The protection level that the tier collapses onto.
    #[must_use]
    pub fn level(self) -> (r: ProtectionLevel)
        ensures
            r == self.collapsed(),
    {
        match self {
            SafetyPreset::Compatibility => ProtectionLevel::Balanced,
            SafetyPreset::Balanced => ProtectionLevel::Balanced,
            SafetyPreset::Strict => ProtectionLevel::Strict,
            SafetyPreset::Paranoid => ProtectionLevel::Strict,
        }
    }

    /// The normalization policy of the tier.
    #[must_use]
    pub fn policy(self) -> (r: FingerprintPolicy)
        ensures
            r.implied_by(self.collapsed()),
    {
        self.level().policy()
    }
}

/// How WebGL is exposed.
#[derive(Debug, Clone, Copy, PartialEq, Eq, Structural)]
pub enum WebGlMode {
    /// Enabled through the virtual backend.
    VirtualBackend,
    /// Enabled with restricted parameter exposure.
    Restricted,
    /// Disabled entirely.
    Disabled,
}

/// How Canvas readback is treated.
#[derive(Debug, Clone, Copy, PartialEq, Eq, Structural)]
pub enum CanvasMode {
    /// Pass through the virtualized rendering.
    Passthrough,
    /// Apply session-stable, uniform limiting.
    Limited,
}

/// Rounding of the content area to shared buckets.
#[derive(Debug, Clone, Copy, PartialEq, Eq, Structural)]
pub enum LetterboxMode {
    /// Report the exact virtualized viewport.
    Off,
    /// Round the content area to shared buckets.
    On,
}

/// The font-exposure strategy.
#[derive(Debug, Clone, Copy, PartialEq, Eq, Structural)]
pub enum FontPolicy {
    /// Expose a standard bundled font set only.
    StandardSet,
}

/// The complete normalization policy for a session.
#[derive(Debug, PartialEq, Eq)]
pub struct FingerprintPolicy {
    /// The originating level.
    pub level: ProtectionLevel,
    /// WebGL exposure mode.
    pub webgl: WebGlMode,
    /// Whether WebGPU is available.
    pub webgpu_enabled: bool,
    /// Canvas readback treatment.
    pub canvas: CanvasMode,
    /// Letterboxing of the content area.
    pub letterbox: LetterboxMode,
    /// Font exposure strategy.
    pub fonts: FontPolicy,
    /// Microseconds of coarsening applied to high-resolution timers.
    pub timer_coarsening_us: u32,
    /// Whether media-device enumeration is limited.
    pub limit_media_device_enumeration: bool,
    /// A fixed reported CPU count, or `None` to expose the virtual one.
    pub hardware_concurrency: Option<u32>,
    /// Whether the Battery Status API is suppressed.
    pub disable_battery_api: bool,
    /// Whether sensor APIs are suppressed.
    pub disable_sensor_apis: bool,
    /// Whether Bluetooth, USB, Serial, HID and MIDI are blocked.
    pub block_device_apis: bool,
    /// A shared canonical timezone, or `None` to use the tunnel-derived zone.
    pub timezone: Option<String>,
    /// A shared canonical primary language tag.
    pub primary_language: String,
}

impl Clone for FingerprintPolicy {
    fn clone(&self) -> (r: FingerprintPolicy)
        ensures
            r == *self,
    {
        FingerprintPolicy {
            level: self.level,
            webgl: self.webgl,
            webgpu_enabled: self.webgpu_enabled,
            canvas: self.canvas,
            letterbox: self.letterbox,
            fonts: self.fonts,
            timer_coarsening_us: self.timer_coarsening_us,
            limit_media_device_enumeration: self.limit_media_device_enumeration,
            hardware_concurrency: self.hardware_concurrency,
            disable_battery_api: self.disable_battery_api,
            disable_sensor_apis: self.disable_sensor_apis,
            block_device_apis: self.block_device_apis,
            timezone: text::copy_opt(&self.timezone),
            primary_language: self.primary_language.clone(),
        }
    }
}

impl FingerprintPolicy {
    /// Whether this is the policy of the given level.
    pub open spec fn implied_by(self, level: ProtectionLevel) -> bool {
        &&& self.level == level
        &&& !self.webgpu_enabled
        &&& self.fonts == FontPolicy::StandardSet
        &&& self.limit_media_device_enumeration
        &&& self.disable_battery_api
        &&& self.disable_sensor_apis
        &&& self.block_device_apis
        &&& self.timezone matches Some(z) && z@ == "UTC"@
        &&& self.primary_language@ == "en-US"@
        &&& match level {
            ProtectionLevel::Balanced => {
                &&& self.webgl == WebGlMode::VirtualBackend
                &&& self.canvas == CanvasMode::Passthrough
                &&& self.letterbox == LetterboxMode::Off
                &&& self.timer_coarsening_us == 100
                &&& self.hardware_concurrency == Some(4u32)
            },
            ProtectionLevel::Strict => {
                &&& self.webgl == WebGlMode::Disabled
                &&& self.canvas == CanvasMode::Limited
                &&& self.letterbox == LetterboxMode::On
                &&& self.timer_coarsening_us == 100_000
                &&& self.hardware_concurrency == Some(2u32)
            },
        }
    }

    /// The rule that the policy breaks, if any: whatever the level, device APIs
    /// are blocked and sensors and battery suppressed; Strict exposes neither
    /// WebGPU nor a full WebGL backend.
    pub open spec fn violation(self) -> Option<Seq<char>> {
        if !self.block_device_apis {
            Some("Bluetooth/USB/Serial/HID/MIDI must be blocked"@)
        } else if self.level == ProtectionLevel::Strict && self.webgpu_enabled {
            Some("WebGPU must be disabled in Strict mode"@)
        } else if self.level == ProtectionLevel::Strict && self.webgl == WebGlMode::VirtualBackend {
            Some("Strict mode must not expose a full WebGL backend"@)
        } else if !self.disable_sensor_apis {
            Some("sensor APIs must be suppressed"@)
        } else if !self.disable_battery_api {
            Some("the Battery Status API must be suppressed"@)
        } else {
            None
        }
    }

    /// Balanced level: maximize compatibility while cutting host linkage.
    #[must_use]
    pub fn balanced() -> (r: FingerprintPolicy)
        ensures
            r.implied_by(ProtectionLevel::Balanced),
    {
        FingerprintPolicy {
            level: ProtectionLevel::Balanced,
            webgl: WebGlMode::VirtualBackend,
            webgpu_enabled: false,
            canvas: CanvasMode::Passthrough,
            letterbox: LetterboxMode::Off,
            fonts: FontPolicy::StandardSet,
            timer_coarsening_us: 100,
            limit_media_device_enumeration: true,
            hardware_concurrency: Some(4),
            disable_battery_api: true,
            disable_sensor_apis: true,
            block_device_apis: true,
            timezone: Some("UTC".to_owned()),
            primary_language: "en-US".to_owned(),
        }
    }

    /// Strict level: maximize uniformity, accept more breakage.
    #[must_use]
    pub fn strict() -> (r: FingerprintPolicy)
        ensures
            r.implied_by(ProtectionLevel::Strict),
    {
        FingerprintPolicy {
            level: ProtectionLevel::Strict,
            webgl: WebGlMode::Disabled,
            webgpu_enabled: false,
            canvas: CanvasMode::Limited,
            letterbox: LetterboxMode::On,
            fonts: FontPolicy::StandardSet,
            timer_coarsening_us: 100_000,
            limit_media_device_enumeration: true,
            hardware_concurrency: Some(2),
            disable_battery_api: true,
            disable_sensor_apis: true,
            block_device_apis: true,
            timezone: Some("UTC".to_owned()),
            primary_language: "en-US".to_owned(),
        }
    }

    /// The first rule that the policy breaks, or `None`.
    #[must_use]
    pub fn validate(&self) -> (r: Option<&'static str>)
        ensures
            match r {
                Some(m) => self.violation() == Some(m@),
                None => self.violation() is None,
            },
    {
        if !self.block_device_apis {
            return Some("Bluetooth/USB/Serial/HID/MIDI must be blocked");
        }
        if self.level == ProtectionLevel::Strict && self.webgpu_enabled {
            return Some("WebGPU must be disabled in Strict mode");
        }
        if self.level == ProtectionLevel::Strict && self.webgl == WebGlMode::VirtualBackend {
            return Some("Strict mode must not expose a full WebGL backend");
        }
        if !self.disable_sensor_apis {
            return Some("sensor APIs must be suppressed");
        }
        if !self.disable_battery_api {
            return Some("the Battery Status API must be suppressed");
        }
        None
    }
}

impl Default for FingerprintPolicy {
    fn default() -> (r: FingerprintPolicy)
        ensures
            r.implied_by(ProtectionLevel::Balanced),
    {
        FingerprintPolicy::balanced()
    }
}

/// An illustrative User-Agent of the engine.
pub open spec fn user_agent_text(browser: BrowserBackendId) -> Seq<char> {
    match browser {
        BrowserBackendId::Chromium => {
            "Mozilla/5.0 (X11; Linux x86_64) AppleWebKit/537.36 (KHTML, like Gecko) Chrome/124.0.0.0 Safari/537.36"@
        },
        BrowserBackendId::Firefox => {
            "Mozilla/5.0 (X11; Linux x86_64; rv:128.0) Gecko/20100101 Firefox/128.0"@
        },
    }
}

/// An illustrative User-Agent of the engine; the real engine version is kept at
/// run time.
#[must_use]
pub fn representative_user_agent(browser: BrowserBackendId) -> (r: String)
    ensures
        r@ == user_agent_text(browser),
{
    match browser {
        BrowserBackendId::Chromium => {
            "Mozilla/5.0 (X11; Linux x86_64) AppleWebKit/537.36 (KHTML, like Gecko) Chrome/124.0.0.0 Safari/537.36".to_owned()
        },
        BrowserBackendId::Firefox => {
            "Mozilla/5.0 (X11; Linux x86_64; rv:128.0) Gecko/20100101 Firefox/128.0".to_owned()
        },
    }
}

/// The policy of every level keeps every rule.
pub proof fn law_levels_are_valid(p: FingerprintPolicy, level: ProtectionLevel)
    requires
        p.implied_by(level),
    ensures
        p.violation() is None,
{
}

/// A policy keeps every rule exactly where it blocks the device APIs and
/// suppresses sensors and battery, whatever its level, and exposes neither WebGPU
/// nor a full WebGL backend in Strict.
pub proof fn law_valid_policies_block_devices(p: FingerprintPolicy)
    ensures
        p.violation() is None <==> {
            &&& p.block_device_apis
            &&& p.disable_sensor_apis
            &&& p.disable_battery_api
            &&& p.level == ProtectionLevel::Strict ==> !p.webgpu_enabled && p.webgl
                != WebGlMode::VirtualBackend
        },
{
}

/// Both levels pin the same zone and language, expose no WebGPU, no device class,
/// no sensor and no battery; Strict gives up WebGL and canvas detail, letterboxes
/// and coarsens time a thousandfold, which Balanced does not.
pub proof fn law_levels_are_what_they_promise(p: FingerprintPolicy, level: ProtectionLevel)
    requires
        p.implied_by(level),
    ensures
        p.level == level,
        p.timezone matches Some(z) && z@ == "UTC"@,
        p.primary_language@ == "en-US"@,
        !p.webgpu_enabled,
        p.block_device_apis && p.disable_sensor_apis && p.disable_battery_api,
        p.limit_media_device_enumeration,
        p.fonts is StandardSet,
        level is Balanced ==> p.webgl is VirtualBackend && p.canvas is Passthrough && p.letterbox is Off
            && p.timer_coarsening_us == 100 && p.hardware_concurrency == Some(4u32),
        level is Strict ==> p.webgl is Disabled && p.canvas is Limited && p.letterbox is On
            && p.timer_coarsening_us == 100_000 && p.hardware_concurrency == Some(2u32),
{
}

/// What is wrong with a policy is said of the rule that it breaks.
pub proof fn law_refusals_name_the_rule(p: FingerprintPolicy)
    ensures
        !p.block_device_apis ==> p.violation() == Some(
            "Bluetooth/USB/Serial/HID/MIDI must be blocked"@,
        ),
        p.block_device_apis && p.level is Strict && p.webgpu_enabled ==> p.violation() == Some(
            "WebGPU must be disabled in Strict mode"@,
        ),
        p.block_device_apis && p.level is Strict && !p.webgpu_enabled && p.webgl is VirtualBackend
            ==> p.violation() == Some("Strict mode must not expose a full WebGL backend"@),
{
}

/// The presets collapse to the level that is at least as careful: the two cautious
/// ones to Strict, the two others to Balanced.
pub proof fn law_presets_collapse(preset: SafetyPreset)
    ensures
        preset.collapsed() is Strict <==> preset is Strict || preset is Paranoid,
        preset.collapsed() is Balanced <==> preset is Compatibility || preset is Balanced,
        ProtectionLevel::Balanced.name() == "Balanced"@,
        ProtectionLevel::Strict.name() == "Strict"@,
{
}

/// A User-Agent names its own engine and not the other one, on the same common
/// platform.
pub proof fn law_user_agents_name_their_engine(browser: BrowserBackendId)
    ensures
        crate::text::mentions(user_agent_text(browser), "X11; Linux x86_64"@),
        browser is Chromium ==> crate::text::mentions(user_agent_text(browser), "Chrome/124.0.0.0"@),
        browser is Firefox ==> crate::text::mentions(user_agent_text(browser), "Firefox/128.0"@),
        user_agent_text(BrowserBackendId::Chromium) != user_agent_text(BrowserBackendId::Firefox),
{
    reveal_strlit("Mozilla/5.0 (X11; Linux x86_64) AppleWebKit/537.36 (KHTML, like Gecko) Chrome/124.0.0.0 Safari/537.36");
    reveal_strlit("Mozilla/5.0 (X11; Linux x86_64; rv:128.0) Gecko/20100101 Firefox/128.0");
    reveal_strlit("X11; Linux x86_64");
    reveal_strlit("Chrome/124.0.0.0");
    reveal_strlit("Firefox/128.0");
    let c = user_agent_text(BrowserBackendId::Chromium);
    let f = user_agent_text(BrowserBackendId::Firefox);
    assert(c.subrange(13, 30) =~= "X11; Linux x86_64"@);
    assert(f.subrange(13, 30) =~= "X11; Linux x86_64"@);
    assert(crate::text::stands_at(c, "X11; Linux x86_64"@, 13));
    assert(crate::text::stands_at(f, "X11; Linux x86_64"@, 13));
    assert(c.subrange(71, 87) =~= "Chrome/124.0.0.0"@);
    assert(crate::text::stands_at(c, "Chrome/124.0.0.0"@, 71));
    assert(f.subrange(57, 70) =~= "Firefox/128.0"@);
    assert(crate::text::stands_at(f, "Firefox/128.0"@, 57));
    assert(c.len() != f.len());
}

} // verus!
