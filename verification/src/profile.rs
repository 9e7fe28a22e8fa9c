//! Browsing profiles: the user-facing unit of isolation.

use crate::browser::BrowserBackendId;
use crate::config::IsolationLevel;
use crate::error::Error;
use crate::fingerprint::{FingerprintPolicy, ProtectionLevel};
use crate::ids::ProfileId;
use crate::network::{NetworkConfig, NetworkMode};
use crate::permissions::PermissionPolicy;
use crate::preview::ProfilePreview;
use crate::text;
use crate::time::{Age, Timestamp};
use vstd::prelude::*;

verus! {

/// Whether a profile survives session end.
#[derive(Debug, Clone, Copy, PartialEq, Eq, Structural)]
pub enum ProfileType {
    /// Destroyed at session end.
    Ephemeral,
    /// Stored in an encrypted volume.
    Persistent,
}

impl Default for ProfileType {
    fn default() -> (r: ProfileType)
        ensures
            r == ProfileType::Ephemeral,
    {
        ProfileType::Ephemeral
    }
}

impl ProfileType {
    /// The UI label.
    pub open spec fn name(self) -> Seq<char> {
        match self {
            ProfileType::Ephemeral => "ephemeral"@,
            ProfileType::Persistent => "persistent"@,
        }
    }

    /// UI label.
    #[must_use]
    pub fn label(self) -> (r: &'static str)
        ensures
            r@ == self.name(),
    {
        match self {
            ProfileType::Ephemeral => "ephemeral",
            ProfileType::Persistent => "persistent",
        }
    }

    /// Whether data must be shredded when the session closes.
    #[must_use]
    pub fn is_ephemeral(self) -> (r: bool)
        ensures
            r == (self == ProfileType::Ephemeral),
    {
        matches!(self, ProfileType::Ephemeral)
    }
}

/// The specification used to create a profile.
#[derive(Debug)]
pub struct ProfileSpec {
    /// Human-facing name.
    pub name: String,
    /// Ephemeral or persistent.
    pub kind: ProfileType,
    /// Network mode, DNS and IPv6 policy.
    pub network: NetworkConfig,
    /// Fingerprint protection level.
    pub protection: ProtectionLevel,
    /// Where this profile runs.
    pub isolation: IsolationLevel,
    /// Browser engine.
    pub browser: BrowserBackendId,
    /// A fine-grained policy in place of the one that `protection` implies.
    pub fingerprint: Option<FingerprintPolicy>,
    /// Permission policy.
    pub permissions: PermissionPolicy,
}

impl ProfileSpec {
    /// Whether `p` is the policy in effect: the override, or else the policy of
    /// the protection level.
    pub open spec fn resolves_to(self, p: FingerprintPolicy) -> bool {
        match self.fingerprint {
            Some(q) => p == q,
            None => p.implied_by(self.protection),
        }
    }

    /// The rule that the policy in effect breaks, if any. A level's own policy
    /// breaks none.
    pub open spec fn fingerprint_violation(self) -> Option<Seq<char>> {
        match self.fingerprint {
            Some(q) => q.violation(),
            None => None,
        }
    }

    /// Whether the specification can be used.
    pub open spec fn valid(self) -> bool {
        !text::is_blank(self.name@) && self.fingerprint_violation() is None
    }

    /// An ephemeral, Tor, Balanced profile in a VM.
    #[must_use]
    pub fn ephemeral(name: &str) -> (r: ProfileSpec)
        ensures
            r.name@ == name@,
            r.kind == ProfileType::Ephemeral,
            r.network.mode matches NetworkMode::Tor(c) && c.is_plain(),
            r.network.derived(),
            r.protection == ProtectionLevel::Balanced,
            r.isolation == IsolationLevel::FullVm,
            r.browser == BrowserBackendId::Chromium,
            r.fingerprint is None,
            r.permissions.is_secure_default(),
    {
        ProfileSpec {
            name: name.to_owned(),
            kind: ProfileType::Ephemeral,
            network: NetworkConfig::default(),
            protection: ProtectionLevel::Balanced,
            isolation: IsolationLevel::FullVm,
            browser: BrowserBackendId::Chromium,
            fingerprint: None,
            permissions: PermissionPolicy::secure_default(),
        }
    }

    /// Sets the isolation level.
    #[must_use]
    pub fn with_isolation(self, isolation: IsolationLevel) -> (r: ProfileSpec)
        ensures
            r == (ProfileSpec { isolation, ..self }),
    {
        ProfileSpec { isolation, ..self }
    }

    /// The policy in effect.
    #[must_use]
    pub fn resolved_fingerprint(&self) -> (r: FingerprintPolicy)
        ensures
            self.resolves_to(r),
    {
        match &self.fingerprint {
            Some(p) => p.clone(),
            None => self.protection.policy(),
        }
    }

    /// What a site would see of a profile with this specification.
    #[must_use]
    pub fn preview(&self) -> (r: ProfilePreview)
        ensures
            r.previews(*self),
    {
        ProfilePreview::from_spec(self)
    }

    /// Checks the specification: the name is not blank and the fingerprint
    /// policy in effect keeps its rules.
    pub fn validate(&self) -> (r: Result<(), Error>)
        ensures
            r is Ok <==> self.valid(),
            r matches Err(e) ==> (e matches Error::Config(m) && m@ == if text::is_blank(
                self.name@,
            ) {
                "profile name must not be empty"@
            } else {
                "fingerprint policy invalid: "@ + self.fingerprint_violation()->0
            }),
    {
        if text::blank(self.name.as_str()) {
            return Err(Error::Config("profile name must not be empty".to_owned()));
        }
        let policy = self.resolved_fingerprint();
        if let Some(reason) = policy.validate() {
            return Err(Error::Config(text::cat2("fingerprint policy invalid: ", reason)));
        }
        Ok(())
    }
}

/// The distance between neighbouring double-precision numbers at `n`: 1 below
/// 2^53, and twice as much from there at each power of two.
pub open spec fn double_spacing(n: nat) -> nat
    decreases n,
{
    if n < 0x20_0000_0000_0000 {
        1
    } else {
        2 * double_spacing(n / 2)
    }
}

/// `n / d`, rounded to the nearest whole number, ties to even.
pub open spec fn rounded(n: nat, d: nat) -> nat {
    let q = n / d;
    let r = n % d;
    if 2 * r > d || (2 * r == d && q % 2 == 1) {
        q + 1
    } else {
        q
    }
}

/// The double-precision number nearest to `n`.
pub open spec fn nearest_double(n: nat) -> nat {
    rounded(n, double_spacing(n)) * double_spacing(n)
}

/// The unit in which a size is shown, as a power of 1024.
pub open spec fn size_unit(d: nat) -> nat {
    if d < 0x400 {
        0
    } else if d < 0x10_0000 {
        1
    } else if d < 0x4000_0000 {
        2
    } else if d < 0x100_0000_0000 {
        3
    } else {
        4
    }
}

/// The number of bytes in one unit.
pub open spec fn unit_bytes(unit: nat) -> nat {
    if unit == 1 {
        0x400
    } else if unit == 2 {
        0x10_0000
    } else if unit == 3 {
        0x4000_0000
    } else {
        0x100_0000_0000
    }
}

/// The name of the unit.
pub open spec fn unit_name(unit: nat) -> Seq<char> {
    if unit == 1 {
        "KiB"@
    } else if unit == 2 {
        "MiB"@
    } else if unit == 3 {
        "GiB"@
    } else {
        "TiB"@
    }
}

/// The human-readable size: whole bytes below one KiB, else one decimal of the
/// largest unit up to TiB.
pub open spec fn size_text(bytes: nat) -> Seq<char> {
    let d = nearest_double(bytes);
    let unit = size_unit(d);
    if unit == 0 {
        text::dec(bytes) + " B"@
    } else {
        let tenths = rounded(d * 10, unit_bytes(unit));
        text::dec(tenths / 10) + "."@ + text::dec(tenths % 10) + " "@ + unit_name(unit)
    }
}

fn spacing(n: u64) -> (r: u64)
    ensures
        r == double_spacing(n as nat),
        n < 0x20_0000_0000_0000 ==> r == 1,
        n >= 0x20_0000_0000_0000 ==> 2 <= r && r * 0x10_0000_0000_0000 <= n,
    decreases n,
{
    if n < 0x20_0000_0000_0000 {
        1
    } else {
        2 * spacing(n / 2)
    }
}

fn round_div(n: u128, d: u128) -> (r: u128)
    requires
        0 < d,
        d < 0x1_0000_0000_0000_0000,
        n < 0x1_0000_0000_0000_0000_0000,
    ensures
        r == rounded(n as nat, d as nat),
        r * d <= n + d,
        r <= n + 1,
{
    let q: u128 = n / d;
    let m: u128 = n % d;
    assert(q * d <= n && q <= n && m < d) by (nonlinear_arith)
        requires
            q == n / d,
            m == n % d,
            0 < d,
            0 <= n,
    ;
    assert((q + 1) * d == q * d + d) by (nonlinear_arith);
    if 2 * m > d || (2 * m == d && q % 2 == 1) {
        q + 1
    } else {
        q
    }
}

/// Disk usage accounting for a profile.
#[derive(Debug, Clone, Copy, PartialEq, Eq, Structural)]
pub struct StorageUsage {
    /// Bytes on disk.
    pub bytes: u64,
}

impl Default for StorageUsage {
    fn default() -> (r: StorageUsage)
        ensures
            r.bytes == 0,
    {
        StorageUsage { bytes: 0 }
    }
}

impl StorageUsage {
    /// Human-readable size (base 1024).
    #[must_use]
    pub fn human(&self) -> (r: String)
        ensures
            r@ == size_text(self.bytes as nat),
    {
        let s: u64 = spacing(self.bytes);
        let steps: u128 = round_div(self.bytes as u128, s as u128);
        let d: u128 = steps * (s as u128);
        let (unit, name): (u128, &str) = if d < 0x400 {
            return text::cat2(text::decimal(self.bytes).as_str(), " B");
        } else if d < 0x10_0000 {
            (0x400, "KiB")
        } else if d < 0x4000_0000 {
            (0x10_0000, "MiB")
        } else if d < 0x100_0000_0000 {
            (0x4000_0000, "GiB")
        } else {
            (0x100_0000_0000, "TiB")
        };
        let tenths: u128 = round_div(d * 10, unit);
        assert(tenths <= 0xffff_ffff_ffff_ffff) by (nonlinear_arith)
            requires
                tenths * unit <= d * 10 + unit,
                unit >= 0x400,
                d <= 0x2_0000_0000_0000_0000,
        ;
        let t: u64 = tenths as u64;
        text::cat5(
            text::decimal(t / 10).as_str(),
            ".",
            text::decimal(t % 10).as_str(),
            " ",
            name,
        )
    }
}

/// A materialized profile with metadata.
#[derive(Debug)]
pub struct Profile {
    /// Stable id.
    pub id: ProfileId,
    /// The specification.
    pub spec: ProfileSpec,
    /// When the profile was created.
    pub created_at: Timestamp,
    /// Last time a session was launched from it.
    pub last_launched: Option<Timestamp>,
    /// Disk usage.
    pub storage: StorageUsage,
    /// Whether a session currently holds the single-writer lock.
    pub locked: bool,
}

impl Profile {
    /// Age of the profile relative to `now`.
    #[must_use]
    pub fn age(&self, now: Timestamp) -> (r: Age)
        ensures
            r.seconds == now.span_from(self.created_at),
    {
        now.since(&self.created_at)
    }

    /// Whether this profile can be opened by a new session.
    #[must_use]
    pub fn can_open(&self) -> (r: bool)
        ensures
            r == !self.locked,
    {
        !self.locked
    }
}

/// A patch applied to a profile's mutable settings.
#[derive(Debug)]
pub struct ProfilePatch {
    /// New name.
    pub name: Option<String>,
    /// New network config.
    pub network: Option<NetworkConfig>,
    /// New protection level.
    pub protection: Option<ProtectionLevel>,
    /// Replacement permission policy.
    pub permissions: Option<PermissionPolicy>,
}

impl Default for ProfilePatch {
    fn default() -> (r: ProfilePatch)
        ensures
            r.name is None,
            r.network is None,
            r.protection is None,
            r.permissions is None,
    {
        ProfilePatch { name: None, network: None, protection: None, permissions: None }
    }
}

impl ProfilePatch {
    /// Whether the patch changes nothing.
    #[must_use]
    pub fn is_empty(&self) -> (r: bool)
        ensures
            r == (self.name is None && self.network is None && self.protection is None
                && self.permissions is None),
    {
        self.name.is_none() && self.network.is_none() && self.protection.is_none()
            && self.permissions.is_none()
    }
}

/// The single-writer lease of a profile.
#[derive(Debug, PartialEq, Eq)]
pub struct ProfileLease {
    /// The leased profile.
    pub profile: ProfileId,
    /// The token that proves the lease.
    pub token: String,
}

impl Clone for ProfileLease {
    fn clone(&self) -> (r: ProfileLease)
        ensures
            r == *self,
    {
        ProfileLease { profile: self.profile, token: self.token.clone() }
    }
}

/// A size below a kibibyte is shown in bytes, and a whole number of any larger unit
/// as that number of the largest unit that it fills.
pub proof fn law_whole_sizes_are_shown_whole(k: nat)
    requires
        0 < k < 1024,
    ensures
        size_text(k) == text::dec(k) + " B"@,
        size_text(k * 1024) == text::dec(k) + "."@ + text::dec(0) + " "@ + "KiB"@,
        size_text(k * 1024 * 1024) == text::dec(k) + "."@ + text::dec(0) + " "@ + "MiB"@,
        size_text(k * 1024 * 1024 * 1024) == text::dec(k) + "."@ + text::dec(0) + " "@ + "GiB"@,
        size_text(k * 1024 * 1024 * 1024 * 1024) == text::dec(k) + "."@ + text::dec(0) + " "@
            + "TiB"@,
{
    lemma_exact_below_2_53(k);
    lemma_exact_below_2_53(k * 1024);
    lemma_exact_below_2_53(k * 1024 * 1024);
    lemma_exact_below_2_53(k * 1024 * 1024 * 1024);
    lemma_exact_below_2_53(k * 1024 * 1024 * 1024 * 1024);
    let n = k * 10;
    assert(k * 1024 * 10 / 0x400 == n && k * 1024 * 10 % 0x400 == 0);
    assert(k * 1024 * 1024 * 10 / 0x10_0000 == n && k * 1024 * 1024 * 10 % 0x10_0000 == 0);
    assert(k * 1024 * 1024 * 1024 * 10 / 0x4000_0000 == n && k * 1024 * 1024 * 1024 * 10
        % 0x4000_0000 == 0);
    assert(k * 1024 * 1024 * 1024 * 1024 * 10 / 0x100_0000_0000 == n && k * 1024 * 1024 * 1024
        * 1024 * 10 % 0x100_0000_0000 == 0);
    assert(n / 10 == k && n % 10 == 0);
}

/// Whole numbers of this size are doubles themselves.
proof fn lemma_exact_below_2_53(n: nat)
    requires
        n < 0x20_0000_0000_0000,
    ensures
        nearest_double(n) == n,
{
    assert(double_spacing(n) == 1);
    assert(n / 1 == n && n % 1 == 0);
    assert(rounded(n, 1) == n);
}

/// A specification passes exactly where it has a name and breaks no rule of its own
/// fingerprint policy.
pub proof fn law_valid_specifications(spec: ProfileSpec)
    ensures
        spec.valid() <==> !text::is_blank(spec.name@) && (spec.fingerprint matches Some(q)
            ==> q.violation() is None),
{
}

} // verus!
