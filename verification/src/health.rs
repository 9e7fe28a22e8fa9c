//! Health levels used by the diagnostics panel.

use vstd::prelude::*;

verus! {

/// A health signal for a single subsystem.
#[derive(Debug, Clone, Copy, PartialEq, Eq, Structural)]
pub enum HealthLevel {
    /// Operating correctly.
    Healthy,
    /// Working but degraded.
    Degraded,
    /// Not working or unsafe.
    Down,
    /// Not applicable or not measured.
    Unknown,
}

impl HealthLevel {
    /// The UI label.
    pub open spec fn name(self) -> Seq<char> {
        match self {
            HealthLevel::Healthy => "ok"@,
            HealthLevel::Degraded => "degraded"@,
            HealthLevel::Down => "down"@,
            HealthLevel::Unknown => "unknown"@,
        }
    }

    /// UI label.
    #[must_use]
    pub fn label(self) -> (r: &'static str)
        ensures
            r@ == self.name(),
    {
        match self {
            HealthLevel::Healthy => "ok",
            HealthLevel::Degraded => "degraded",
            HealthLevel::Down => "down",
            HealthLevel::Unknown => "unknown",
        }
    }
}

/// A named diagnostics item.
#[derive(Debug, PartialEq, Eq)]
pub struct DiagnosticItem {
    /// Machine-readable key.
    pub key: String,
    /// Health level.
    pub level: HealthLevel,
    /// Human-readable detail.
    pub detail: String,
}

impl DiagnosticItem {
    /// An item with these parts.
    #[must_use]
    pub fn new(key: &str, level: HealthLevel, detail: &str) -> (r: DiagnosticItem)
        ensures
            r.key@ == key@,
            r.level == level,
            r.detail@ == detail@,
    {
        DiagnosticItem { key: key.to_owned(), level, detail: detail.to_owned() }
    }
}

/// A healthy subsystem is labelled `ok`, and nothing else is.
pub proof fn law_only_health_is_ok(level: HealthLevel)
    ensures
        level.name() == "ok"@ <==> level is Healthy,
        level is Degraded ==> level.name() == "degraded"@,
        level is Down ==> level.name() == "down"@,
        level is Unknown ==> level.name() == "unknown"@,
{
    reveal_strlit("ok");
    reveal_strlit("degraded");
    reveal_strlit("down");
    reveal_strlit("unknown");
    assert("ok"@.len() == 2 && "degraded"@.len() == 8 && "down"@.len() == 4 && "unknown"@.len() == 7);
}

} // verus!
