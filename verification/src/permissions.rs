//! Per-profile, per-origin permission policy.
//!
//! Grants apply to one origin only. Dangerous device classes are blocked
//! outright and cannot be granted.

use crate::error::Error;
use crate::table::TextTable;
use crate::text;
use vstd::prelude::*;

verus! {

/// A browser capability governed by policy.
#[derive(Debug, Clone, Copy, PartialEq, Eq, PartialOrd, Ord, Hash, Structural)]
pub enum Feature {
    /// Geolocation.
    Location,
    /// Camera capture.
    Camera,
    /// Microphone capture.
    Microphone,
    /// Web notifications.
    Notifications,
    /// Clipboard read.
    ClipboardRead,
    /// WebUSB.
    Usb,
    /// Web Bluetooth.
    Bluetooth,
    /// Web Serial.
    Serial,
    /// WebHID.
    Hid,
    /// Web MIDI.
    Midi,
    /// File System Access API.
    FileSystemAccess,
    /// Autoplay of media with sound.
    Autoplay,
    /// Downloads.
    Downloads,
}

impl Feature {
    /// Every governed feature.
    pub open spec fn every() -> Seq<Feature> {
        seq![
            Feature::Location,
            Feature::Camera,
            Feature::Microphone,
            Feature::Notifications,
            Feature::ClipboardRead,
            Feature::Usb,
            Feature::Bluetooth,
            Feature::Serial,
            Feature::Hid,
            Feature::Midi,
            Feature::FileSystemAccess,
            Feature::Autoplay,
            Feature::Downloads,
        ]
    }

    /// Device classes that nothing may grant.
    pub open spec fn hard_blocked(self) -> bool {
        self == Feature::Usb || self == Feature::Bluetooth || self == Feature::Serial || self
            == Feature::Hid || self == Feature::Midi
    }

    /// The identifier of the feature.
    pub open spec fn identifier(self) -> Seq<char> {
        match self {
            Feature::Location => "Location"@,
            Feature::Camera => "Camera"@,
            Feature::Microphone => "Microphone"@,
            Feature::Notifications => "Notifications"@,
            Feature::ClipboardRead => "ClipboardRead"@,
            Feature::Usb => "Usb"@,
            Feature::Bluetooth => "Bluetooth"@,
            Feature::Serial => "Serial"@,
            Feature::Hid => "Hid"@,
            Feature::Midi => "Midi"@,
            Feature::FileSystemAccess => "FileSystemAccess"@,
            Feature::Autoplay => "Autoplay"@,
            Feature::Downloads => "Downloads"@,
        }
    }

    /// The position of the feature in the list of all features.
    pub open spec fn position(self) -> int {
        match self {
            Feature::Location => 0,
            Feature::Camera => 1,
            Feature::Microphone => 2,
            Feature::Notifications => 3,
            Feature::ClipboardRead => 4,
            Feature::Usb => 5,
            Feature::Bluetooth => 6,
            Feature::Serial => 7,
            Feature::Hid => 8,
            Feature::Midi => 9,
            Feature::FileSystemAccess => 10,
            Feature::Autoplay => 11,
            Feature::Downloads => 12,
        }
    }

    /// Every governed feature.
    #[must_use]
    pub fn all() -> (r: [Feature; 13])
        ensures
            r@ == Feature::every(),
    {
        [
            Feature::Location,
            Feature::Camera,
            Feature::Microphone,
            Feature::Notifications,
            Feature::ClipboardRead,
            Feature::Usb,
            Feature::Bluetooth,
            Feature::Serial,
            Feature::Hid,
            Feature::Midi,
            Feature::FileSystemAccess,
            Feature::Autoplay,
            Feature::Downloads,
        ]
    }

    /// Whether the feature is a device class that nothing may grant.
    #[must_use]
    pub fn is_hard_blocked(self) -> (r: bool)
        ensures
            r == self.hard_blocked(),
    {
        matches!(
            self,
            Feature::Usb | Feature::Bluetooth | Feature::Serial | Feature::Hid | Feature::Midi
        )
    }

    /// The identifier of the feature.
    #[must_use]
    pub fn debug_name(self) -> (r: &'static str)
        ensures
            r@ == self.identifier(),
    {
        match self {
            Feature::Location => "Location",
            Feature::Camera => "Camera",
            Feature::Microphone => "Microphone",
            Feature::Notifications => "Notifications",
            Feature::ClipboardRead => "ClipboardRead",
            Feature::Usb => "Usb",
            Feature::Bluetooth => "Bluetooth",
            Feature::Serial => "Serial",
            Feature::Hid => "Hid",
            Feature::Midi => "Midi",
            Feature::FileSystemAccess => "FileSystemAccess",
            Feature::Autoplay => "Autoplay",
            Feature::Downloads => "Downloads",
        }
    }

    fn slot(self) -> (r: usize)
        ensures
            r == self.position(),
            r < 13,
    {
        match self {
            Feature::Location => 0,
            Feature::Camera => 1,
            Feature::Microphone => 2,
            Feature::Notifications => 3,
            Feature::ClipboardRead => 4,
            Feature::Usb => 5,
            Feature::Bluetooth => 6,
            Feature::Serial => 7,
            Feature::Hid => 8,
            Feature::Midi => 9,
            Feature::FileSystemAccess => 10,
            Feature::Autoplay => 11,
            Feature::Downloads => 12,
        }
    }
}

/// The decision for a feature.
#[derive(Debug, Clone, Copy, PartialEq, Eq, Structural)]
pub enum PermissionState {
    /// Always deny.
    Block,
    /// Prompt the user in-session.
    Ask,
    /// Allow.
    Allow,
    /// Allow, constrained to a directory inside the VM.
    ConfinedToVm,
    /// Route downloads to quarantine.
    Quarantine,
    /// Limited behavior.
    Limited,
}

/// Decisions by feature.
#[derive(Debug, PartialEq, Eq)]
pub struct FeatureTable {
    slots: Vec<Option<PermissionState>>,
}

impl View for FeatureTable {
    type V = Map<Feature, PermissionState>;

    closed spec fn view(&self) -> Map<Feature, PermissionState> {
        Map::new(
            |f: Feature| self.slots@[f.position()] is Some,
            |f: Feature| self.slots@[f.position()]->0,
        )
    }
}

impl FeatureTable {
    #[verifier::type_invariant]
    spec fn well_formed(self) -> bool {
        self.slots@.len() == 13
    }

    /// The empty table.
    pub fn new() -> (r: FeatureTable)
        ensures
            r@ == Map::<Feature, PermissionState>::empty(),
    {
        let r = FeatureTable {
            slots: vec![None, None, None, None, None, None, None, None, None, None, None, None, None],
        };
        assert(r@ =~= Map::<Feature, PermissionState>::empty()) by {
            assert forall|f: Feature| r.slots@[f.position()] is None by {}
        }
        r
    }

    /// The decision for a feature.
    pub fn get(&self, feature: Feature) -> (r: Option<PermissionState>)
        ensures
            r == (if self@.contains_key(feature) { Some(self@[feature]) } else { None }),
    {
        proof {
            use_type_invariant(self);
        }
        self.slots[feature.slot()]
    }

    /// Whether the table decides the feature.
    pub fn contains_key(&self, feature: Feature) -> (r: bool)
        ensures
            r == self@.contains_key(feature),
    {
        self.get(feature).is_some()
    }

    /// Sets the decision for a feature.
    pub fn insert(&mut self, feature: Feature, state: PermissionState)
        ensures
            final(self)@ == old(self)@.insert(feature, state),
    {
        proof {
            use_type_invariant(&*self);
        }
        let mut slots: Vec<Option<PermissionState>> = Vec::new();
        let mut i: usize = 0;
        while i < 13
            invariant
                i <= 13,
                self.slots@.len() == 13,
                slots@ == self.slots@.take(i as int),
            decreases 13 - i,
        {
            slots.push(self.slots[i]);
            i += 1;
            assert(slots@ =~= self.slots@.take(i as int));
        }
        slots.set(feature.slot(), Some(state));
        *self = FeatureTable { slots };
        assert(self@ =~= old(self)@.insert(feature, state)) by {
            assert forall|f: Feature| f != feature implies self.slots@[f.position()] == old(
                self,
            ).slots@[f.position()] by {}
        }
    }
}

impl Clone for FeatureTable {
    fn clone(&self) -> (r: FeatureTable)
        ensures
            r@ == self@,
    {
        proof {
            use_type_invariant(self);
        }
        let slots = self.slots.clone();
        assert(slots@ =~= self.slots@);
        FeatureTable { slots }
    }
}

/// The permission policy of a profile: defaults and per-origin grants.
#[derive(Debug)]
pub struct PermissionPolicy {
    /// Default state per feature.
    pub defaults: FeatureTable,
    /// Per-origin overrides.
    pub overrides: TextTable<FeatureTable>,
}

/// The default decision for a feature.
pub open spec fn secure_state(f: Feature) -> PermissionState {
    match f {
        Feature::Notifications => PermissionState::Ask,
        Feature::FileSystemAccess => PermissionState::ConfinedToVm,
        Feature::Autoplay => PermissionState::Limited,
        Feature::Downloads => PermissionState::Quarantine,
        _ => PermissionState::Block,
    }
}

/// The state that a grant sets.
pub open spec fn granted_state(f: Feature) -> PermissionState {
    match f {
        Feature::FileSystemAccess => PermissionState::ConfinedToVm,
        Feature::Downloads => PermissionState::Quarantine,
        _ => PermissionState::Allow,
    }
}

impl PermissionPolicy {
    /// The decisions for one origin.
    pub open spec fn at_origin(self, origin: Seq<char>) -> Map<Feature, PermissionState> {
        if self.overrides@.contains_key(origin) {
            self.overrides@[origin]@
        } else {
            Map::empty()
        }
    }

    /// The state in effect: the origin's own decision, else the default, else
    /// `Block`.
    pub open spec fn in_effect(self, origin: Seq<char>, f: Feature) -> PermissionState {
        if self.at_origin(origin).contains_key(f) {
            self.at_origin(origin)[f]
        } else if self.defaults@.contains_key(f) {
            self.defaults@[f]
        } else {
            PermissionState::Block
        }
    }

    /// Whether both hold the same decisions, for the same origins.
    pub open spec fn same(self, other: PermissionPolicy) -> bool {
        &&& self.defaults@ == other.defaults@
        &&& self.overrides@.dom() == other.overrides@.dom()
        &&& forall|o: Seq<char>| #[trigger] self.at_origin(o) == other.at_origin(o)
    }

    /// Whether this is the default table without grants.
    pub open spec fn is_secure_default(self) -> bool {
        &&& forall|f: Feature| #[trigger] self.defaults@.contains_key(f)
        &&& forall|f: Feature| #[trigger] self.defaults@[f] == secure_state(f)
        &&& self.overrides@ == Map::<Seq<char>, FeatureTable>::empty()
    }

    /// The default table: deny-heavy, without grants.
    #[must_use]
    pub fn secure_default() -> (r: PermissionPolicy)
        ensures
            r.is_secure_default(),
    {
        let mut defaults = FeatureTable::new();
        defaults.insert(Feature::Location, PermissionState::Block);
        defaults.insert(Feature::Camera, PermissionState::Block);
        defaults.insert(Feature::Microphone, PermissionState::Block);
        defaults.insert(Feature::Notifications, PermissionState::Ask);
        defaults.insert(Feature::ClipboardRead, PermissionState::Block);
        defaults.insert(Feature::Usb, PermissionState::Block);
        defaults.insert(Feature::Bluetooth, PermissionState::Block);
        defaults.insert(Feature::Serial, PermissionState::Block);
        defaults.insert(Feature::Hid, PermissionState::Block);
        defaults.insert(Feature::Midi, PermissionState::Block);
        defaults.insert(Feature::FileSystemAccess, PermissionState::ConfinedToVm);
        defaults.insert(Feature::Autoplay, PermissionState::Limited);
        defaults.insert(Feature::Downloads, PermissionState::Quarantine);
        PermissionPolicy { defaults, overrides: TextTable::new() }
    }

    /// The state in effect for `feature` at `origin`.
    #[must_use]
    pub fn effective(&self, origin: &str, feature: Feature) -> (r: PermissionState)
        ensures
            r == self.in_effect(origin@, feature),
    {
        if let Some(table) = self.overrides.get(origin) {
            if let Some(state) = table.get(feature) {
                return state;
            }
        }
        match self.defaults.get(feature) {
            Some(state) => state,
            None => PermissionState::Block,
        }
    }

    /// Grants a feature for one origin. Fails for the device classes that
    /// nothing may grant, and then changes nothing.
    pub fn grant(&mut self, origin: &str, feature: Feature) -> (r: Result<(), Error>)
        ensures
            grant_effect(*old(self), *final(self), origin@, feature),
            r is Ok <==> !feature.hard_blocked(),
            r matches Err(e) ==> (e matches Error::Precondition(m) && m@ == "feature "@
                + feature.identifier() + " is hard-blocked and cannot be granted"@),
    {
        if feature.is_hard_blocked() {
            return Err(
                Error::Precondition(
                    text::cat3(
                        "feature ",
                        feature.debug_name(),
                        " is hard-blocked and cannot be granted",
                    ),
                ),
            );
        }
        let state = match feature {
            Feature::FileSystemAccess => PermissionState::ConfinedToVm,
            Feature::Downloads => PermissionState::Quarantine,
            _ => PermissionState::Allow,
        };
        let mut table = match self.overrides.get(origin) {
            Some(t) => t.clone(),
            None => FeatureTable::new(),
        };
        table.insert(feature, state);
        self.overrides.insert(origin.to_owned(), table);
        Ok(())
    }

    /// Removes all per-origin grants.
    pub fn clear_grants(&mut self)
        ensures
            final(self).defaults == old(self).defaults,
            final(self).overrides@ == Map::<Seq<char>, FeatureTable>::empty(),
    {
        self.overrides = TextTable::new();
    }
}

impl Clone for PermissionPolicy {
    fn clone(&self) -> (r: PermissionPolicy)
        ensures
            r.same(*self),
    {
        let mut overrides: TextTable<FeatureTable> = TextTable::new();
        let n: usize = self.overrides.len();
        let mut i: usize = 0;
        let ghost rows = self.overrides.rows();
        while i < n
            invariant
                i <= n,
                rows == self.overrides.rows(),
                n == rows.len(),
                forall|o: Seq<char>|
                    overrides@.contains_key(o) == #[trigger] crate::table::rows_map(
                        rows.take(i as int),
                    ).contains_key(o),
                forall|o: Seq<char>|
                    overrides@.contains_key(o) ==> #[trigger] overrides@[o]@
                        == crate::table::rows_map(rows.take(i as int))[o]@,
            decreases n - i,
        {
            proof {
                let t = rows.take(i + 1);
                assert(t.drop_last() =~= rows.take(i as int));
                assert(t.last() == rows[i as int]);
                assert(crate::table::rows_map(t) == crate::table::rows_map(
                    rows.take(i as int),
                ).insert(rows[i as int].0, rows[i as int].1));
            }
            let ghost before = overrides@;
            overrides.insert(self.overrides.key(i).to_owned(), self.overrides.value(i).clone());
            i += 1;
            assert forall|o: Seq<char>|
                overrides@.contains_key(o) == #[trigger] crate::table::rows_map(
                    rows.take(i as int),
                ).contains_key(o) by {
                assert(before.contains_key(o) == crate::table::rows_map(
                    rows.take(i - 1),
                ).contains_key(o));
            }
        }
        assert(rows.take(n as int) =~= rows);
        let r = PermissionPolicy { defaults: self.defaults.clone(), overrides };
        assert(r.overrides@.dom() =~= self.overrides@.dom()) by {
            assert forall|o: Seq<char>| r.overrides@.contains_key(o) == #[trigger]
                self.overrides@.contains_key(o) by {
                assert(overrides@.contains_key(o) == crate::table::rows_map(rows).contains_key(o));
            }
        }
        assert forall|o: Seq<char>| #[trigger] r.at_origin(o) == self.at_origin(o) by {
            assert(overrides@.contains_key(o) == crate::table::rows_map(rows).contains_key(o));
        }
        r
    }
}

impl Default for PermissionPolicy {
    fn default() -> (r: PermissionPolicy)
        ensures
            r.is_secure_default(),
    {
        PermissionPolicy::secure_default()
    }
}

/// What a grant leaves behind, over the models of the policy before and after.
pub open spec fn grant_effect(
    before: PermissionPolicy,
    after: PermissionPolicy,
    origin: Seq<char>,
    feature: Feature,
) -> bool {
    if feature.hard_blocked() {
        after == before
    } else {
        &&& after.defaults == before.defaults
        &&& after.overrides@.dom() == before.overrides@.dom().insert(origin)
        &&& after.at_origin(origin) == before.at_origin(origin).insert(
            feature,
            granted_state(feature),
        )
        &&& forall|o: Seq<char>| o != origin ==> #[trigger] after.at_origin(o) == before.at_origin(
            o,
        )
    }
}

/// A grant is scoped to its origin and its feature: nothing else changes.
pub proof fn law_grant_is_scoped(
    before: PermissionPolicy,
    after: PermissionPolicy,
    origin: Seq<char>,
    feature: Feature,
    other: Seq<char>,
    f: Feature,
)
    requires
        grant_effect(before, after, origin, feature),
        other != origin || f != feature,
    ensures
        after.in_effect(other, f) == before.in_effect(other, f),
{
}

/// No grant ever opens a device class that is blocked: if a policy blocks it at
/// every origin, it still does after any grant.
pub proof fn law_hard_blocked_stays_blocked(
    before: PermissionPolicy,
    after: PermissionPolicy,
    origin: Seq<char>,
    feature: Feature,
    other: Seq<char>,
    device: Feature,
)
    requires
        grant_effect(before, after, origin, feature),
        device.hard_blocked(),
        before.in_effect(other, device) == PermissionState::Block,
    ensures
        after.in_effect(other, device) == PermissionState::Block,
{
}

/// The default table blocks every device class at every origin.
pub proof fn law_default_blocks_devices(p: PermissionPolicy, origin: Seq<char>, f: Feature)
    requires
        p.is_secure_default(),
    ensures
        p.in_effect(origin, f) == secure_state(f),
        f.hard_blocked() ==> p.in_effect(origin, f) == PermissionState::Block,
{
    assert(p.defaults@.contains_key(f));
    assert(p.defaults@[f] == secure_state(f));
}

/// Clearing the grants brings back the defaults at every origin.
pub proof fn law_clearing_restores_defaults(
    before: PermissionPolicy,
    after: PermissionPolicy,
    origin: Seq<char>,
    f: Feature,
)
    requires
        after.defaults == before.defaults,
        after.overrides@ == Map::<Seq<char>, FeatureTable>::empty(),
    ensures
        after.in_effect(origin, f) == if before.defaults@.contains_key(f) {
            before.defaults@[f]
        } else {
            PermissionState::Block
        },
{
}

/// The default table, feature by feature: what could identify or listen is
/// blocked, notifications are asked for, files stay in the VM, autoplay is limited
/// and downloads are quarantined, at every origin.
pub proof fn law_default_table(p: PermissionPolicy, origin: Seq<char>)
    requires
        p.is_secure_default(),
    ensures
        p.in_effect(origin, Feature::Location) is Block,
        p.in_effect(origin, Feature::Camera) is Block,
        p.in_effect(origin, Feature::Microphone) is Block,
        p.in_effect(origin, Feature::Notifications) is Ask,
        p.in_effect(origin, Feature::ClipboardRead) is Block,
        p.in_effect(origin, Feature::Usb) is Block,
        p.in_effect(origin, Feature::Bluetooth) is Block,
        p.in_effect(origin, Feature::Serial) is Block,
        p.in_effect(origin, Feature::Hid) is Block,
        p.in_effect(origin, Feature::Midi) is Block,
        p.in_effect(origin, Feature::FileSystemAccess) is ConfinedToVm,
        p.in_effect(origin, Feature::Autoplay) is Limited,
        p.in_effect(origin, Feature::Downloads) is Quarantine,
{
    assert forall|f: Feature| p.in_effect(origin, f) == secure_state(f) by {
        assert(p.defaults@.contains_key(f));
        assert(p.defaults@[f] == secure_state(f));
    }
}

/// A grant gives what it says at its origin: the feature is allowed there, except
/// that files stay confined to the VM and downloads quarantined; the device classes
/// cannot be granted and stay as they were.
pub proof fn law_grants_give_what_they_say(
    before: PermissionPolicy,
    after: PermissionPolicy,
    origin: Seq<char>,
    feature: Feature,
)
    requires
        grant_effect(before, after, origin, feature),
    ensures
        feature is Location || feature is Camera || feature is Microphone || feature is Notifications
            || feature is ClipboardRead || feature is Autoplay ==> after.in_effect(
            origin,
            feature,
        ) is Allow,
        feature is FileSystemAccess ==> after.in_effect(origin, feature) is ConfinedToVm,
        feature is Downloads ==> after.in_effect(origin, feature) is Quarantine,
        feature is Usb || feature is Bluetooth || feature is Serial || feature is Hid
            || feature is Midi ==> after.in_effect(origin, feature) == before.in_effect(
            origin,
            feature,
        ),
{
}

/// What is said at an origin goes before the default, and what nobody says is
/// blocked.
pub proof fn law_origins_go_first(p: PermissionPolicy, origin: Seq<char>, f: Feature)
    ensures
        p.overrides@.contains_key(origin) && p.overrides@[origin]@.contains_key(f) ==> p.in_effect(
            origin,
            f,
        ) == p.overrides@[origin]@[f],
        !p.overrides@.contains_key(origin) && p.defaults@.contains_key(f) ==> p.in_effect(origin, f)
            == p.defaults@[f],
        !p.overrides@.contains_key(origin) && !p.defaults@.contains_key(f) ==> p.in_effect(
            origin,
            f,
        ) is Block,
{
}

} // verus!
