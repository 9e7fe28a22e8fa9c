//! Update and integrity domain types.
//!
//! A version that is not strictly newer than the installed one is no update.

use crate::error::{Error, ErrorKind, ErrorModel};
use crate::text;
use crate::VERSION;
use vstd::prelude::*;

verus! {

/// A semantic version (major.minor.patch).
#[derive(Debug, Clone, Copy, PartialEq, Eq, PartialOrd, Ord, Structural)]
pub struct Version {
    /// Major.
    pub major: u32,
    /// Minor.
    pub minor: u32,
    /// Patch.
    pub patch: u32,
}

/// The up to three dot-separated parts of a version text; the third holds
/// everything behind the second dot.
pub open spec fn version_parts(s: Seq<char>) -> Seq<Seq<char>> {
    let a = text::cut_at(text::trimmed(s), '.');
    match a.1 {
        None => seq![a.0],
        Some(rest) => {
            let b = text::cut_at(rest, '.');
            match b.1 {
                None => seq![a.0, b.0],
                Some(last) => seq![a.0, b.0, last],
            }
        },
    }
}

/// The number in the given part, where the part exists and is a number.
pub open spec fn component(parts: Seq<Seq<char>>, i: int) -> Option<nat> {
    if i < parts.len() && text::uint_value(parts[i]) is Some && text::uint_value(parts[i])->0
        <= u32::MAX {
        text::uint_value(parts[i])
    } else {
        None
    }
}

/// The part at which reading a version stops: the first that is missing or no
/// number.
pub open spec fn first_bad(parts: Seq<Seq<char>>) -> int {
    if component(parts, 0) is None {
        0
    } else if component(parts, 1) is None {
        1
    } else {
        2
    }
}

impl Version {
    /// Whether this version is strictly newer.
    pub open spec fn newer(self, other: Version) -> bool {
        ||| self.major > other.major
        ||| self.major == other.major && self.minor > other.minor
        ||| self.major == other.major && self.minor == other.minor && self.patch > other.patch
    }

    /// The dotted notation.
    pub open spec fn shown(self) -> Seq<char> {
        text::dec(self.major as nat) + "."@ + text::dec(self.minor as nat) + "."@ + text::dec(
            self.patch as nat,
        )
    }

    /// A version with these parts.
    #[must_use]
    pub fn new(major: u32, minor: u32, patch: u32) -> (r: Version)
        ensures
            r.major == major,
            r.minor == minor,
            r.patch == patch,
    {
        Version { major, minor, patch }
    }

    /// Whether `self` is strictly newer than `other`.
    #[must_use]
    pub fn is_newer_than(&self, other: &Version) -> (r: bool)
        ensures
            r == self.newer(*other),
    {
        if self.major != other.major {
            self.major > other.major
        } else if self.minor != other.minor {
            self.minor > other.minor
        } else {
            self.patch > other.patch
        }
    }

    /// The dotted notation.
    #[must_use]
    pub fn text(&self) -> (r: String)
        ensures
            r@ == self.shown(),
    {
        let major = text::decimal(self.major as u64);
        let minor = text::decimal(self.minor as u64);
        let patch = text::decimal(self.patch as u64);
        text::cat5(major.as_str(), ".", minor.as_str(), ".", patch.as_str())
    }

    /// Reads a version: three numbers between dots, white space around them
    /// ignored.
    pub fn parse(s: &str) -> (r: Result<Version, Error>)
        ensures
            ({
                let parts = version_parts(s@);
                let bad = first_bad(parts);
                match r {
                    Ok(v) => component(parts, 0) == Some(v.major as nat) && component(parts, 1)
                        == Some(v.minor as nat) && component(parts, 2) == Some(v.patch as nat),
                    Err(e) => {
                        &&& component(parts, bad) is None
                        &&& e matches Error::Config(m) && m@ == if bad < parts.len() {
                            "invalid version component in: "@ + s@
                        } else {
                            "invalid version: "@ + s@
                        }
                    },
                }
            }),
    {
        let t = text::trim(s);
        let (first, rest) = text::cut(t, '.');
        let (second, third): (Option<&str>, Option<&str>) = match rest {
            Some(u) => {
                let (a, b) = text::cut(u, '.');
                (Some(a), b)
            },
            None => (None, None),
        };
        let major: u32 = match read_component(Some(first), s) {
            Ok(n) => n,
            Err(e) => {
                return Err(e);
            },
        };
        let minor: u32 = match read_component(second, s) {
            Ok(n) => n,
            Err(e) => {
                return Err(e);
            },
        };
        let patch: u32 = match read_component(third, s) {
            Ok(n) => n,
            Err(e) => {
                return Err(e);
            },
        };
        Ok(Version::new(major, minor, patch))
    }
}

fn read_component(part: Option<&str>, whole: &str) -> (r: Result<u32, Error>)
    ensures
        match r {
            Ok(n) => part is Some && text::uint_value(part->0@) == Some(n as nat),
            Err(e) => {
                &&& part matches Some(p) ==> (text::uint_value(p@) is None || text::uint_value(
                    p@,
                )->0 > u32::MAX)
                &&& e matches Error::Config(m) && m@ == if part is Some {
                    "invalid version component in: "@ + whole@
                } else {
                    "invalid version: "@ + whole@
                }
            },
        },
{
    match part {
        None => Err(Error::Config(text::cat2("invalid version: ", whole))),
        Some(p) => match text::parse_uint(p, u32::MAX as u64) {
            Some(n) => Ok(n as u32),
            None => Err(Error::Config(text::cat2("invalid version component in: ", whole))),
        },
    }
}

/// The kind of artifact an update carries.
#[derive(Debug, Clone, Copy, PartialEq, Eq, Structural)]
pub enum ArtifactKind {
    /// A gateway VM base image.
    GatewayImage,
    /// A browser VM base image.
    BrowserImage,
    /// A host-side application package.
    AppPackage,
}

/// One artifact described by a manifest.
#[derive(Debug, PartialEq, Eq)]
pub struct Artifact {
    /// What it is.
    pub kind: ArtifactKind,
    /// Download path, relative to the manifest base.
    pub location: String,
    /// Lowercase hex SHA-256 of the artifact bytes.
    pub sha256: String,
    /// Size in bytes.
    pub size: u64,
}

/// Whether an update is a full replacement or a binary delta.
#[derive(Debug, Clone, Copy, PartialEq, Eq, Structural)]
pub enum UpdateKind {
    /// Full artifact replacement.
    Full,
    /// Delta from a specific base version.
    Delta,
}

/// The signed update manifest.
#[derive(Debug, PartialEq, Eq)]
pub struct UpdateManifest {
    /// Schema version of this manifest format.
    pub schema: u32,
    /// The product version this manifest publishes.
    pub version: Version,
    /// Installed version required to apply a delta.
    pub delta_base: Option<Version>,
    /// Full or delta.
    pub kind: UpdateKind,
    /// The artifacts.
    pub artifacts: Vec<Artifact>,
    /// Reference to the SBOM document for this release.
    pub sbom: Option<String>,
    /// Detached signature over the canonical manifest bytes.
    pub signature: String,
}

/// The verified outcome of checking a manifest and its artifacts.
#[derive(Debug, PartialEq, Eq)]
pub struct VerifiedArtifact {
    /// The version being installed.
    pub version: Version,
    /// The verified artifacts.
    pub artifacts: Vec<Artifact>,
}

/// The result of applying an update.
#[derive(Debug, Clone, Copy, PartialEq, Eq, Structural)]
pub enum ApplyOutcome {
    /// Applied successfully.
    Applied,
    /// Rolled back after a failed apply.
    RolledBack,
}

/// The version info that the client presents for updates.
#[derive(Debug, Clone, Copy, PartialEq, Eq, Structural)]
pub struct VersionInfo {
    /// The product version that is installed.
    pub current: Version,
}

/// The product version that is installed: the one that [`VERSION`] notates.
pub open spec fn installed_version() -> Version {
    Version { major: 0, minor: 1, patch: 0 }
}

proof fn lemma_installed_version_is_shown()
    ensures
        installed_version().shown() == VERSION@,
{
    reveal_strlit("0.1.0");
    reveal_strlit(".");
    reveal_with_fuel(text::dec, 2);
    assert(installed_version().shown() =~= VERSION@);
}

impl VersionInfo {
    /// The info of the installed version.
    #[must_use]
    pub fn installed() -> (r: VersionInfo)
        ensures
            r.current == installed_version(),
            r.current.shown() == VERSION@,
    {
        proof {
            lemma_installed_version_is_shown();
            lemma_version_reads();
        }
        let current = match Version::parse(VERSION) {
            Ok(v) => v,
            Err(_) => Version::new(0, 1, 0),
        };
        VersionInfo { current }
    }
}

proof fn lemma_version_reads()
    ensures
        component(version_parts(VERSION@), 0) == Some(0nat),
        component(version_parts(VERSION@), 1) == Some(1nat),
        component(version_parts(VERSION@), 2) == Some(0nat),
{
    reveal_strlit("0.1.0");
    let s = VERSION@;
    assert(s =~= seq!['0', '.', '1', '.', '0']);
    reveal_with_fuel(text::trimmed_start, 2);
    reveal_with_fuel(text::trimmed_end, 2);
    assert(text::trimmed(s) == s);
    reveal_with_fuel(text::first_index, 3);
    assert(s.skip(1)[0] == '.');
    assert(text::first_index(s, '.') == 1);
    let rest = s.skip(2);
    assert(rest =~= seq!['1', '.', '0']);
    assert(rest.skip(1)[0] == '.');
    assert(text::first_index(rest, '.') == 1);
    assert(s.take(1) =~= seq!['0']);
    assert(rest.take(1) =~= seq!['1']);
    assert(rest.skip(2) =~= seq!['0']);
    reveal_with_fuel(text::digits_value, 3);
    assert(seq!['0'].drop_last() =~= Seq::<char>::empty());
    assert(seq!['1'].drop_last() =~= Seq::<char>::empty());
    assert(text::uint_value(seq!['0']) == Some(0nat));
    assert(text::uint_value(seq!['1']) == Some(1nat));
}

/// The order of versions is strict and total: of two different versions exactly
/// one is newer, no version is newer than itself, and being newer carries over
/// a third version. A downgrade is therefore always refused.
pub proof fn law_versions_are_totally_ordered(a: Version, b: Version, c: Version)
    ensures
        !a.newer(a),
        a.newer(b) ==> !b.newer(a),
        a == b || a.newer(b) || b.newer(a),
        a.newer(b) && b.newer(c) ==> a.newer(c),
{
}

/// The notation of a version is read as that version.
pub proof fn law_versions_read_back(v: Version)
    ensures
        ({
            let parts = version_parts(v.shown());
            &&& component(parts, 0) == Some(v.major as nat)
            &&& component(parts, 1) == Some(v.minor as nat)
            &&& component(parts, 2) == Some(v.patch as nat)
        }),
{
    let a = text::dec(v.major as nat);
    let b = text::dec(v.minor as nat);
    let c = text::dec(v.patch as nat);
    text::lemma_dec_reads_back(v.major as nat);
    text::lemma_dec_reads_back(v.minor as nat);
    text::lemma_dec_reads_back(v.patch as nat);
    reveal_strlit(".");
    let s = v.shown();
    assert(s =~= a + seq!['.'] + b + seq!['.'] + c);
    assert(s[0] == a[0] && s.last() == c.last());
    assert(text::trimmed(s) == s);
    let rest = b + seq!['.'] + c;
    assert forall|j: int| 0 <= j < a.len() implies #[trigger] s[j] != '.' by {
        assert(s[j] == a[j]);
    }
    assert(s[a.len() as int] == '.');
    text::lemma_first_index(s, '.', a.len() as int);
    assert(s.take(a.len() as int) =~= a);
    assert(s.skip(a.len() as int + 1) =~= rest);
    assert forall|j: int| 0 <= j < b.len() implies #[trigger] rest[j] != '.' by {
        assert(rest[j] == b[j]);
    }
    assert(rest[b.len() as int] == '.');
    text::lemma_first_index(rest, '.', b.len() as int);
    assert(rest.take(b.len() as int) =~= b);
    assert(rest.skip(b.len() as int + 1) =~= c);
}

/// What an update client is asked to do.
#[derive(Debug, Clone, Copy, PartialEq, Eq, Structural)]
pub enum UpdateTask {
    /// Look for an update.
    Check,
    /// Verify one.
    Verify,
    /// Apply one.
    Apply,
}

impl UpdateTask {
    /// What the task is called.
    pub open spec fn noun(self) -> Seq<char> {
        match self {
            UpdateTask::Check => "checking"@,
            UpdateTask::Verify => "verification"@,
            UpdateTask::Apply => "application"@,
        }
    }

    /// The refusal of the task where no verifying key is configured: without one
    /// no update is trusted.
    #[must_use]
    pub fn refused(self) -> (r: Error)
        ensures
            r@ == ErrorModel::of(
                ErrorKind::Config,
                "update "@ + self.noun() + " is disabled: no update_verify_key configured"@,
            ),
    {
        let noun = match self {
            UpdateTask::Check => "checking",
            UpdateTask::Verify => "verification",
            UpdateTask::Apply => "application",
        };
        Error::Config(
            text::cat3("update ", noun, " is disabled: no update_verify_key configured"),
        )
    }
}

/// A version with a larger part is newer, whatever the parts behind it; so only a
/// version that counts up is an update.
pub proof fn law_counting_up_is_newer(v: Version, major: u32, minor: u32, patch: u32)
    ensures
        major > v.major ==> (Version { major, minor, patch }).newer(v),
        major == v.major && minor > v.minor ==> (Version { major, minor, patch }).newer(v),
        major == v.major && minor == v.minor && patch > v.patch ==> (Version {
            major,
            minor,
            patch,
        }).newer(v),
        major < v.major ==> !(Version { major, minor, patch }).newer(v),
        major == v.major && minor < v.minor ==> !(Version { major, minor, patch }).newer(v),
        major == v.major && minor == v.minor && patch <= v.patch ==> !(Version {
            major,
            minor,
            patch,
        }).newer(v),
        installed_version().shown() == VERSION@,
{
    lemma_installed_version_is_shown();
}

/// The refusal of a task names that task.
pub proof fn law_refused_tasks_are_named(task: UpdateTask)
    ensures
        task is Check ==> task.noun() == "checking"@,
        task is Verify ==> task.noun() == "verification"@,
        task is Apply ==> task.noun() == "application"@,
{
}

} // verus!
