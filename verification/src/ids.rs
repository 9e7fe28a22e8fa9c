//! Strongly-typed identifiers.
//!
//! Every identifier is a newtype over the 128-bit value of a UUID, so that the
//! type system keeps the kinds of identifier apart. Identifiers are generated
//! locally and are unrelated to any host identifier.

use crate::error::Error;
use crate::text;
use vstd::arithmetic::power::pow;
use vstd::prelude::*;

verus! {

/// The lower-case hexadecimal digit `d`.
pub open spec fn hex_digit(d: int) -> char {
    if d < 10 {
        (48 + d) as char
    } else {
        (87 + d) as char
    }
}

/// The 32 hexadecimal digits of `v`, most significant first.
pub open spec fn simple_text(v: u128) -> Seq<char> {
    Seq::new(32, |i: int| hex_digit((v as int / pow(16, (31 - i) as nat)) % 16))
}

/// The digits of `v` in groups of 8, 4, 4, 4 and 12 with hyphens between them.
pub open spec fn hyphenated_text(v: u128) -> Seq<char> {
    let s = simple_text(v);
    s.subrange(0, 8).push('-') + s.subrange(8, 12).push('-') + s.subrange(12, 16).push('-')
        + s.subrange(16, 20).push('-') + s.subrange(20, 32)
}

/// What `uuid::Uuid::parse_str` makes of a text: the 128-bit value, or the text
/// of the error.
pub uninterp spec fn uuid_parsed(s: Seq<char>) -> Result<u128, Seq<char>>;

/// A random value from `uuid::Uuid::new_v4`. Claimed of every outcome: the
/// version digit is 4 and the two variant bits are `10`.
#[verifier::external_body]
fn random_v4() -> (r: u128)
    ensures
        (r as int / pow(16, 19)) % 16 == 4,
        8 <= (r as int / pow(16, 15)) % 16 < 12,
{
    uuid::Uuid::new_v4().as_u128()
}

/// Whether a text that notates a value was read as that value.
pub open spec fn reads_back(s: Seq<char>, r: Result<u128, String>) -> bool {
    forall|v: u128|
        s == #[trigger] hyphenated_text(v) ==> (r matches Ok(w) && w == v)
}

/// The value that `uuid::Uuid::parse_str` reads from `s`, or the text of its
/// error. Claimed: the outcome depends on the text alone, and the hyphenated
/// notation of a value is read as that value.
#[verifier::external_body]
fn parse_v(s: &str) -> (r: Result<u128, String>)
    ensures
        (match r {
            Ok(v) => Ok(v),
            Err(m) => Err(m@),
        }) == uuid_parsed(s@),
        reads_back(s@, r),
{
    uuid::Uuid::parse_str(s).map(|u| u.as_u128()).map_err(|e| e.to_string())
}

/// The text that `uuid::Uuid` displays: the hyphenated lower-case notation.
#[verifier::external_body]
fn display_v(v: u128) -> (r: String)
    ensures
        r@ == hyphenated_text(v),
{
    uuid::Uuid::from_u128(v).to_string()
}

/// The text of `uuid::Uuid::simple`: the 32 lower-case digits.
#[verifier::external_body]
fn simple_v(v: u128) -> (r: String)
    ensures
        r@ == simple_text(v),
{
    uuid::Uuid::from_u128(v).simple().to_string()
}

/// The prefix, a hyphen and the first eight digits of `v`.
pub open spec fn slug_text(prefix: Seq<char>, v: u128) -> Seq<char> {
    prefix + "-"@ + simple_text(v).subrange(0, 8)
}

fn slug_of(prefix: &str, v: u128) -> (r: String)
    ensures
        r@ == slug_text(prefix@, v),
{
    let hex = simple_v(v);
    text::cat3(prefix, "-", hex.as_str().substring_char(0, 8))
}

/// The outcome of reading an identifier of the given kind from `s`.
pub open spec fn id_read(kind: Seq<char>, s: Seq<char>, r: Result<u128, Error>) -> bool {
    match uuid_parsed(s) {
        Ok(v) => r == Ok::<u128, Error>(v),
        Err(m) => r matches Err(Error::Config(t)) && t@ == "invalid "@ + kind + ": "@ + m,
    }
}

/// Turns the outcome of the parser into the library's error.
pub fn id_from_parsed(kind: &str, parsed: Result<u128, String>) -> (r: Result<u128, Error>)
    ensures
        match parsed {
            Ok(v) => r == Ok::<u128, Error>(v),
            Err(m) => r matches Err(Error::Config(t)) && t@ == "invalid "@ + kind@ + ": "@ + m@,
        },
{
    match parsed {
        Ok(v) => Ok(v),
        Err(m) => Err(Error::Config(text::cat4("invalid ", kind, ": ", m.as_str()))),
    }
}

fn read_id(kind: &str, s: &str) -> (r: Result<u128, Error>)
    ensures
        id_read(kind@, s@, r),
        forall|v: u128|
            s@ == #[trigger] hyphenated_text(v) ==> (r matches Ok(w) && w == v),
{
    id_from_parsed(kind, parse_v(s))
}

/// Identifies a browsing profile.
#[derive(Debug, Clone, Copy, PartialEq, Eq, Hash, PartialOrd, Ord, Structural)]
pub struct ProfileId {
    /// The 128-bit value of the UUID.
    pub value: u128,
}

impl ProfileId {
    /// A fresh random identifier.
    #[must_use]
    pub fn new() -> (r: ProfileId)
        ensures
            (r.value as int / pow(16, 19)) % 16 == 4,
            8 <= (r.value as int / pow(16, 15)) % 16 < 12,
    {
        ProfileId { value: random_v4() }
    }

    /// The identifier with the given value.
    #[must_use]
    pub fn from_u128(value: u128) -> (r: ProfileId)
        ensures
            r.value == value,
    {
        ProfileId { value }
    }

    /// The 128-bit value.
    #[must_use]
    pub fn as_u128(&self) -> (r: u128)
        ensures
            r == self.value,
    {
        self.value
    }

    /// The text shown to the user.
    pub open spec fn shown(self) -> Seq<char> {
        hyphenated_text(self.value)
    }

    /// A short, stable slug: the prefix and the first eight hexadecimal digits.
    #[must_use]
    pub fn slug(&self) -> (r: String)
        ensures
            r@ == slug_text("prof"@, self.value),
    {
        slug_of("prof", self.value)
    }

    /// The hyphenated notation.
    #[must_use]
    pub fn text(&self) -> (r: String)
        ensures
            r@ == self.shown(),
    {
        display_v(self.value)
    }

    /// Reads an identifier from text.
    pub fn parse(s: &str) -> (r: Result<ProfileId, Error>)
        ensures
            match uuid_parsed(s@) {
                Ok(v) => r == Ok::<ProfileId, Error>(ProfileId { value: v }),
                Err(m) => r matches Err(Error::Config(t)) && t@ == "invalid "@ + "ProfileId"@ + ": "@ + m,
            },
            forall|id: ProfileId| s@ == #[trigger] id.shown() ==> (r matches Ok(w) && w == id),
    {
        match read_id("ProfileId", s) {
            Ok(v) => Ok(ProfileId { value: v }),
            Err(e) => Err(e),
        }
    }
}

/// Identifies a virtual machine instance.
#[derive(Debug, Clone, Copy, PartialEq, Eq, Hash, PartialOrd, Ord, Structural)]
pub struct VmId {
    /// The 128-bit value of the UUID.
    pub value: u128,
}

impl VmId {
    /// A fresh random identifier.
    #[must_use]
    pub fn new() -> (r: VmId)
        ensures
            (r.value as int / pow(16, 19)) % 16 == 4,
            8 <= (r.value as int / pow(16, 15)) % 16 < 12,
    {
        VmId { value: random_v4() }
    }

    /// The identifier with the given value.
    #[must_use]
    pub fn from_u128(value: u128) -> (r: VmId)
        ensures
            r.value == value,
    {
        VmId { value }
    }

    /// The 128-bit value.
    #[must_use]
    pub fn as_u128(&self) -> (r: u128)
        ensures
            r == self.value,
    {
        self.value
    }

    /// The text shown to the user.
    pub open spec fn shown(self) -> Seq<char> {
        hyphenated_text(self.value)
    }

    /// A short, stable slug: the prefix and the first eight hexadecimal digits.
    #[must_use]
    pub fn slug(&self) -> (r: String)
        ensures
            r@ == slug_text("vm"@, self.value),
    {
        slug_of("vm", self.value)
    }

    /// The hyphenated notation.
    #[must_use]
    pub fn text(&self) -> (r: String)
        ensures
            r@ == self.shown(),
    {
        display_v(self.value)
    }

    /// Reads an identifier from text.
    pub fn parse(s: &str) -> (r: Result<VmId, Error>)
        ensures
            match uuid_parsed(s@) {
                Ok(v) => r == Ok::<VmId, Error>(VmId { value: v }),
                Err(m) => r matches Err(Error::Config(t)) && t@ == "invalid "@ + "VmId"@ + ": "@ + m,
            },
            forall|id: VmId| s@ == #[trigger] id.shown() ==> (r matches Ok(w) && w == id),
    {
        match read_id("VmId", s) {
            Ok(v) => Ok(VmId { value: v }),
            Err(e) => Err(e),
        }
    }
}

/// Identifies a single private-browsing session.
#[derive(Debug, Clone, Copy, PartialEq, Eq, Hash, PartialOrd, Ord, Structural)]
pub struct SessionId {
    /// The 128-bit value of the UUID.
    pub value: u128,
}

impl SessionId {
    /// A fresh random identifier.
    #[must_use]
    pub fn new() -> (r: SessionId)
        ensures
            (r.value as int / pow(16, 19)) % 16 == 4,
            8 <= (r.value as int / pow(16, 15)) % 16 < 12,
    {
        SessionId { value: random_v4() }
    }

    /// The identifier with the given value.
    #[must_use]
    pub fn from_u128(value: u128) -> (r: SessionId)
        ensures
            r.value == value,
    {
        SessionId { value }
    }

    /// The 128-bit value.
    #[must_use]
    pub fn as_u128(&self) -> (r: u128)
        ensures
            r == self.value,
    {
        self.value
    }

    /// The text shown to the user.
    pub open spec fn shown(self) -> Seq<char> {
        hyphenated_text(self.value)
    }

    /// A short, stable slug: the prefix and the first eight hexadecimal digits.
    #[must_use]
    pub fn slug(&self) -> (r: String)
        ensures
            r@ == slug_text("sess"@, self.value),
    {
        slug_of("sess", self.value)
    }

    /// The hyphenated notation.
    #[must_use]
    pub fn text(&self) -> (r: String)
        ensures
            r@ == self.shown(),
    {
        display_v(self.value)
    }

    /// Reads an identifier from text.
    pub fn parse(s: &str) -> (r: Result<SessionId, Error>)
        ensures
            match uuid_parsed(s@) {
                Ok(v) => r == Ok::<SessionId, Error>(SessionId { value: v }),
                Err(m) => r matches Err(Error::Config(t)) && t@ == "invalid "@ + "SessionId"@ + ": "@ + m,
            },
            forall|id: SessionId| s@ == #[trigger] id.shown() ==> (r matches Ok(w) && w == id),
    {
        match read_id("SessionId", s) {
            Ok(v) => Ok(SessionId { value: v }),
            Err(e) => Err(e),
        }
    }
}

/// A per-boot random instance identifier, never derived from host state.
#[derive(Debug, Clone, Copy, PartialEq, Eq, Hash, PartialOrd, Ord, Structural)]
pub struct InstanceId {
    /// The 128-bit value of the UUID.
    pub value: u128,
}

impl InstanceId {
    /// A fresh random identifier.
    #[must_use]
    pub fn new() -> (r: InstanceId)
        ensures
            (r.value as int / pow(16, 19)) % 16 == 4,
            8 <= (r.value as int / pow(16, 15)) % 16 < 12,
    {
        InstanceId { value: random_v4() }
    }

    /// The identifier with the given value.
    #[must_use]
    pub fn from_u128(value: u128) -> (r: InstanceId)
        ensures
            r.value == value,
    {
        InstanceId { value }
    }

    /// The 128-bit value.
    #[must_use]
    pub fn as_u128(&self) -> (r: u128)
        ensures
            r == self.value,
    {
        self.value
    }

    /// The text shown to the user.
    pub open spec fn shown(self) -> Seq<char> {
        hyphenated_text(self.value)
    }

    /// A short, stable slug: the prefix and the first eight hexadecimal digits.
    #[must_use]
    pub fn slug(&self) -> (r: String)
        ensures
            r@ == slug_text("inst"@, self.value),
    {
        slug_of("inst", self.value)
    }

    /// The hyphenated notation.
    #[must_use]
    pub fn text(&self) -> (r: String)
        ensures
            r@ == self.shown(),
    {
        display_v(self.value)
    }

    /// Reads an identifier from text.
    pub fn parse(s: &str) -> (r: Result<InstanceId, Error>)
        ensures
            match uuid_parsed(s@) {
                Ok(v) => r == Ok::<InstanceId, Error>(InstanceId { value: v }),
                Err(m) => r matches Err(Error::Config(t)) && t@ == "invalid "@ + "InstanceId"@ + ": "@ + m,
            },
            forall|id: InstanceId| s@ == #[trigger] id.shown() ==> (r matches Ok(w) && w == id),
    {
        match read_id("InstanceId", s) {
            Ok(v) => Ok(InstanceId { value: v }),
            Err(e) => Err(e),
        }
    }
}

/// A slug is its prefix, a hyphen and the first eight digits that the full notation
/// shows, and nothing else.
pub proof fn law_slugs_show_the_first_digits(prefix: Seq<char>, v: u128)
    ensures
        slug_text(prefix, v).len() == prefix.len() + 9,
        prefix.is_prefix_of(slug_text(prefix, v)),
        slug_text(prefix, v)[prefix.len() as int] == '-',
        slug_text(prefix, v).skip(prefix.len() as int + 1) == hyphenated_text(v).take(8),
{
    reveal_strlit("-");
    let s = slug_text(prefix, v);
    let digits = simple_text(v).subrange(0, 8);
    assert(s.subrange(0, prefix.len() as int) =~= prefix);
    assert(s.skip(prefix.len() as int + 1) =~= digits);
    assert(hyphenated_text(v).take(8) =~= digits);
}

} // verus!
