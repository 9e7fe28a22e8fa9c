//! The error taxonomy.
//!
//! The cardinal rule is fail-closed: an error on the network or isolation path
//! ends connectivity. Every error carries a [`FailureClass`], so that the layers
//! above decide uniformly whether the kill switch must engage.

use crate::text;
use vstd::prelude::*;

verus! {

/// How the system must react to a failure.
#[derive(Debug, Clone, Copy, PartialEq, Eq, Hash, Structural)]
pub enum FailureClass {
    /// A network-containment guarantee could not be upheld.
    NetworkContainment,
    /// A VM/host isolation guarantee could not be upheld.
    Isolation,
    /// Cryptographic or secure-storage failure.
    Cryptography,
    /// Integrity failure on an update or image.
    Integrity,
    /// Invalid configuration supplied by the user or on disk.
    Configuration,
    /// A recoverable precondition was not met.
    Precondition,
    /// An underlying system or tooling error.
    System,
    /// A programming invariant was violated.
    Internal,
}

impl FailureClass {
    /// The classes at which connectivity must be severed.
    pub open spec fn severs(self) -> bool {
        self == FailureClass::NetworkContainment || self == FailureClass::Isolation
    }

    /// The stable machine-readable name.
    pub open spec fn name(self) -> Seq<char> {
        match self {
            FailureClass::NetworkContainment => "network-containment"@,
            FailureClass::Isolation => "isolation"@,
            FailureClass::Cryptography => "cryptography"@,
            FailureClass::Integrity => "integrity"@,
            FailureClass::Configuration => "configuration"@,
            FailureClass::Precondition => "precondition"@,
            FailureClass::System => "system"@,
            FailureClass::Internal => "internal"@,
        }
    }

    /// Whether reaching this failure means connectivity must be severed.
    #[must_use]
    pub fn requires_killswitch(self) -> (r: bool)
        ensures
            r == self.severs(),
    {
        matches!(self, FailureClass::NetworkContainment | FailureClass::Isolation)
    }

    /// Whether the operation may be retried without weakening any guarantee.
    #[must_use]
    pub fn is_retryable(self) -> (r: bool)
        ensures
            r == (self == FailureClass::Precondition || self == FailureClass::System),
    {
        matches!(self, FailureClass::Precondition | FailureClass::System)
    }

    /// The stable machine-readable name.
    #[must_use]
    pub fn as_str(self) -> (r: &'static str)
        ensures
            r@ == self.name(),
    {
        match self {
            FailureClass::NetworkContainment => "network-containment",
            FailureClass::Isolation => "isolation",
            FailureClass::Cryptography => "cryptography",
            FailureClass::Integrity => "integrity",
            FailureClass::Configuration => "configuration",
            FailureClass::Precondition => "precondition",
            FailureClass::System => "system",
            FailureClass::Internal => "internal",
        }
    }

    /// The identifier of the class, as diagnostics print it.
    pub open spec fn identifier(self) -> Seq<char> {
        match self {
            FailureClass::NetworkContainment => "NetworkContainment"@,
            FailureClass::Isolation => "Isolation"@,
            FailureClass::Cryptography => "Cryptography"@,
            FailureClass::Integrity => "Integrity"@,
            FailureClass::Configuration => "Configuration"@,
            FailureClass::Precondition => "Precondition"@,
            FailureClass::System => "System"@,
            FailureClass::Internal => "Internal"@,
        }
    }

    /// The identifier of the class, as diagnostics print it.
    #[must_use]
    pub fn debug_name(self) -> (r: &'static str)
        ensures
            r@ == self.identifier(),
    {
        match self {
            FailureClass::NetworkContainment => "NetworkContainment",
            FailureClass::Isolation => "Isolation",
            FailureClass::Cryptography => "Cryptography",
            FailureClass::Integrity => "Integrity",
            FailureClass::Configuration => "Configuration",
            FailureClass::Precondition => "Precondition",
            FailureClass::System => "System",
            FailureClass::Internal => "Internal",
        }
    }
}

/// The error type of the library.
#[derive(Debug)]
#[non_exhaustive]
pub enum Error {
    /// Network containment could not be guaranteed.
    NetworkContainment(String),
    /// A VM/host isolation guarantee was violated.
    Isolation(String),
    /// A required preflight connectivity check did not pass.
    Preflight {
        /// Machine-readable identifier of the failing check.
        check: String,
        /// Human-readable reason.
        detail: String,
    },
    /// Cryptographic or secure-storage failure.
    Crypto(String),
    /// Integrity verification failed.
    Integrity(String),
    /// The supplied configuration is invalid.
    Config(String),
    /// A precondition for the operation was not satisfied.
    Precondition(String),
    /// A requested resource does not exist.
    NotFound(String),
    /// A resource is already in use.
    Busy(String),
    /// The operation is not supported on the current platform or build.
    Unsupported(String),
    /// An underlying system error.
    System(String),
    /// An internal invariant was violated.
    Internal(String),
}

/// The kinds of error.
pub enum ErrorKind {
    /// Network containment could not be guaranteed.
    NetworkContainment,
    /// A VM/host isolation guarantee was violated.
    Isolation,
    /// A required preflight check did not pass.
    Preflight,
    /// Cryptographic or secure-storage failure.
    Crypto,
    /// Integrity verification failed.
    Integrity,
    /// The supplied configuration is invalid.
    Config,
    /// A precondition was not satisfied.
    Precondition,
    /// A requested resource does not exist.
    NotFound,
    /// A resource is already in use.
    Busy,
    /// The operation is not supported.
    Unsupported,
    /// An underlying system error.
    System,
    /// An internal invariant was violated.
    Internal,
}

/// The model of an error: its kind, its message, and the name of the check
/// where it is a preflight failure.
pub struct ErrorModel {
    /// The kind.
    pub kind: ErrorKind,
    /// The failing check; empty for any other kind.
    pub check: Seq<char>,
    /// The message.
    pub message: Seq<char>,
}

impl ErrorModel {
    /// An error of a kind other than a preflight failure.
    pub open spec fn of(kind: ErrorKind, message: Seq<char>) -> ErrorModel {
        ErrorModel { kind, check: Seq::empty(), message }
    }

    /// Whether the error severs connectivity.
    pub open spec fn severs(self) -> bool {
        self.kind is NetworkContainment || self.kind is Preflight || self.kind is Isolation
    }
}

impl View for Error {
    type V = ErrorModel;

    open spec fn view(&self) -> ErrorModel {
        match self {
            Error::NetworkContainment(m) => ErrorModel::of(ErrorKind::NetworkContainment, m@),
            Error::Isolation(m) => ErrorModel::of(ErrorKind::Isolation, m@),
            Error::Preflight { check, detail } => ErrorModel {
                kind: ErrorKind::Preflight,
                check: check@,
                message: detail@,
            },
            Error::Crypto(m) => ErrorModel::of(ErrorKind::Crypto, m@),
            Error::Integrity(m) => ErrorModel::of(ErrorKind::Integrity, m@),
            Error::Config(m) => ErrorModel::of(ErrorKind::Config, m@),
            Error::Precondition(m) => ErrorModel::of(ErrorKind::Precondition, m@),
            Error::NotFound(m) => ErrorModel::of(ErrorKind::NotFound, m@),
            Error::Busy(m) => ErrorModel::of(ErrorKind::Busy, m@),
            Error::Unsupported(m) => ErrorModel::of(ErrorKind::Unsupported, m@),
            Error::System(m) => ErrorModel::of(ErrorKind::System, m@),
            Error::Internal(m) => ErrorModel::of(ErrorKind::Internal, m@),
        }
    }
}

impl Error {
    /// The fail-closed classification of this error.
    pub open spec fn classified(self) -> FailureClass {
        match self {
            Error::NetworkContainment(_) | Error::Preflight { .. } => {
                FailureClass::NetworkContainment
            },
            Error::Isolation(_) => FailureClass::Isolation,
            Error::Crypto(_) => FailureClass::Cryptography,
            Error::Integrity(_) => FailureClass::Integrity,
            Error::Config(_) => FailureClass::Configuration,
            Error::Precondition(_) | Error::NotFound(_) | Error::Busy(_) => {
                FailureClass::Precondition
            },
            Error::Unsupported(_) | Error::System(_) => FailureClass::System,
            Error::Internal(_) => FailureClass::Internal,
        }
    }

    /// The text shown to the user.
    pub open spec fn shown(self) -> Seq<char> {
        match self {
            Error::NetworkContainment(m) => "network containment failure: "@ + m@,
            Error::Isolation(m) => "isolation failure: "@ + m@,
            Error::Preflight { check, detail } => "preflight check '"@ + check@ + "' failed: "@
                + detail@,
            Error::Crypto(m) => "cryptography failure: "@ + m@,
            Error::Integrity(m) => "integrity failure: "@ + m@,
            Error::Config(m) => "invalid configuration: "@ + m@,
            Error::Precondition(m) => "precondition not met: "@ + m@,
            Error::NotFound(m) => "not found: "@ + m@,
            Error::Busy(m) => "resource busy: "@ + m@,
            Error::Unsupported(m) => "unsupported: "@ + m@,
            Error::System(m) => "system error: "@ + m@,
            Error::Internal(m) => "internal error: "@ + m@,
        }
    }

    /// The fail-closed classification of this error.
    #[must_use]
    pub fn class(&self) -> (r: FailureClass)
        ensures
            r == self.classified(),
    {
        match self {
            Error::NetworkContainment(_) => FailureClass::NetworkContainment,
            Error::Preflight { .. } => FailureClass::NetworkContainment,
            Error::Isolation(_) => FailureClass::Isolation,
            Error::Crypto(_) => FailureClass::Cryptography,
            Error::Integrity(_) => FailureClass::Integrity,
            Error::Config(_) => FailureClass::Configuration,
            Error::Precondition(_) => FailureClass::Precondition,
            Error::NotFound(_) => FailureClass::Precondition,
            Error::Busy(_) => FailureClass::Precondition,
            Error::Unsupported(_) => FailureClass::System,
            Error::System(_) => FailureClass::System,
            Error::Internal(_) => FailureClass::Internal,
        }
    }

    /// Whether reaching this error must sever connectivity.
    #[must_use]
    pub fn requires_killswitch(&self) -> (r: bool)
        ensures
            r == self.classified().severs(),
    {
        self.class().requires_killswitch()
    }

    /// A preflight failure of the named check.
    pub fn preflight(check: &str, detail: &str) -> (r: Error)
        ensures
            r matches Error::Preflight { check: c, detail: d } && c@ == check@ && d@ == detail@,
    {
        Error::Preflight { check: check.to_owned(), detail: detail.to_owned() }
    }

    /// A fault of the JSON notation, with its description.
    #[must_use]
    pub fn json(why: &str) -> (r: Error)
        ensures
            r@ == ErrorModel::of(ErrorKind::System, "json: "@ + why@),
    {
        Error::System(text::cat2("json: ", why))
    }

    /// A fault of input or output, with its description.
    #[must_use]
    pub fn io(why: &str) -> (r: Error)
        ensures
            r@ == ErrorModel::of(ErrorKind::System, "io: "@ + why@),
    {
        Error::System(text::cat2("io: ", why))
    }

    /// The text shown to the user.
    #[must_use]
    pub fn text(&self) -> (r: String)
        ensures
            r@ == self.shown(),
    {
        match self {
            Error::NetworkContainment(m) => text::cat2("network containment failure: ", m.as_str()),
            Error::Isolation(m) => text::cat2("isolation failure: ", m.as_str()),
            Error::Preflight { check, detail } => text::cat4(
                "preflight check '",
                check.as_str(),
                "' failed: ",
                detail.as_str(),
            ),
            Error::Crypto(m) => text::cat2("cryptography failure: ", m.as_str()),
            Error::Integrity(m) => text::cat2("integrity failure: ", m.as_str()),
            Error::Config(m) => text::cat2("invalid configuration: ", m.as_str()),
            Error::Precondition(m) => text::cat2("precondition not met: ", m.as_str()),
            Error::NotFound(m) => text::cat2("not found: ", m.as_str()),
            Error::Busy(m) => text::cat2("resource busy: ", m.as_str()),
            Error::Unsupported(m) => text::cat2("unsupported: ", m.as_str()),
            Error::System(m) => text::cat2("system error: ", m.as_str()),
            Error::Internal(m) => text::cat2("internal error: ", m.as_str()),
        }
    }
}

/// An error severs connectivity exactly where it is a containment, preflight or
/// isolation failure; no other error does.
pub proof fn law_only_containment_severs(e: Error)
    ensures
        e.classified().severs() <==> (e is NetworkContainment || e is Preflight || e is Isolation),
        e.classified().severs() <==> e@.severs(),
{
}

/// An error shows the message that it was given, behind what kind of error it is,
/// and nothing is added behind it.
pub proof fn law_errors_show_their_message(e: Error, m: String)
    ensures
        e == Error::NetworkContainment(m) ==> e.shown() == "network containment failure: "@ + m@,
        e == Error::Isolation(m) ==> e.shown() == "isolation failure: "@ + m@,
        e == Error::Crypto(m) ==> e.shown() == "cryptography failure: "@ + m@,
        e == Error::Integrity(m) ==> e.shown() == "integrity failure: "@ + m@,
        e == Error::Config(m) ==> e.shown() == "invalid configuration: "@ + m@,
        e == Error::Precondition(m) ==> e.shown() == "precondition not met: "@ + m@,
        e == Error::NotFound(m) ==> e.shown() == "not found: "@ + m@,
        e == Error::Busy(m) ==> e.shown() == "resource busy: "@ + m@,
        e == Error::Unsupported(m) ==> e.shown() == "unsupported: "@ + m@,
        e == Error::System(m) ==> e.shown() == "system error: "@ + m@,
        e == Error::Internal(m) ==> e.shown() == "internal error: "@ + m@,
{
}

/// Every error has the class by which it is answered: containment and preflight
/// failures the network's, isolation its own, and what the user can mend a
/// precondition.
pub proof fn law_errors_have_their_class(e: Error)
    ensures
        e.classified() is NetworkContainment <==> e is NetworkContainment || e is Preflight,
        e.classified() is Isolation <==> e is Isolation,
        e.classified() is Cryptography <==> e is Crypto,
        e.classified() is Integrity <==> e is Integrity,
        e.classified() is Configuration <==> e is Config,
        e.classified() is Precondition <==> e is Precondition || e is NotFound || e is Busy,
        e.classified() is System <==> e is Unsupported || e is System,
        e.classified() is Internal <==> e is Internal,
        e.classified().severs() <==> e is NetworkContainment || e is Preflight || e is Isolation,
        e@.severs() <==> e.classified().severs(),
{
}

} // verus!
