//! The command surface between the front-ends and the daemon.
//!
//! No request or response carries secret material.

use crate::config::{Enforcement, IsolationLevel};
use crate::error::{Error, FailureClass};
use crate::health::DiagnosticItem;
use crate::ids::{ProfileId, SessionId};
use crate::preflight::ConnectivityChecklist;
use crate::profile::{Profile, ProfilePatch, ProfileSpec};
use crate::session::{SessionRequest, SessionSummary};
use crate::text;
use crate::update::{ApplyOutcome, UpdateManifest, VersionInfo};
use vstd::prelude::*;

verus! {

/// A daemon status snapshot.
#[derive(Debug, PartialEq, Eq)]
pub struct StatusDto {
    /// The daemon's version.
    pub version: String,
    /// The host platform.
    pub platform: String,
    /// The isolation level that a new session gets.
    pub isolation_level: IsolationLevel,
    /// The current policy.
    pub enforcement: Enforcement,
    /// Whether a host browser could be located.
    pub host_browser_available: bool,
    /// Its path, if any.
    pub host_browser_path: Option<String>,
}

impl Clone for StatusDto {
    fn clone(&self) -> (r: StatusDto)
        ensures
            r == *self,
    {
        StatusDto {
            version: self.version.clone(),
            platform: self.platform.clone(),
            isolation_level: self.isolation_level,
            enforcement: self.enforcement,
            host_browser_available: self.host_browser_available,
            host_browser_path: text::copy_opt(&self.host_browser_path),
        }
    }
}

/// A command from a front-end.
#[derive(Debug)]
pub enum Request {
    /// List all profiles.
    ListProfiles,
    /// Create a profile.
    CreateProfile(ProfileSpec),
    /// Change a profile.
    UpdateProfile {
        /// The profile.
        id: ProfileId,
        /// The changes.
        patch: ProfilePatch,
    },
    /// Delete a profile and its data.
    DeleteProfile(ProfileId),
    /// Start a session.
    StartSession(SessionRequest),
    /// Stop a session.
    StopSession(SessionId),
    /// List the sessions.
    ListSessions,
    /// Show the diagnostics of a session.
    GetDiagnostics(SessionId),
    /// Run the self-test.
    Doctor,
    /// Look for an update.
    CheckUpdate(VersionInfo),
    /// Apply an update.
    ApplyUpdate(UpdateManifest),
    /// Show the status.
    GetStatus,
    /// Show the containment policy.
    GetEnforcement,
    /// Replace the containment policy.
    SetEnforcement(Enforcement),
}

impl Request {
    /// The name of the operation.
    pub open spec fn op(self) -> Seq<char> {
        match self {
            Request::ListProfiles => "list-profiles"@,
            Request::CreateProfile(_) => "create-profile"@,
            Request::UpdateProfile { .. } => "update-profile"@,
            Request::DeleteProfile(_) => "delete-profile"@,
            Request::StartSession(_) => "start-session"@,
            Request::StopSession(_) => "stop-session"@,
            Request::ListSessions => "list-sessions"@,
            Request::GetDiagnostics(_) => "get-diagnostics"@,
            Request::Doctor => "doctor"@,
            Request::CheckUpdate(_) => "check-update"@,
            Request::ApplyUpdate(_) => "apply-update"@,
            Request::GetStatus => "get-status"@,
            Request::GetEnforcement => "get-enforcement"@,
            Request::SetEnforcement(_) => "set-enforcement"@,
        }
    }

    /// A stable name for the operation; it holds no arguments.
    #[must_use]
    pub fn op_name(&self) -> (r: &'static str)
        ensures
            r@ == self.op(),
    {
        match self {
            Request::ListProfiles => "list-profiles",
            Request::CreateProfile(_) => "create-profile",
            Request::UpdateProfile { .. } => "update-profile",
            Request::DeleteProfile(_) => "delete-profile",
            Request::StartSession(_) => "start-session",
            Request::StopSession(_) => "stop-session",
            Request::ListSessions => "list-sessions",
            Request::GetDiagnostics(_) => "get-diagnostics",
            Request::Doctor => "doctor",
            Request::CheckUpdate(_) => "check-update",
            Request::ApplyUpdate(_) => "apply-update",
            Request::GetStatus => "get-status",
            Request::GetEnforcement => "get-enforcement",
            Request::SetEnforcement(_) => "set-enforcement",
        }
    }
}

/// Whether two requests ask for the same operation, whatever their arguments.
pub open spec fn same_operation(a: Request, b: Request) -> bool {
    match (a, b) {
        (Request::ListProfiles, Request::ListProfiles) => true,
        (Request::CreateProfile(_), Request::CreateProfile(_)) => true,
        (Request::UpdateProfile { .. }, Request::UpdateProfile { .. }) => true,
        (Request::DeleteProfile(_), Request::DeleteProfile(_)) => true,
        (Request::StartSession(_), Request::StartSession(_)) => true,
        (Request::StopSession(_), Request::StopSession(_)) => true,
        (Request::ListSessions, Request::ListSessions) => true,
        (Request::GetDiagnostics(_), Request::GetDiagnostics(_)) => true,
        (Request::Doctor, Request::Doctor) => true,
        (Request::CheckUpdate(_), Request::CheckUpdate(_)) => true,
        (Request::ApplyUpdate(_), Request::ApplyUpdate(_)) => true,
        (Request::GetStatus, Request::GetStatus) => true,
        (Request::GetEnforcement, Request::GetEnforcement) => true,
        (Request::SetEnforcement(_), Request::SetEnforcement(_)) => true,
        _ => false,
    }
}

/// What tells two operation names apart: the length and two characters.
spec fn mark(name: Seq<char>) -> (nat, char, char) {
    (name.len(), name[0], name[5])
}

/// No two operation names have the same mark.
proof fn lemma_marks()
    ensures
        mark("list-profiles"@) == (13nat, 'l', 'p'),
        mark("create-profile"@) == (14nat, 'c', 'e'),
        mark("update-profile"@) == (14nat, 'u', 'e'),
        mark("delete-profile"@) == (14nat, 'd', 'e'),
        mark("start-session"@) == (13nat, 's', '-'),
        mark("stop-session"@) == (12nat, 's', 's'),
        mark("list-sessions"@) == (13nat, 'l', 's'),
        mark("get-diagnostics"@) == (15nat, 'g', 'i'),
        mark("doctor"@) == (6nat, 'd', 'r'),
        mark("check-update"@) == (12nat, 'c', '-'),
        mark("apply-update"@) == (12nat, 'a', '-'),
        mark("get-status"@) == (10nat, 'g', 't'),
        mark("get-enforcement"@) == (15nat, 'g', 'n'),
        mark("set-enforcement"@) == (15nat, 's', 'n'),
{
    reveal_strlit("list-profiles");
    reveal_strlit("create-profile");
    reveal_strlit("update-profile");
    reveal_strlit("delete-profile");
    reveal_strlit("start-session");
    reveal_strlit("stop-session");
    reveal_strlit("list-sessions");
    reveal_strlit("get-diagnostics");
    reveal_strlit("doctor");
    reveal_strlit("check-update");
    reveal_strlit("apply-update");
    reveal_strlit("get-status");
    reveal_strlit("get-enforcement");
    reveal_strlit("set-enforcement");
}

/// The name of a request tells its operation, and nothing of its arguments: two
/// requests have the same name exactly where they ask for the same operation.
pub proof fn law_names_tell_operations(a: Request, b: Request)
    ensures
        a.op() == b.op() <==> same_operation(a, b),
{
    lemma_marks();
}

/// The daemon's reply.
#[derive(Debug)]
pub enum Response {
    /// All profiles.
    Profiles(Vec<Profile>),
    /// The profile that was created or changed.
    Profile(Profile),
    /// A change without a payload was made.
    Done,
    /// The session that was started or stopped.
    Session(SessionSummary),
    /// All sessions.
    Sessions(Vec<SessionSummary>),
    /// The diagnostics of a session.
    Diagnostics {
        /// The checklist.
        checklist: ConnectivityChecklist,
        /// The items of the panel.
        items: Vec<DiagnosticItem>,
    },
    /// The result of the self-test.
    Doctor(ConnectivityChecklist),
    /// The update that is available, if any.
    UpdateAvailable(Option<UpdateManifest>),
    /// The update was applied, or rolled back.
    UpdateApplied(ApplyOutcome),
    /// The status.
    Status(StatusDto),
    /// The containment policy.
    Enforcement(Enforcement),
    /// A failure.
    Error {
        /// A description without secrets.
        message: String,
        /// The classification that the front-end honours.
        class: FailureClass,
    },
}

impl Response {
    /// Whether this reports the given error.
    pub open spec fn reports(self, err: Error) -> bool {
        self matches Response::Error { message, class } && message@ == err.shown() && class
            == err.classified()
    }

    /// The reply that reports an error and keeps its class.
    #[must_use]
    pub fn from_error(err: &Error) -> (r: Response)
        ensures
            r.reports(*err),
    {
        Response::Error { message: err.text(), class: err.class() }
    }

    /// The reply of a result: the reply itself, or the report of the error.
    #[must_use]
    pub fn from_result(result: Result<Response, Error>) -> (r: Response)
        ensures
            match result {
                Ok(x) => r == x,
                Err(e) => r.reports(e),
            },
    {
        match result {
            Ok(r) => r,
            Err(e) => Response::from_error(&e),
        }
    }

    /// Whether this is an error.
    #[must_use]
    pub fn is_error(&self) -> (r: bool)
        ensures
            r == (*self is Error),
    {
        matches!(self, Response::Error { .. })
    }

    /// The class of an error.
    #[must_use]
    pub fn error_class(&self) -> (r: Option<FailureClass>)
        ensures
            r == match *self {
                Response::Error { class, .. } => Some(class),
                _ => None,
            },
    {
        match self {
            Response::Error { class, .. } => Some(*class),
            _ => None,
        }
    }
}

} // verus!
