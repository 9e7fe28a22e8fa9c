//! Structured security-audit events.
//!
//! Records are append-only and hold no secrets, credentials or host paths.

use crate::error::FailureClass;
use crate::ids::{ProfileId, SessionId};
use crate::time::Timestamp;
use vstd::prelude::*;

verus! {

/// Severity of an audit record.
#[derive(Debug, Clone, Copy, PartialEq, Eq, PartialOrd, Ord, Structural)]
pub enum Severity {
    /// Informational lifecycle event.
    Info,
    /// A notable but handled condition.
    Notice,
    /// A protection was degraded or a check failed.
    Warning,
    /// A containment or isolation guarantee was violated.
    Critical,
}

/// The kind of event being recorded.
#[derive(Debug, PartialEq, Eq)]
pub enum EventKind {
    /// A session lifecycle transition.
    SessionState {
        /// New state name.
        state: String,
    },
    /// A preflight check produced an outcome.
    PreflightCheck {
        /// Check id.
        check: String,
        /// Outcome.
        outcome: String,
    },
    /// The kill switch changed state.
    KillSwitch {
        /// New state name.
        state: String,
    },
    /// A tunnel state change.
    Tunnel {
        /// New tunnel state.
        state: String,
    },
    /// A VM lifecycle event.
    Vm {
        /// VM role.
        role: String,
        /// New VM state.
        state: String,
    },
    /// A profile was created, deleted, opened or closed.
    Profile {
        /// Action performed.
        action: String,
    },
    /// A fail-closed enforcement action fired.
    FailClosed {
        /// The failure classification that triggered it.
        class: FailureClass,
        /// A short reason.
        reason: String,
    },
    /// An update or integrity event.
    Integrity {
        /// Action.
        action: String,
        /// Outcome.
        outcome: String,
    },
}

/// An audit record before it is stamped with the time.
#[derive(Debug, PartialEq, Eq)]
pub struct AuditDraft {
    /// Severity.
    pub severity: Severity,
    /// Associated session, if any.
    pub session: Option<SessionId>,
    /// Associated profile, if any.
    pub profile: Option<ProfileId>,
    /// The event payload.
    pub kind: EventKind,
}

/// The model of an event.
pub enum KindModel {
    /// A session lifecycle transition to the named state.
    SessionState(Seq<char>),
    /// A preflight check and its outcome.
    PreflightCheck(Seq<char>, Seq<char>),
    /// The new kill-switch state.
    KillSwitch(Seq<char>),
    /// The new tunnel state.
    Tunnel(Seq<char>),
    /// A VM role and its new state.
    Vm(Seq<char>, Seq<char>),
    /// An action on a profile.
    Profile(Seq<char>),
    /// A fail-closed action: the class of the failure and the reason.
    FailClosed(FailureClass, Seq<char>),
    /// An update or integrity action and its outcome.
    Integrity(Seq<char>, Seq<char>),
}

impl View for EventKind {
    type V = KindModel;

    open spec fn view(&self) -> KindModel {
        match self {
            EventKind::SessionState { state } => KindModel::SessionState(state@),
            EventKind::PreflightCheck { check, outcome } => KindModel::PreflightCheck(
                check@,
                outcome@,
            ),
            EventKind::KillSwitch { state } => KindModel::KillSwitch(state@),
            EventKind::Tunnel { state } => KindModel::Tunnel(state@),
            EventKind::Vm { role, state } => KindModel::Vm(role@, state@),
            EventKind::Profile { action } => KindModel::Profile(action@),
            EventKind::FailClosed { class, reason } => KindModel::FailClosed(*class, reason@),
            EventKind::Integrity { action, outcome } => KindModel::Integrity(action@, outcome@),
        }
    }
}

/// The model of a draft.
pub struct RecordModel {
    /// Severity.
    pub severity: Severity,
    /// Associated session, if any.
    pub session: Option<SessionId>,
    /// Associated profile, if any.
    pub profile: Option<ProfileId>,
    /// The event.
    pub kind: KindModel,
}

impl RecordModel {
    /// A record about a session of a profile.
    pub open spec fn about(
        severity: Severity,
        session: SessionId,
        profile: ProfileId,
        kind: KindModel,
    ) -> RecordModel {
        RecordModel { severity, session: Some(session), profile: Some(profile), kind }
    }
}

impl View for AuditDraft {
    type V = RecordModel;

    open spec fn view(&self) -> RecordModel {
        RecordModel {
            severity: self.severity,
            session: self.session,
            profile: self.profile,
            kind: self.kind@,
        }
    }
}

/// The models of a list of drafts.
pub open spec fn notes(drafts: Seq<AuditDraft>) -> Seq<RecordModel> {
    drafts.map_values(|d: AuditDraft| d@)
}

/// Appends a draft.
pub fn note(drafts: &mut Vec<AuditDraft>, draft: AuditDraft)
    ensures
        notes(final(drafts)@) == notes(old(drafts)@).push(draft@),
{
    drafts.push(draft);
    assert(notes(drafts@) =~= notes(old(drafts)@).push(draft@));
}

impl AuditDraft {
    /// A draft about a session of a profile.
    #[must_use]
    pub fn about(severity: Severity, session: SessionId, profile: ProfileId, kind: EventKind) -> (r:
        AuditDraft)
        ensures
            r.severity == severity,
            r.session == Some(session),
            r.profile == Some(profile),
            r.kind == kind,
    {
        AuditDraft { severity, session: Some(session), profile: Some(profile), kind }
    }

    /// The record at the given time.
    #[must_use]
    pub fn stamped(self, at: Timestamp) -> (r: AuditRecord)
        ensures
            r.at == at,
            r.severity == self.severity,
            r.session == self.session,
            r.profile == self.profile,
            r.kind == self.kind,
    {
        AuditRecord {
            at,
            severity: self.severity,
            session: self.session,
            profile: self.profile,
            kind: self.kind,
        }
    }
}

/// An append-only audit record.
#[derive(Debug, PartialEq, Eq)]
pub struct AuditRecord {
    /// UTC timestamp.
    pub at: Timestamp,
    /// Severity.
    pub severity: Severity,
    /// Associated session, if any.
    pub session: Option<SessionId>,
    /// Associated profile, if any.
    pub profile: Option<ProfileId>,
    /// The event payload.
    pub kind: EventKind,
}

impl AuditRecord {
    /// A record at `at`, about no session and no profile.
    #[must_use]
    pub fn new(at: Timestamp, severity: Severity, kind: EventKind) -> (r: AuditRecord)
        ensures
            r.at == at,
            r.severity == severity,
            r.session is None,
            r.profile is None,
            r.kind == kind,
    {
        AuditRecord { at, severity, session: None, profile: None, kind }
    }

    /// Attaches a session id.
    #[must_use]
    pub fn with_session(self, id: SessionId) -> (r: AuditRecord)
        ensures
            r == (AuditRecord { session: Some(id), ..self }),
    {
        AuditRecord { session: Some(id), ..self }
    }

    /// Attaches a profile id.
    #[must_use]
    pub fn with_profile(self, id: ProfileId) -> (r: AuditRecord)
        ensures
            r == (AuditRecord { profile: Some(id), ..self }),
    {
        AuditRecord { profile: Some(id), ..self }
    }
}

} // verus!
