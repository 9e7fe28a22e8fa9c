//! The commands of the manager window.
//!
//! A command sends one request and shows the reply; listing the profiles sends a
//! second one. The functions here make the requests and read the replies; the
//! caller carries them. A failure becomes a short text.

use crate::config::Enforcement;
use crate::dto::{
    running_word, DiagnosticsView, DoctorView, EnforcementView, ProfileView, SessionView,
    StatusView,
};
use crate::form::CreateProfileArgs;
use crate::ids::{uuid_parsed, ProfileId, SessionId};
use crate::preview::ProfilePreview;
use crate::profile::Profile;
use crate::protocol::{Request, Response};
use crate::session::{SessionRequest, SessionState, SessionSummary};
use crate::text;
use crate::time::Timestamp;
use vstd::prelude::*;

verus! {

/// The text of a fault, with what was being done.
#[must_use]
pub fn err_to_string(context: &str, e: &str) -> (r: String)
    ensures
        r@ == context@ + ": "@ + e@,
{
    text::cat3(context, ": ", e)
}

/// The text where the daemon's reply is of another kind.
pub open spec fn surprise(op: Seq<char>) -> Seq<char> {
    "daemon returned an unexpected reply for "@ + op
}

fn unexpected(op: &str) -> (r: String)
    ensures
        r@ == surprise(op@),
{
    text::cat2("daemon returned an unexpected reply for ", op)
}

/// The text of a failure that the daemon reports, with its class.
pub open spec fn reported_failure(resp: Response) -> Option<Seq<char>> {
    match resp {
        Response::Error { message, class } => Some(
            message@ + " ["@ + class.identifier() + "]"@,
        ),
        _ => None,
    }
}

/// The text of a failure that the daemon reports, with its class.
#[must_use]
pub fn response_error(resp: &Response) -> (r: Option<String>)
    ensures
        text::opt_text(r) == reported_failure(*resp),
{
    match resp {
        Response::Error { message, class } => Some(
            text::cat4(message.as_str(), " [", class.debug_name(), "]"),
        ),
        _ => None,
    }
}

/// The text for a reply that carries nothing to show: the failure it reports, or
/// else that it was unexpected.
pub open spec fn no_answer(resp: Response, op: Seq<char>) -> Seq<char> {
    match reported_failure(resp) {
        Some(m) => m,
        None => surprise(op),
    }
}

fn no_reply(resp: &Response, op: &str) -> (r: String)
    ensures
        r@ == no_answer(*resp, op@),
{
    match response_error(resp) {
        Some(m) => m,
        None => unexpected(op),
    }
}

/// Whether the gateway is live for a session in this state.
pub open spec fn live(state: SessionState) -> bool {
    state != SessionState::Destroyed && state != SessionState::Failed
}

/// Whether the gateway is live for a session in this state.
#[must_use]
pub fn session_is_live(state: SessionState) -> (r: bool)
    ensures
        r == live(state),
{
    !matches!(state, SessionState::Destroyed | SessionState::Failed)
}

/// The first live session of a profile, where only browsing ones may be asked
/// for.
pub open spec fn first_of(
    sessions: Seq<SessionSummary>,
    profile: ProfileId,
    browsing: bool,
) -> Option<SessionSummary>
    decreases sessions.len(),
{
    if sessions.len() == 0 {
        None
    } else if sessions[0].profile == profile && (if browsing {
        sessions[0].state == SessionState::Browsing
    } else {
        live(sessions[0].state)
    }) {
        Some(sessions[0])
    } else {
        first_of(sessions.skip(1), profile, browsing)
    }
}

/// The session that is shown for a profile: the first that is browsing, or else
/// the first that is live. A session that has ended is not shown.
pub open spec fn shown_session(sessions: Seq<SessionSummary>, profile: ProfileId) -> Option<
    SessionSummary,
> {
    match first_of(sessions, profile, true) {
        Some(s) => Some(s),
        None => first_of(sessions, profile, false),
    }
}

fn find_session<'a>(sessions: &'a Vec<SessionSummary>, profile: ProfileId, browsing: bool) -> (r:
    Option<&'a SessionSummary>)
    ensures
        match r {
            Some(s) => first_of(sessions@, profile, browsing) == Some(*s),
            None => first_of(sessions@, profile, browsing) is None,
        },
{
    let mut i: usize = 0;
    assert(sessions@.skip(0) =~= sessions@);
    while i < sessions.len()
        invariant
            i <= sessions@.len(),
            first_of(sessions@, profile, browsing) == first_of(
                sessions@.skip(i as int),
                profile,
                browsing,
            ),
        decreases sessions@.len() - i,
    {
        assert(sessions@.skip(i as int)[0] == sessions@[i as int]);
        let s = &sessions[i];
        let shows: bool = if browsing {
            s.state.is_browsing()
        } else {
            session_is_live(s.state)
        };
        if s.profile == profile && shows {
            return Some(s);
        }
        assert(sessions@.skip(i as int).skip(1) =~= sessions@.skip(i + 1));
        i += 1;
    }
    None
}

/// Whether a row shows a profile at `now`, with its live session: without one it
/// shows no address, and its gateway runs only where the profile is locked.
pub open spec fn row_shows(
    v: ProfileView,
    p: Profile,
    sessions: Seq<SessionSummary>,
    now: Timestamp,
) -> bool {
    &&& v.describes(p, now)
    &&& match shown_session(sessions, p.id) {
        Some(s) => v.public_ip == s.public_ip && v.gateway_state@ == running_word(true),
        None => v.public_ip is None && v.gateway_state@ == running_word(p.locked),
    }
}

fn profile_row(p: &Profile, sessions: &Vec<SessionSummary>, now: Timestamp) -> (r: ProfileView)
    ensures
        row_shows(r, *p, sessions@, now),
{
    let mut v = ProfileView::from_profile(p, now);
    let found = match find_session(sessions, p.id, true) {
        Some(s) => Some(s),
        None => find_session(sessions, p.id, false),
    };
    if let Some(s) = found {
        v.public_ip = text::copy_opt(&s.public_ip);
        v.gateway_state = "running".to_owned();
    }
    v
}

/// The sessions in a reply; none where there is no such reply. That the sessions
/// could not be listed does not keep the profiles from being shown.
#[must_use]
pub fn sessions_or_none(reply: Option<Response>) -> (r: Vec<SessionSummary>)
    ensures
        match reply {
            Some(Response::Sessions(s)) => r == s,
            _ => r@.len() == 0,
        },
{
    match reply {
        Some(Response::Sessions(s)) => s,
        _ => Vec::new(),
    }
}

/// The rows of the profiles table: the profiles in the reply, each with the
/// session that is shown for it.
pub fn list_profiles(resp: &Response, sessions: &Vec<SessionSummary>, now: Timestamp) -> (r: Result<
    Vec<ProfileView>,
    String,
>)
    ensures
        match *resp {
            Response::Profiles(profiles) => r matches Ok(rows) && rows@.len() == profiles@.len()
                && (forall|i: int|
                0 <= i < rows@.len() ==> row_shows(
                    #[trigger] rows@[i],
                    profiles@[i],
                    sessions@,
                    now,
                )),
            _ => r matches Err(e) && e@ == no_answer(*resp, "list-profiles"@),
        },
{
    match resp {
        Response::Profiles(profiles) => {
            let mut rows: Vec<ProfileView> = Vec::new();
            let mut i: usize = 0;
            while i < profiles.len()
                invariant
                    i <= profiles@.len(),
                    rows@.len() == i,
                    forall|j: int|
                        0 <= j < i ==> row_shows(
                            #[trigger] rows@[j],
                            profiles@[j],
                            sessions@,
                            now,
                        ),
                decreases profiles@.len() - i,
            {
                rows.push(profile_row(&profiles[i], sessions, now));
                i += 1;
            }
            Ok(rows)
        },
        other => Err(no_reply(other, "list-profiles")),
    }
}

/// The request that creates the profile that the form describes.
pub fn create_request(args: &CreateProfileArgs) -> (r: Result<Request, String>)
    ensures
        if text::is_blank(args.name@) {
            r matches Err(e) && e@ == "profile name must not be empty"@
        } else {
            match args.complaint() {
                Some(m) => r matches Err(e) && e@ == m,
                None => r matches Ok(Request::CreateProfile(spec)) && args.describes(
                    text::trimmed(args.name@),
                    spec,
                ),
            }
        },
{
    match args.to_spec() {
        Ok(spec) => Ok(Request::CreateProfile(spec)),
        Err(e) => Err(e),
    }
}

/// The profile that was created.
pub fn create_profile(resp: &Response, now: Timestamp) -> (r: Result<ProfileView, String>)
    ensures
        match *resp {
            Response::Profile(p) => r matches Ok(v) && v.describes(p, now) && v.gateway_state@
                == running_word(p.locked) && v.public_ip is None,
            _ => r matches Err(e) && e@ == no_answer(*resp, "create-profile"@),
        },
{
    match resp {
        Response::Profile(p) => Ok(ProfileView::from_profile(p, now)),
        other => Err(no_reply(other, "create-profile")),
    }
}

/// What a site would see of the profile that the form describes. Nothing is sent.
pub fn preview_profile(args: &CreateProfileArgs) -> (r: Result<ProfilePreview, String>)
    ensures
        match args.complaint() {
            Some(m) => r matches Err(e) && e@ == m,
            None => r matches Ok(p) && exists|spec| #[trigger]
                p.previews(spec) && args.describes(args.shown_name(), spec),
        },
{
    args.preview()
}

/// The text for an id that cannot be read.
pub open spec fn invalid_id(context: Seq<char>, kind: Seq<char>, m: Seq<char>) -> Seq<char> {
    context + ": "@ + ("invalid configuration: "@ + ("invalid "@ + kind + ": "@ + m))
}

fn profile_id(id: &str) -> (r: Result<ProfileId, String>)
    ensures
        match uuid_parsed(id@) {
            Ok(value) => r == Ok::<ProfileId, String>(ProfileId { value }),
            Err(m) => r matches Err(e) && e@ == invalid_id("invalid profile id"@, "ProfileId"@, m),
        },
{
    match ProfileId::parse(id) {
        Ok(p) => Ok(p),
        Err(e) => Err(err_to_string("invalid profile id", e.text().as_str())),
    }
}

fn session_id(id: &str) -> (r: Result<SessionId, String>)
    ensures
        match uuid_parsed(id@) {
            Ok(value) => r == Ok::<SessionId, String>(SessionId { value }),
            Err(m) => r matches Err(e) && e@ == invalid_id("invalid session id"@, "SessionId"@, m),
        },
{
    match SessionId::parse(id) {
        Ok(p) => Ok(p),
        Err(e) => Err(err_to_string("invalid session id", e.text().as_str())),
    }
}

/// The request that deletes a profile.
pub fn delete_request(id: &str) -> (r: Result<Request, String>)
    ensures
        match uuid_parsed(id@) {
            Ok(value) => r matches Ok(q) && q == Request::DeleteProfile(ProfileId { value }),
            Err(m) => r matches Err(e) && e@ == invalid_id("invalid profile id"@, "ProfileId"@, m),
        },
{
    match profile_id(id) {
        Ok(p) => Ok(Request::DeleteProfile(p)),
        Err(e) => Err(e),
    }
}

/// Whether the profile was deleted.
pub fn delete_profile(resp: &Response) -> (r: Result<(), String>)
    ensures
        match *resp {
            Response::Done => r is Ok,
            _ => r matches Err(e) && e@ == no_answer(*resp, "delete-profile"@),
        },
{
    match resp {
        Response::Done => Ok(()),
        other => Err(no_reply(other, "delete-profile")),
    }
}

/// The request that starts a session. The window carries no unlock secret.
pub fn start_request(profile: &str) -> (r: Result<Request, String>)
    ensures
        match uuid_parsed(profile@) {
            Ok(value) => r matches Ok(q) && q == Request::StartSession(
                SessionRequest { profile: ProfileId { value }, unlock_ref: None },
            ),
            Err(m) => r matches Err(e) && e@ == invalid_id("invalid profile id"@, "ProfileId"@, m),
        },
{
    match profile_id(profile) {
        Ok(p) => Ok(Request::StartSession(SessionRequest { profile: p, unlock_ref: None })),
        Err(e) => Err(e),
    }
}

fn session_reply(resp: &Response, op: &str) -> (r: Result<SessionView, String>)
    ensures
        match *resp {
            Response::Session(s) => r matches Ok(v) && v.describes(s),
            _ => r matches Err(e) && e@ == no_answer(*resp, op@),
        },
{
    match resp {
        Response::Session(s) => Ok(SessionView::from_summary(s)),
        other => Err(no_reply(other, op)),
    }
}

/// The session that was started.
pub fn start_session(resp: &Response) -> (r: Result<SessionView, String>)
    ensures
        match *resp {
            Response::Session(s) => r matches Ok(v) && v.describes(s),
            _ => r matches Err(e) && e@ == no_answer(*resp, "start-session"@),
        },
{
    session_reply(resp, "start-session")
}

/// The request that stops a session.
pub fn stop_request(session: &str) -> (r: Result<Request, String>)
    ensures
        match uuid_parsed(session@) {
            Ok(value) => r matches Ok(q) && q == Request::StopSession(SessionId { value }),
            Err(m) => r matches Err(e) && e@ == invalid_id("invalid session id"@, "SessionId"@, m),
        },
{
    match session_id(session) {
        Ok(s) => Ok(Request::StopSession(s)),
        Err(e) => Err(e),
    }
}

/// The session that was stopped.
pub fn stop_session(resp: &Response) -> (r: Result<SessionView, String>)
    ensures
        match *resp {
            Response::Session(s) => r matches Ok(v) && v.describes(s),
            _ => r matches Err(e) && e@ == no_answer(*resp, "stop-session"@),
        },
{
    session_reply(resp, "stop-session")
}

/// The sessions.
pub fn list_sessions(resp: &Response) -> (r: Result<Vec<SessionView>, String>)
    ensures
        match *resp {
            Response::Sessions(sessions) => r matches Ok(rows) && rows@.len() == sessions@.len()
                && (forall|i: int|
                0 <= i < rows@.len() ==> (#[trigger] rows@[i]).describes(sessions@[i])),
            _ => r matches Err(e) && e@ == no_answer(*resp, "list-sessions"@),
        },
{
    match resp {
        Response::Sessions(sessions) => {
            let mut rows: Vec<SessionView> = Vec::new();
            let mut i: usize = 0;
            while i < sessions.len()
                invariant
                    i <= sessions@.len(),
                    rows@.len() == i,
                    forall|j: int| 0 <= j < i ==> (#[trigger] rows@[j]).describes(sessions@[j]),
                decreases sessions@.len() - i,
            {
                rows.push(SessionView::from_summary(&sessions[i]));
                i += 1;
            }
            Ok(rows)
        },
        other => Err(no_reply(other, "list-sessions")),
    }
}

/// The request for the diagnostics of a session.
pub fn diagnostics_request(session: &str) -> (r: Result<Request, String>)
    ensures
        match uuid_parsed(session@) {
            Ok(value) => r matches Ok(q) && q == Request::GetDiagnostics(SessionId { value }),
            Err(m) => r matches Err(e) && e@ == invalid_id("invalid session id"@, "SessionId"@, m),
        },
{
    match session_id(session) {
        Ok(s) => Ok(Request::GetDiagnostics(s)),
        Err(e) => Err(e),
    }
}

/// The diagnostics panel.
pub fn get_diagnostics(resp: &Response) -> (r: Result<DiagnosticsView, String>)
    ensures
        match *resp {
            Response::Diagnostics { checklist, items } => r matches Ok(v) && v.describes(
                checklist,
                items@,
            ),
            _ => r matches Err(e) && e@ == no_answer(*resp, "get-diagnostics"@),
        },
{
    match resp {
        Response::Diagnostics { checklist, items } => Ok(
            DiagnosticsView::build(checklist, items.as_slice()),
        ),
        other => Err(no_reply(other, "get-diagnostics")),
    }
}

/// The result of the self-test.
pub fn doctor(resp: &Response) -> (r: Result<DoctorView, String>)
    ensures
        match *resp {
            Response::Doctor(checklist) => r matches Ok(v) && v.describes(checklist),
            _ => r matches Err(e) && e@ == no_answer(*resp, "doctor"@),
        },
{
    match resp {
        Response::Doctor(checklist) => Ok(DoctorView::build(checklist)),
        other => Err(no_reply(other, "doctor")),
    }
}

/// The daemon status.
pub fn get_status(resp: &Response) -> (r: Result<StatusView, String>)
    ensures
        match *resp {
            Response::Status(s) => r matches Ok(v) && v.describes(s),
            _ => r matches Err(e) && e@ == no_answer(*resp, "get-status"@),
        },
{
    match resp {
        Response::Status(s) => Ok(StatusView::from_status(s)),
        other => Err(no_reply(other, "get-status")),
    }
}

/// The containment policy.
pub fn get_enforcement(resp: &Response) -> (r: Result<EnforcementView, String>)
    ensures
        match *resp {
            Response::Enforcement(e) => r == Ok::<EnforcementView, String>(EnforcementView::of(e)),
            _ => r matches Err(e) && e@ == no_answer(*resp, "get-enforcement"@),
        },
{
    match resp {
        Response::Enforcement(e) => Ok(EnforcementView::from(*e)),
        other => Err(no_reply(other, "get-enforcement")),
    }
}

/// The request that replaces the containment policy.
#[must_use]
pub fn enforcement_request(view: EnforcementView) -> (r: Request)
    ensures
        r == Request::SetEnforcement(view.policy()),
{
    Request::SetEnforcement(Enforcement::from(view))
}

/// The containment policy that was applied.
pub fn set_enforcement(resp: &Response) -> (r: Result<EnforcementView, String>)
    ensures
        match *resp {
            Response::Enforcement(e) => r == Ok::<EnforcementView, String>(EnforcementView::of(e)),
            _ => r matches Err(e) && e@ == no_answer(*resp, "set-enforcement"@),
        },
{
    match resp {
        Response::Enforcement(e) => Ok(EnforcementView::from(*e)),
        other => Err(no_reply(other, "set-enforcement")),
    }
}

/// The session that a profile is shown with is a live one of that profile, and a
/// browsing one where there is one; a profile without a live session is shown with
/// none.
pub proof fn law_shown_sessions_are_live(
    sessions: Seq<SessionSummary>,
    profile: ProfileId,
    i: int,
)
    ensures
        shown_session(sessions, profile) matches Some(s) ==> s.profile == profile && s.state
            !is Destroyed && s.state !is Failed && sessions.contains(s),
        0 <= i < sessions.len() && sessions[i].profile == profile && sessions[i].state is Browsing
            ==> (shown_session(sessions, profile) matches Some(s) && s.state is Browsing),
        0 <= i < sessions.len() && sessions[i].profile == profile && sessions[i].state !is Destroyed
            && sessions[i].state !is Failed ==> shown_session(sessions, profile) is Some,
{
    lemma_first_of(sessions, profile, true, i);
    lemma_first_of(sessions, profile, false, i);
}

proof fn lemma_first_of(
    sessions: Seq<SessionSummary>,
    profile: ProfileId,
    browsing: bool,
    i: int,
)
    ensures
        first_of(sessions, profile, browsing) matches Some(s) ==> {
            &&& s.profile == profile
            &&& browsing ==> s.state is Browsing
            &&& live(s.state)
            &&& sessions.contains(s)
        },
        0 <= i < sessions.len() && sessions[i].profile == profile && (if browsing {
            sessions[i].state is Browsing
        } else {
            live(sessions[i].state)
        }) ==> first_of(sessions, profile, browsing) is Some,
    decreases sessions.len(),
{
    if sessions.len() > 0 {
        let rest = sessions.skip(1);
        lemma_first_of(rest, profile, browsing, i - 1);
        assert(sessions.contains(sessions[0]));
        if 0 < i < sessions.len() {
            assert(rest[i - 1] == sessions[i]);
        }
        if let Some(s) = first_of(rest, profile, browsing) {
            let k = choose|k: int| 0 <= k < rest.len() && rest[k] == s;
            if rest.contains(s) {
                assert(sessions[k + 1] == s);
            }
        }
    }
}

} // verus!
