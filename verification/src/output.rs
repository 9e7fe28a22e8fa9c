//! What the command line prints for a reply.
//!
//! Formatting is kept apart from printing. Where JSON of a whole value is asked
//! for, the output names the value, and the caller serializes it.

use crate::cli::{
    bad_id, build_request, current_version_info, parse_profile_id, requested, Command,
    ConfigCommand, EnforcementArgs, IsolationArg, ProfileCommand, ProfileCreateArgs, SessionCommand, UpdateCommand,
};
use crate::config::Enforcement;
use crate::error::{Error, ErrorKind, ErrorModel};
use crate::health::DiagnosticItem;
use crate::ids::{uuid_parsed, ProfileId};
use crate::policy::{json_text, PolicyModel, PolicyValue};
use crate::preflight::ConnectivityChecklist;
use crate::profile::Profile;
use crate::protocol::{Request, Response, StatusDto};
use crate::render;
use crate::session::SessionSummary;
use crate::table::ascending;
use crate::text;
use crate::time::Timestamp;
use crate::update::{installed_version, ApplyOutcome};
use vstd::prelude::*;

verus! {

/// How the process ends.
#[derive(Debug, Clone, Copy, PartialEq, Eq, Structural)]
pub enum Dispatch {
    /// It exits with 0.
    Success,
    /// The daemon reported a failure; it exits with another code.
    DaemonError,
}

/// The exit code where the daemon reported a failure.
pub const EXIT_DAEMON_ERROR: u8 = 2;

/// The exit code where the command line itself failed.
pub const EXIT_CLIENT_ERROR: u8 = 3;

impl Dispatch {
    /// The exit code of the process.
    #[must_use]
    pub fn exit_code(self) -> (r: u8)
        ensures
            r == match self {
                Dispatch::Success => 0u8,
                Dispatch::DaemonError => EXIT_DAEMON_ERROR,
            },
    {
        match self {
            Dispatch::Success => 0,
            Dispatch::DaemonError => EXIT_DAEMON_ERROR,
        }
    }
}

/// The line on standard error where the command line itself failed.
#[must_use]
pub fn client_error_line(e: &Error) -> (r: String)
    ensures
        r@ == "error: "@ + e.shown() + " ["@ + e.classified().name() + "]"@,
{
    text::cat5("error: ", e.text().as_str(), " [", e.class().as_str(), "]")
}

/// A value that is printed as JSON.
pub enum JsonDoc<'a> {
    /// Profiles.
    Profiles(&'a Vec<Profile>),
    /// A profile.
    Profile(&'a Profile),
    /// A session.
    Session(&'a SessionSummary),
    /// Sessions.
    Sessions(&'a Vec<SessionSummary>),
    /// Diagnostics: the badge text, the checklist and the items.
    Diagnostics(&'static str, &'a ConnectivityChecklist, &'a Vec<DiagnosticItem>),
    /// The self-test: the badge text and the checklist.
    Doctor(&'static str, &'a ConnectivityChecklist),
    /// The status.
    Status(&'a StatusDto),
    /// A policy.
    Enforcement(Enforcement),
}

/// What is written to standard output.
pub enum Stdout<'a> {
    /// This text; nothing where it is empty.
    Text(String),
    /// The JSON of a value.
    Json(JsonDoc<'a>),
}

/// The rendered result of a command.
pub struct Output<'a> {
    /// What is written to standard output.
    pub stdout: Stdout<'a>,
    /// The line written to standard error; may be empty.
    pub stderr: String,
    /// How the process ends.
    pub dispatch: Dispatch,
}

impl<'a> Output<'a> {
    /// The text on standard output; empty where JSON of a value is printed.
    pub open spec fn shows(self) -> Seq<char> {
        match self.stdout {
            Stdout::Text(s) => s@,
            Stdout::Json(_) => Seq::empty(),
        }
    }

    /// Whether this prints a text and succeeds.
    pub open spec fn succeeds(self, out: Seq<char>) -> bool {
        &&& self.stdout matches Stdout::Text(s) && s@ == out
        &&& self.stderr@.len() == 0
        &&& self.dispatch == Dispatch::Success
    }

    /// Whether this prints the JSON of a value and succeeds.
    pub open spec fn succeeds_json(self, doc: JsonDoc<'a>) -> bool {
        &&& self.stdout == Stdout::Json(doc)
        &&& self.stderr@.len() == 0
        &&& self.dispatch == Dispatch::Success
    }

    /// A text that was printed with success.
    #[must_use]
    pub fn ok(stdout: &str) -> (r: Output<'static>)
        ensures
            r.succeeds(stdout@),
    {
        Output {
            stdout: Stdout::Text(stdout.to_owned()),
            stderr: String::new(),
            dispatch: Dispatch::Success,
        }
    }

    /// A text that was printed although the daemon reported a failure.
    #[must_use]
    pub fn ok_but_failed(stdout: &str) -> (r: Output<'static>)
        ensures
            r.stdout matches Stdout::Text(s) && s@ == stdout@,
            r.stderr@.len() == 0,
            r.dispatch == Dispatch::DaemonError,
    {
        Output {
            stdout: Stdout::Text(stdout.to_owned()),
            stderr: String::new(),
            dispatch: Dispatch::DaemonError,
        }
    }

    fn json(doc: JsonDoc<'a>) -> (r: Output<'a>)
        ensures
            r.succeeds_json(doc),
    {
        Output { stdout: Stdout::Json(doc), stderr: String::new(), dispatch: Dispatch::Success }
    }

    /// The text on standard output; empty where JSON of a value is printed.
    #[must_use]
    pub fn text(&self) -> (r: String)
        ensures
            r@ == self.shows(),
    {
        match &self.stdout {
            Stdout::Text(s) => s.clone(),
            Stdout::Json(_) => String::new(),
        }
    }
}

/// A member of a JSON object on a line of its own, without the end of the line.
pub open spec fn member_line(member: (Seq<char>, PolicyModel)) -> Seq<char> {
    "  "@ + json_text(PolicyModel::Words(member.0)) + ": "@ + json_text(member.1)
}

/// The JSON notation of an object with the given members, one to a line.
pub open spec fn json_pretty(members: Seq<(Seq<char>, PolicyModel)>) -> Seq<char> {
    if members.len() == 0 {
        "{}"@
    } else {
        "{\n"@ + text::joined(
            members.map_values(|m: (Seq<char>, PolicyModel)| member_line(m)),
            ",\n"@,
        ) + "\n}"@
    }
}

/// The model of members.
pub open spec fn members_of(members: Seq<(&'static str, PolicyValue)>) -> Seq<
    (Seq<char>, PolicyModel),
> {
    members.map_values(|m: (&'static str, PolicyValue)| (m.0@, m.1@))
}

/// The text that `serde_json::to_string_pretty` makes of an object with these
/// members, whose keys ascend. Claimed: it succeeds, and writes the members in
/// their order, each on a line of its own behind two spaces, with commas between
/// them and braces around them.
#[verifier::external_body]
fn pretty_object(members: &Vec<(&'static str, PolicyValue)>) -> (r: Result<String, String>)
    requires
        ascending(members_of(members@)),
    ensures
        r is Ok,
        r->Ok_0@ == json_pretty(members_of(members@)),
{
    let map: serde_json::Map<String, serde_json::Value> = members.iter().map(|(k, v)| {
        let value = match v {
            PolicyValue::Flag(b) => serde_json::Value::from(*b),
            PolicyValue::Number(n) => serde_json::Value::from(*n),
            PolicyValue::Words(s) => serde_json::Value::from(s.as_str()),
        };
        ((*k).to_owned(), value)
    }).collect();
    serde_json::to_string_pretty(&map).map_err(|e| e.to_string())
}

/// Turns the outcome of the serializer into the library's error.
pub fn json_or_error(made: Result<String, String>) -> (r: Result<String, Error>)
    ensures
        match made {
            Ok(s) => r matches Ok(x) && x@ == s@,
            Err(m) => r matches Err(e) && e@ == ErrorModel::of(
                ErrorKind::System,
                "could not serialize output: "@ + m@,
            ),
        },
{
    match made {
        Ok(s) => Ok(s),
        Err(m) => Err(Error::System(text::cat2("could not serialize output: ", m.as_str()))),
    }
}

/// Whether `r` prints the JSON of an object and ends as given.
pub open spec fn prints_members(
    r: Result<Output, Error>,
    members: Seq<(Seq<char>, PolicyModel)>,
    dispatch: Dispatch,
) -> bool {
    r matches Ok(o) && {
        &&& o.stdout matches Stdout::Text(t) && t@ == json_pretty(members)
        &&& o.stderr@.len() == 0
        &&& o.dispatch == dispatch
    }
}

fn print_members(members: Vec<(&'static str, PolicyValue)>, dispatch: Dispatch) -> (r: Result<
    Output<'static>,
    Error,
>)
    requires
        ascending(members_of(members@)),
    ensures
        prints_members(r, members_of(members@), dispatch),
{
    match json_or_error(pretty_object(&members)) {
        Ok(s) => Ok(Output { stdout: Stdout::Text(s), stderr: String::new(), dispatch }),
        Err(e) => Err(e),
    }
}

/// The short name of a reply.
pub open spec fn response_word(r: Response) -> Seq<char> {
    match r {
        Response::Profiles(_) => "profiles"@,
        Response::Profile(_) => "profile"@,
        Response::Done => "ok"@,
        Response::Session(_) => "session"@,
        Response::Sessions(_) => "sessions"@,
        Response::Diagnostics { .. } => "diagnostics"@,
        Response::Doctor(_) => "doctor"@,
        Response::UpdateAvailable(_) => "update-available"@,
        Response::UpdateApplied(_) => "update-applied"@,
        Response::Status(_) => "status"@,
        Response::Enforcement(_) => "enforcement"@,
        Response::Error { .. } => "error"@,
    }
}

/// The short name of a reply; it holds no payload.
#[must_use]
pub fn response_name(r: &Response) -> (name: &'static str)
    ensures
        name@ == response_word(*r),
{
    match r {
        Response::Profiles(_) => "profiles",
        Response::Profile(_) => "profile",
        Response::Done => "ok",
        Response::Session(_) => "session",
        Response::Sessions(_) => "sessions",
        Response::Diagnostics { .. } => "diagnostics",
        Response::Doctor(_) => "doctor",
        Response::UpdateAvailable(_) => "update-available",
        Response::UpdateApplied(_) => "update-applied",
        Response::Status(_) => "status",
        Response::Enforcement(_) => "enforcement",
        Response::Error { .. } => "error",
    }
}

/// The error where a reply is of the wrong kind.
pub open spec fn wrong_reply(expected: Seq<char>, got: Response) -> ErrorModel {
    ErrorModel::of(
        ErrorKind::Internal,
        "expected "@ + expected + " response, got "@ + response_word(got),
    )
}

fn unexpected(expected: &str, got: &Response) -> (r: Error)
    ensures
        r@ == wrong_reply(expected@, *got),
{
    Error::Internal(text::cat4("expected ", expected, " response, got ", response_name(got)))
}

/// Whether `r` reports a failure of the daemon: the message and its class, on
/// standard error, or as JSON on standard output.
pub open spec fn reports_failure(
    r: Result<Output, Error>,
    message: Seq<char>,
    class: Seq<char>,
    json: bool,
) -> bool {
    if json {
        prints_members(
            r,
            seq![
                ("class"@, PolicyModel::Words(class)),
                ("error"@, PolicyModel::Words(message)),
            ],
            Dispatch::DaemonError,
        )
    } else {
        &&& r matches Ok(o) && (o.stdout matches Stdout::Text(s) && s@.len() == 0) && o.stderr@
            == "error: "@ + message + " ["@ + class + "]"@ && o.dispatch == Dispatch::DaemonError
    }
}

/// Formats a failure of the daemon.
pub fn format_error(response: &Response, json: bool) -> (r: Result<Output<'static>, Error>)
    ensures
        match *response {
            Response::Error { message, class } => reports_failure(r, message@, class.name(), json),
            _ => r matches Err(e) && e@ == ErrorModel::of(
                ErrorKind::Internal,
                "format_error on non-error"@,
            ),
        },
{
    match response {
        Response::Error { message, class } => {
            if json {
                let members = vec![
                    ("class", PolicyValue::words(class.as_str())),
                    ("error", PolicyValue::Words(message.clone())),
                ];
                assert(members_of(members@) =~= seq![
                    ("class"@, PolicyModel::Words(class.name())),
                    ("error"@, PolicyModel::Words(message@)),
                ]);
                proof {
                    reveal_strlit("class");
                    reveal_strlit("error");
                }
                print_members(members, Dispatch::DaemonError)
            } else {
                Ok(
                    Output {
                        stdout: Stdout::Text(String::new()),
                        stderr: text::cat5("error: ", message.as_str(), " [", class.as_str(), "]"),
                        dispatch: Dispatch::DaemonError,
                    },
                )
            }
        },
        _ => Err(Error::Internal("format_error on non-error".to_owned())),
    }
}

/// Formats the profiles.
pub fn format_profiles<'a>(response: &'a Response, json: bool, now: Timestamp) -> (r: Result<
    Output<'a>,
    Error,
>)
    ensures
        match *response {
            Response::Profiles(profiles) => r matches Ok(o) && if json {
                o.succeeds_json(JsonDoc::Profiles(&profiles))
            } else {
                o.succeeds(profiles_text(profiles@, now))
            },
            _ => r matches Err(e) && e@ == wrong_reply("Profiles"@, *response),
        },
{
    match response {
        Response::Profiles(profiles) => Ok(
            if json {
                Output::json(JsonDoc::Profiles(profiles))
            } else {
                Output::ok(render::profiles_table(profiles, now).as_str())
            },
        ),
        other => Err(unexpected("Profiles", other)),
    }
}

/// The text of the profiles.
pub open spec fn profiles_text(profiles: Seq<Profile>, now: Timestamp) -> Seq<char> {
    if profiles.len() == 0 {
        "no profiles"@
    } else {
        render::table_text(render::profile_headers(), render::profile_rows(profiles, now))
    }
}

/// The warning where protection is reduced.
pub const REDUCED_WARNING: &'static str =
    "reduced protection: the site runs on your real OS, only VM isolation is dropped";

/// The warning on standard error, where there is reason for it.
pub open spec fn warned(reduced: bool) -> Seq<char> {
    if reduced {
        REDUCED_WARNING@
    } else {
        Seq::empty()
    }
}

fn warning(reduced: bool) -> (r: String)
    ensures
        r@ == warned(reduced),
{
    if reduced {
        REDUCED_WARNING.to_owned()
    } else {
        String::new()
    }
}

/// Formats a profile that was created. On the host protection is reduced, and
/// standard error says so.
pub fn format_profile<'a>(
    response: &'a Response,
    json: bool,
    now: Timestamp,
    isolation: IsolationArg,
) -> (r: Result<Output<'a>, Error>)
    ensures
        match *response {
            Response::Profile(p) => r matches Ok(o) && {
                &&& if json {
                    o.stdout == Stdout::Json(JsonDoc::Profile(&p))
                } else {
                    o.stdout matches Stdout::Text(s) && s@ == render::detail_text(p, now)
                }
                &&& o.stderr@ == warned(isolation == IsolationArg::Host)
                &&& o.dispatch == Dispatch::Success
            },
            _ => r matches Err(e) && e@ == wrong_reply("Profile"@, *response),
        },
{
    match response {
        Response::Profile(p) => {
            let stdout = if json {
                Stdout::Json(JsonDoc::Profile(p))
            } else {
                Stdout::Text(render::profile_detail(p, now))
            };
            let stderr = warning(isolation == IsolationArg::Host);
            Ok(Output { stdout, stderr, dispatch: Dispatch::Success })
        },
        other => Err(unexpected("Profile", other)),
    }
}

/// The first profile with an id.
pub open spec fn profile_with(profiles: Seq<Profile>, id: ProfileId) -> Option<Profile>
    decreases profiles.len(),
{
    if profiles.len() == 0 {
        None
    } else if profiles[0].id == id {
        Some(profiles[0])
    } else {
        profile_with(profiles.skip(1), id)
    }
}

fn find_profile<'a>(profiles: &'a Vec<Profile>, id: ProfileId) -> (r: Option<&'a Profile>)
    ensures
        match r {
            Some(p) => profile_with(profiles@, id) == Some(*p),
            None => profile_with(profiles@, id) is None,
        },
{
    let mut i: usize = 0;
    assert(profiles@.skip(0) =~= profiles@);
    while i < profiles.len()
        invariant
            i <= profiles@.len(),
            profile_with(profiles@, id) == profile_with(profiles@.skip(i as int), id),
        decreases profiles@.len() - i,
    {
        assert(profiles@.skip(i as int)[0] == profiles@[i as int]);
        if profiles[i].id == id {
            return Some(&profiles[i]);
        }
        assert(profiles@.skip(i as int).skip(1) =~= profiles@.skip(i + 1));
        i += 1;
    }
    None
}

/// Formats the one profile that was asked for, out of all profiles.
pub fn format_profile_show<'a>(response: &'a Response, id: &str, json: bool, now: Timestamp) -> (r:
    Result<Output<'a>, Error>)
    ensures
        match *response {
            Response::Profiles(profiles) => match uuid_parsed(id@) {
                Err(_) => r matches Err(e) && e@ == bad_id("profile"@, id@),
                Ok(value) => match profile_with(profiles@, ProfileId { value }) {
                    Some(p) => r matches Ok(o) && if json {
                        o.succeeds_json(JsonDoc::Profile(&p))
                    } else {
                        o.succeeds(render::detail_text(p, now))
                    },
                    None => r matches Err(e) && e@ == ErrorModel::of(
                        ErrorKind::NotFound,
                        "no profile "@ + id@,
                    ),
                },
            },
            _ => r matches Err(e) && e@ == wrong_reply("Profiles"@, *response),
        },
{
    match response {
        Response::Profiles(profiles) => {
            let wanted = match parse_profile_id(id) {
                Ok(w) => w,
                Err(e) => {
                    return Err(e);
                },
            };
            match find_profile(profiles, wanted) {
                Some(p) => Ok(
                    if json {
                        Output::json(JsonDoc::Profile(p))
                    } else {
                        Output::ok(render::profile_detail(p, now).as_str())
                    },
                ),
                None => Err(Error::NotFound(text::cat2("no profile ", id))),
            }
        },
        other => Err(unexpected("Profiles", other)),
    }
}

/// The line of a session.
pub open spec fn session_line(s: SessionSummary) -> Seq<char> {
    "session "@ + s.id.shown() + " "@ + render::state_cell(s.state) + " "@ + render::badge(
        s.protection.name(),
    )
}

/// Formats a session.
pub fn format_session<'a>(response: &'a Response, json: bool) -> (r: Result<Output<'a>, Error>)
    ensures
        match *response {
            Response::Session(s) => r matches Ok(o) && if json {
                o.succeeds_json(JsonDoc::Session(&s))
            } else {
                o.succeeds(session_line(s))
            },
            _ => r matches Err(e) && e@ == wrong_reply("Session"@, *response),
        },
{
    match response {
        Response::Session(s) => {
            if json {
                return Ok(Output::json(JsonDoc::Session(s)));
            }
            let row = render::session_row(s);
            assert(text::texts(row@).len() == row@.len());
            assert(text::texts(row@)[0] == row@[0]@);
            assert(text::texts(row@)[2] == row@[2]@);
            let head = text::cat5("session ", row[0].as_str(), " ", row[2].as_str(), " ");
            let line = text::cat(head, render::protection_badge(s.protection).as_str());
            Ok(Output::ok(line.as_str()))
        },
        other => Err(unexpected("Session", other)),
    }
}

/// The text of the sessions.
pub open spec fn sessions_text(sessions: Seq<SessionSummary>) -> Seq<char> {
    if sessions.len() == 0 {
        "no active sessions"@
    } else {
        render::table_text(render::session_headers(), render::session_rows(sessions))
    }
}

/// Formats the sessions.
pub fn format_sessions<'a>(response: &'a Response, json: bool) -> (r: Result<Output<'a>, Error>)
    ensures
        match *response {
            Response::Sessions(sessions) => r matches Ok(o) && if json {
                o.succeeds_json(JsonDoc::Sessions(&sessions))
            } else {
                o.succeeds(sessions_text(sessions@))
            },
            _ => r matches Err(e) && e@ == wrong_reply("Sessions"@, *response),
        },
{
    match response {
        Response::Sessions(sessions) => Ok(
            if json {
                Output::json(JsonDoc::Sessions(sessions))
            } else {
                Output::ok(render::sessions_table(sessions).as_str())
            },
        ),
        other => Err(unexpected("Sessions", other)),
    }
}

/// Formats the diagnostics of a session.
pub fn format_diagnostics<'a>(response: &'a Response, json: bool) -> (r: Result<Output<'a>, Error>)
    ensures
        match *response {
            Response::Diagnostics { checklist, items } => r matches Ok(o) && if json {
                &&& o.stdout matches Stdout::Json(JsonDoc::Diagnostics(label, c, i)) && label@
                    == checklist.aggregate().name() && *c == checklist && *i == items
                &&& o.stderr@.len() == 0
                &&& o.dispatch == Dispatch::Success
            } else {
                o.succeeds(render::diagnostics_text(checklist, items@))
            },
            _ => r matches Err(e) && e@ == wrong_reply("Diagnostics"@, *response),
        },
{
    match response {
        Response::Diagnostics { checklist, items } => Ok(
            if json {
                Output::json(JsonDoc::Diagnostics(checklist.status().label(), checklist, items))
            } else {
                Output::ok(render::diagnostics_report(checklist, items).as_str())
            },
        ),
        other => Err(unexpected("Diagnostics", other)),
    }
}

/// Formats the self-test. Where a check has not passed the process fails.
pub fn format_doctor<'a>(response: &'a Response, json: bool) -> (r: Result<Output<'a>, Error>)
    ensures
        match *response {
            Response::Doctor(c) => r matches Ok(o) && {
                &&& if json {
                    o.stdout matches Stdout::Json(JsonDoc::Doctor(label, d)) && label@
                        == c.aggregate().name() && *d == c
                } else {
                    o.stdout matches Stdout::Text(s) && s@ == render::doctor_text(c)
                }
                &&& o.stderr@.len() == 0
                &&& o.dispatch == if c.complete() {
                    Dispatch::Success
                } else {
                    Dispatch::DaemonError
                }
            },
            _ => r matches Err(e) && e@ == wrong_reply("Doctor"@, *response),
        },
{
    match response {
        Response::Doctor(c) => {
            let stdout = if json {
                Stdout::Json(JsonDoc::Doctor(c.status().label(), c))
            } else {
                Stdout::Text(render::doctor_report(c))
            };
            let dispatch = if c.all_passed() {
                Dispatch::Success
            } else {
                Dispatch::DaemonError
            };
            Ok(Output { stdout, stderr: String::new(), dispatch })
        },
        other => Err(unexpected("Doctor", other)),
    }
}

/// Formats the status.
pub fn format_status<'a>(response: &'a Response, json: bool) -> (r: Result<Output<'a>, Error>)
    ensures
        match *response {
            Response::Status(s) => r matches Ok(o) && if json {
                o.succeeds_json(JsonDoc::Status(&s))
            } else {
                o.succeeds(render::status_text(s))
            },
            _ => r matches Err(e) && e@ == wrong_reply("Status"@, *response),
        },
{
    match response {
        Response::Status(s) => Ok(
            if json {
                Output::json(JsonDoc::Status(s))
            } else {
                Output::ok(render::status_report(s).as_str())
            },
        ),
        other => Err(unexpected("Status", other)),
    }
}

/// Whether a change of policy gives full isolation up.
pub open spec fn relaxes(previous: Option<Enforcement>, now: Enforcement) -> bool {
    previous matches Some(p) && p.full() && !now.full()
}

/// Formats a policy. Where it gives up the full isolation of `previous`, standard
/// error says so.
pub fn format_enforcement(
    response: &Response,
    json: bool,
    previous: Option<Enforcement>,
) -> (r: Result<Output<'static>, Error>)
    ensures
        match *response {
            Response::Enforcement(e) => r matches Ok(o) && {
                &&& if json {
                    o.stdout == Stdout::Json(JsonDoc::Enforcement(e))
                } else {
                    o.stdout matches Stdout::Text(s) && s@ == text::trimmed_end(
                        render::enforcement_lines(e.yields(), e),
                    )
                }
                &&& o.stderr@ == warned(relaxes(previous, e))
                &&& o.dispatch == Dispatch::Success
            },
            _ => r matches Err(e) && e@ == wrong_reply("Enforcement"@, *response),
        },
{
    match response {
        Response::Enforcement(e) => {
            let stdout = if json {
                Stdout::Json(JsonDoc::Enforcement(*e))
            } else {
                Stdout::Text(render::enforcement_report(e))
            };
            let relaxed: bool = match previous {
                Some(p) => p.is_full_isolation() && !e.is_full_isolation(),
                None => false,
            };
            Ok(Output { stdout, stderr: warning(relaxed), dispatch: Dispatch::Success })
        },
        other => Err(unexpected("Enforcement", other)),
    }
}

/// Formats whether an update is available.
pub fn format_update_check(response: &Response, json: bool) -> (r: Result<Output<'static>, Error>)
    ensures
        match *response {
            Response::UpdateAvailable(Some(m)) => if json {
                prints_members(
                    r,
                    seq![
                        ("available"@, PolicyModel::Flag(true)),
                        ("version"@, PolicyModel::Words(m.version.shown())),
                    ],
                    Dispatch::Success,
                )
            } else {
                r matches Ok(o) && o.succeeds("update available: "@ + m.version.shown())
            },
            Response::UpdateAvailable(None) => if json {
                prints_members(
                    r,
                    seq![("available"@, PolicyModel::Flag(false))],
                    Dispatch::Success,
                )
            } else {
                r matches Ok(o) && o.succeeds("up to date"@)
            },
            _ => r matches Err(e) && e@ == wrong_reply("UpdateAvailable"@, *response),
        },
{
    match response {
        Response::UpdateAvailable(Some(m)) => {
            let version = m.version.text();
            if json {
                let members = vec![
                    ("available", PolicyValue::Flag(true)),
                    ("version", PolicyValue::Words(version)),
                ];
                assert(members_of(members@) =~= seq![
                    ("available"@, PolicyModel::Flag(true)),
                    ("version"@, PolicyModel::Words(m.version.shown())),
                ]);
                proof {
                    reveal_strlit("available");
                    reveal_strlit("version");
                }
                print_members(members, Dispatch::Success)
            } else {
                Ok(Output::ok(text::cat2("update available: ", version.as_str()).as_str()))
            }
        },
        Response::UpdateAvailable(None) => {
            if json {
                let members = vec![("available", PolicyValue::Flag(false))];
                assert(members_of(members@) =~= seq![("available"@, PolicyModel::Flag(false))]);
                print_members(members, Dispatch::Success)
            } else {
                Ok(Output::ok("up to date"))
            }
        },
        other => Err(unexpected("UpdateAvailable", other)),
    }
}

/// The word for what came of an update.
pub open spec fn applied_word(outcome: ApplyOutcome) -> Seq<char> {
    match outcome {
        ApplyOutcome::Applied => "applied"@,
        ApplyOutcome::RolledBack => "rolled-back"@,
    }
}

/// A rollback is a failure to apply.
pub open spec fn applied_dispatch(outcome: ApplyOutcome) -> Dispatch {
    match outcome {
        ApplyOutcome::Applied => Dispatch::Success,
        ApplyOutcome::RolledBack => Dispatch::DaemonError,
    }
}

/// Formats what came of an update. After a rollback the process fails.
pub fn format_update_applied(response: &Response, json: bool) -> (r: Result<
    Output<'static>,
    Error,
>)
    ensures
        match *response {
            Response::Error { message, class } => reports_failure(r, message@, class.name(), json),
            Response::UpdateApplied(outcome) => if json {
                prints_members(
                    r,
                    seq![
                        ("applied"@, PolicyModel::Flag(true)),
                        ("outcome"@, PolicyModel::Words(applied_word(outcome))),
                    ],
                    applied_dispatch(outcome),
                )
            } else {
                r matches Ok(o) && (o.stdout matches Stdout::Text(s) && s@ == "update "@
                    + applied_word(outcome)) && o.stderr@.len() == 0 && o.dispatch
                    == applied_dispatch(outcome)
            },
            _ => r matches Err(e) && e@ == wrong_reply("UpdateApplied"@, *response),
        },
{
    if response.is_error() {
        return format_error(response, json);
    }
    match response {
        Response::UpdateApplied(outcome) => {
            let (word, dispatch) = match outcome {
                ApplyOutcome::Applied => ("applied", Dispatch::Success),
                ApplyOutcome::RolledBack => ("rolled-back", Dispatch::DaemonError),
            };
            if json {
                let members = vec![
                    ("applied", PolicyValue::Flag(true)),
                    ("outcome", PolicyValue::words(word)),
                ];
                assert(members_of(members@) =~= seq![
                    ("applied"@, PolicyModel::Flag(true)),
                    ("outcome"@, PolicyModel::Words(applied_word(*outcome))),
                ]);
                proof {
                    reveal_strlit("applied");
                    reveal_strlit("outcome");
                }
                print_members(members, dispatch)
            } else {
                Ok(
                    Output {
                        stdout: Stdout::Text(text::cat2("update ", word)),
                        stderr: String::new(),
                        dispatch,
                    },
                )
            }
        },
        other => Err(unexpected("UpdateApplied", other)),
    }
}

/// Formats a change without a payload.
pub fn format_ok(response: &Response, msg: &str, json: bool) -> (r: Result<Output<'static>, Error>)
    ensures
        match *response {
            Response::Done => if json {
                prints_members(r, seq![("ok"@, PolicyModel::Flag(true))], Dispatch::Success)
            } else {
                r matches Ok(o) && o.succeeds(msg@)
            },
            _ => r matches Err(e) && e@ == wrong_reply("Ok"@, *response),
        },
{
    match response {
        Response::Done => {
            if json {
                let members = vec![("ok", PolicyValue::Flag(true))];
                assert(members_of(members@) =~= seq![("ok"@, PolicyModel::Flag(true))]);
                print_members(members, Dispatch::Success)
            } else {
                Ok(Output::ok(msg))
            }
        },
        other => Err(unexpected("Ok", other)),
    }
}

/// Formats the reply to a command. A failure of the daemon is formatted alike for
/// every command.
pub fn format_response<'a>(
    command: &Command,
    response: &'a Response,
    json: bool,
    now: Timestamp,
) -> (r: Result<Output<'a>, Error>)
    ensures
        formatted(*command, *response, json, now, r),
{
    if response.is_error() {
        return format_error(response, json);
    }
    match command {
        Command::Profile(ProfileCommand::Create(args)) => format_profile(
            response,
            json,
            now,
            args.isolation,
        ),
        Command::Profile(ProfileCommand::List) => format_profiles(response, json, now),
        Command::Profile(ProfileCommand::Show { id }) => format_profile_show(
            response,
            id.as_str(),
            json,
            now,
        ),
        Command::Profile(ProfileCommand::Rm { .. }) => format_ok(response, "profile removed", json),
        Command::Session(SessionCommand::Start { .. }) => format_session(response, json),
        Command::Session(SessionCommand::Stop { .. }) => format_session(response, json),
        Command::Session(SessionCommand::List) => format_sessions(response, json),
        Command::Diagnostics { .. } => format_diagnostics(response, json),
        Command::Status => format_status(response, json),
        Command::Config(ConfigCommand::Enforcement(_)) => format_enforcement(response, json, None),
        Command::Doctor => format_doctor(response, json),
        Command::Update(UpdateCommand::Check) => format_update_check(response, json),
        Command::Update(UpdateCommand::Apply) => Err(
            Error::Internal("unreachable apply render".to_owned()),
        ),
    }
}

/// The kind of reply that a command expects.
pub open spec fn expects(command: Command, response: Response) -> bool {
    match command {
        Command::Profile(ProfileCommand::Create(_)) => response is Profile,
        Command::Profile(ProfileCommand::List) => response is Profiles,
        Command::Profile(ProfileCommand::Show { .. }) => response is Profiles,
        Command::Profile(ProfileCommand::Rm { .. }) => response is Done,
        Command::Session(SessionCommand::Start { .. }) => response is Session,
        Command::Session(SessionCommand::Stop { .. }) => response is Session,
        Command::Session(SessionCommand::List) => response is Sessions,
        Command::Diagnostics { .. } => response is Diagnostics,
        Command::Status => response is Status,
        Command::Config(_) => response is Enforcement,
        Command::Doctor => response is Doctor,
        Command::Update(UpdateCommand::Check) => response is UpdateAvailable,
        Command::Update(UpdateCommand::Apply) => false,
    }
}

/// The name of the kind of reply that a command expects.
pub open spec fn expected_word(command: Command) -> Seq<char> {
    match command {
        Command::Profile(ProfileCommand::Create(_)) => "Profile"@,
        Command::Profile(ProfileCommand::Rm { .. }) => "Ok"@,
        Command::Profile(_) => "Profiles"@,
        Command::Session(SessionCommand::List) => "Sessions"@,
        Command::Session(_) => "Session"@,
        Command::Diagnostics { .. } => "Diagnostics"@,
        Command::Status => "Status"@,
        Command::Config(_) => "Enforcement"@,
        Command::Doctor => "Doctor"@,
        Command::Update(_) => "UpdateAvailable"@,
    }
}

/// The error where a reply is not of the kind that a command expects.
pub open spec fn mismatch(command: Command, response: Response) -> ErrorModel {
    if command matches Command::Update(UpdateCommand::Apply) {
        ErrorModel::of(ErrorKind::Internal, "unreachable apply render"@)
    } else {
        wrong_reply(expected_word(command), response)
    }
}

/// Whether `r` is how the reply to a command is formatted.
pub open spec fn formatted(
    command: Command,
    response: Response,
    json: bool,
    now: Timestamp,
    r: Result<Output, Error>,
) -> bool {
    match response {
        Response::Error { message, class } => reports_failure(r, message@, class.name(), json),
        _ => {
            &&& !expects(command, response) ==> (r matches Err(e) && e@ == mismatch(
                command,
                response,
            ))
            &&& match (command, response) {
                (
                    Command::Profile(ProfileCommand::Create(args)),
                    Response::Profile(p),
                ) => r matches Ok(o) && {
                    &&& if json {
                        o.stdout == Stdout::Json(JsonDoc::Profile(&p))
                    } else {
                        o.stdout matches Stdout::Text(s) && s@ == render::detail_text(p, now)
                    }
                    &&& o.stderr@ == warned(args.isolation == IsolationArg::Host)
                    &&& o.dispatch == Dispatch::Success
                },
                (
                    Command::Profile(ProfileCommand::List),
                    Response::Profiles(profiles),
                ) => r matches Ok(o) && if json {
                    o.succeeds_json(JsonDoc::Profiles(&profiles))
                } else {
                    o.succeeds(profiles_text(profiles@, now))
                },
                (
                    Command::Profile(ProfileCommand::Show { id }),
                    Response::Profiles(profiles),
                ) => match uuid_parsed(id@) {
                    Err(_) => r matches Err(e) && e@ == bad_id("profile"@, id@),
                    Ok(value) => match profile_with(profiles@, ProfileId { value }) {
                        Some(p) => r matches Ok(o) && if json {
                            o.succeeds_json(JsonDoc::Profile(&p))
                        } else {
                            o.succeeds(render::detail_text(p, now))
                        },
                        None => r matches Err(e) && e@ == ErrorModel::of(
                            ErrorKind::NotFound,
                            "no profile "@ + id@,
                        ),
                    },
                },
                (Command::Profile(ProfileCommand::Rm { .. }), Response::Done) => if json {
                    prints_members(r, seq![("ok"@, PolicyModel::Flag(true))], Dispatch::Success)
                } else {
                    r matches Ok(o) && o.succeeds("profile removed"@)
                },
                (Command::Session(c), Response::Session(s)) => c !is List ==> (r matches Ok(o)
                    && if json {
                    o.succeeds_json(JsonDoc::Session(&s))
                } else {
                    o.succeeds(session_line(s))
                }),
                (
                    Command::Session(SessionCommand::List),
                    Response::Sessions(sessions),
                ) => r matches Ok(o) && if json {
                    o.succeeds_json(JsonDoc::Sessions(&sessions))
                } else {
                    o.succeeds(sessions_text(sessions@))
                },
                (
                    Command::Diagnostics { .. },
                    Response::Diagnostics { checklist, items },
                ) => r matches Ok(o) && if json {
                    &&& o.stdout matches Stdout::Json(JsonDoc::Diagnostics(label, c, i)) && label@
                        == checklist.aggregate().name() && *c == checklist && *i == items
                    &&& o.stderr@.len() == 0
                    &&& o.dispatch == Dispatch::Success
                } else {
                    o.succeeds(render::diagnostics_text(checklist, items@))
                },
                (Command::Status, Response::Status(s)) => r matches Ok(o) && if json {
                    o.succeeds_json(JsonDoc::Status(&s))
                } else {
                    o.succeeds(render::status_text(s))
                },
                (Command::Config(_), Response::Enforcement(e)) => r matches Ok(o) && if json {
                    o.succeeds_json(JsonDoc::Enforcement(e))
                } else {
                    o.succeeds(text::trimmed_end(render::enforcement_lines(e.yields(), e)))
                },
                (Command::Doctor, Response::Doctor(c)) => r matches Ok(o) && {
                    &&& if json {
                        o.stdout matches Stdout::Json(JsonDoc::Doctor(label, d)) && label@
                            == c.aggregate().name() && *d == c
                    } else {
                        o.stdout matches Stdout::Text(s) && s@ == render::doctor_text(c)
                    }
                    &&& o.stderr@.len() == 0
                    &&& o.dispatch == if c.complete() {
                        Dispatch::Success
                    } else {
                        Dispatch::DaemonError
                    }
                },
                (
                    Command::Update(UpdateCommand::Check),
                    Response::UpdateAvailable(Some(m)),
                ) => if json {
                    prints_members(
                        r,
                        seq![
                            ("available"@, PolicyModel::Flag(true)),
                            ("version"@, PolicyModel::Words(m.version.shown())),
                        ],
                        Dispatch::Success,
                    )
                } else {
                    r matches Ok(o) && o.succeeds("update available: "@ + m.version.shown())
                },
                (
                    Command::Update(UpdateCommand::Check),
                    Response::UpdateAvailable(None),
                ) => if json {
                    prints_members(
                        r,
                        seq![("available"@, PolicyModel::Flag(false))],
                        Dispatch::Success,
                    )
                } else {
                    r matches Ok(o) && o.succeeds("up to date"@)
                },
                _ => true,
            }
        },
    }
}

/// How a command talks to the daemon.
#[derive(Debug)]
pub enum Plan {
    /// One request, whose reply is formatted.
    Once(Request),
    /// The policy is read, changed and written back.
    ChangePolicy(EnforcementArgs),
    /// An update is looked for, and what was found is applied.
    CheckThenApply,
}

/// Decides how a command talks to the daemon.
pub fn plan(command: &Command) -> (r: Result<Plan, Error>)
    ensures
        match *command {
            Command::Update(UpdateCommand::Apply) => r matches Ok(p) && p is CheckThenApply,
            Command::Config(ConfigCommand::Enforcement(args)) => if args.none() {
                r matches Ok(Plan::Once(q)) && q is GetEnforcement
            } else {
                r matches Ok(p) && p == Plan::ChangePolicy(args)
            },
            _ => match r {
                Ok(Plan::Once(q)) => requested(*command, Ok(q)),
                Ok(_) => false,
                Err(e) => requested(*command, Err(e)),
            },
        },
{
    match command {
        Command::Update(UpdateCommand::Apply) => Ok(Plan::CheckThenApply),
        Command::Config(ConfigCommand::Enforcement(args)) => if args.is_empty() {
            Ok(Plan::Once(Request::GetEnforcement))
        } else {
            Ok(Plan::ChangePolicy(*args))
        },
        _ => match build_request(command) {
            Ok(q) => Ok(Plan::Once(q)),
            Err(e) => Err(e),
        },
    }
}

/// What follows the first reply of a command that takes two requests.
pub enum Followup {
    /// Send this request.
    Send(Request),
    /// Print this.
    Show(Output<'static>),
}

/// The first request of `update apply`: it looks for an update.
pub fn update_check_request() -> (r: Request)
    ensures
        r matches Request::CheckUpdate(info) && info.current == installed_version(),
{
    Request::CheckUpdate(current_version_info())
}

/// What follows the check of `update apply`: only what the daemon has just named
/// as available is applied.
pub fn after_update_check(checked: Response, json: bool) -> (r: Result<Followup, Error>)
    ensures
        match checked {
            Response::UpdateAvailable(Some(m)) => r matches Ok(Followup::Send(q)) && q
                == Request::ApplyUpdate(m),
            Response::UpdateAvailable(None) => if json {
                r matches Ok(Followup::Show(o)) && prints_members(
                    Ok(o),
                    seq![
                        ("applied"@, PolicyModel::Flag(false)),
                        ("reason"@, PolicyModel::Words("up to date"@)),
                    ],
                    Dispatch::Success,
                )
            } else {
                r matches Ok(Followup::Show(o)) && o.succeeds(
                    "already up to date; nothing to apply"@,
                )
            },
            Response::Error { message, class } => r matches Ok(Followup::Show(o))
                && reports_failure(Ok(o), message@, class.name(), json),
            _ => r matches Err(e) && e@ == ErrorModel::of(
                ErrorKind::Internal,
                "unexpected response to check-update: "@ + response_word(checked),
            ),
        },
{
    match checked {
        Response::UpdateAvailable(Some(m)) => Ok(Followup::Send(Request::ApplyUpdate(m))),
        Response::UpdateAvailable(None) => {
            if json {
                let members = vec![
                    ("applied", PolicyValue::Flag(false)),
                    ("reason", PolicyValue::words("up to date")),
                ];
                assert(members_of(members@) =~= seq![
                    ("applied"@, PolicyModel::Flag(false)),
                    ("reason"@, PolicyModel::Words("up to date"@)),
                ]);
                proof {
                    reveal_strlit("applied");
                    reveal_strlit("reason");
                }
                match print_members(members, Dispatch::Success) {
                    Ok(o) => Ok(Followup::Show(o)),
                    Err(e) => Err(e),
                }
            } else {
                Ok(Followup::Show(Output::ok("already up to date; nothing to apply")))
            }
        },
        other => {
            if other.is_error() {
                match format_error(&other, json) {
                    Ok(o) => Ok(Followup::Show(o)),
                    Err(e) => Err(e),
                }
            } else {
                Err(
                    Error::Internal(
                        text::cat2("unexpected response to check-update: ", response_name(&other)),
                    ),
                )
            }
        },
    }
}

/// What follows the read of `config enforcement`: the policy with the named
/// switches changed, and no others, is written back.
pub fn after_get_enforcement(current: &Response, args: &EnforcementArgs, json: bool) -> (r: Result<
    Followup,
    Error,
>)
    ensures
        match *current {
            Response::Enforcement(e) => r matches Ok(Followup::Send(q)) && q
                == Request::SetEnforcement(args.applied(e)),
            Response::Error { message, class } => r matches Ok(Followup::Show(o))
                && reports_failure(Ok(o), message@, class.name(), json),
            _ => r matches Err(e) && e@ == ErrorModel::of(
                ErrorKind::Internal,
                "unexpected response to get-enforcement: "@ + response_word(*current),
            ),
        },
{
    match current {
        Response::Enforcement(e) => Ok(Followup::Send(Request::SetEnforcement(args.apply(*e)))),
        other => {
            if other.is_error() {
                match format_error(other, json) {
                    Ok(o) => Ok(Followup::Show(o)),
                    Err(e) => Err(e),
                }
            } else {
                Err(
                    Error::Internal(
                        text::cat2("unexpected response to get-enforcement: ", response_name(other)),
                    ),
                )
            }
        },
    }
}

/// What is printed after the policy was written back: the policy, with a warning
/// where it gives up the full isolation of `previous`.
pub fn after_set_enforcement(applied: &Response, previous: Enforcement, json: bool) -> (r: Result<
    Output<'static>,
    Error,
>)
    ensures
        match *applied {
            Response::Error { message, class } => reports_failure(r, message@, class.name(), json),
            Response::Enforcement(e) => r matches Ok(o) && {
                &&& if json {
                    o.stdout == Stdout::Json(JsonDoc::Enforcement(e))
                } else {
                    o.stdout matches Stdout::Text(s) && s@ == text::trimmed_end(
                        render::enforcement_lines(e.yields(), e),
                    )
                }
                &&& o.stderr@ == warned(relaxes(Some(previous), e))
                &&& o.dispatch == Dispatch::Success
            },
            _ => r matches Err(e) && e@ == wrong_reply("Enforcement"@, *applied),
        },
{
    if applied.is_error() {
        return format_error(applied, json);
    }
    format_enforcement(applied, json, Some(previous))
}

/// What the process says by its exit code: a reported failure, a failing self-test
/// and a rolled back update are failures, and a failure of the command line itself
/// is told apart from them.
pub proof fn law_exit_codes_tell_failures_apart(
    command: Command,
    response: Response,
    json: bool,
    now: Timestamp,
    r: Result<Output, Error>,
)
    requires
        formatted(command, response, json, now, r),
    ensures
        EXIT_DAEMON_ERROR == 2,
        EXIT_CLIENT_ERROR == 3,
        response is Error ==> (r matches Ok(o) && o.dispatch is DaemonError),
        command is Doctor ==> (response matches Response::Doctor(c) ==> (r matches Ok(o) && (
        o.dispatch is Success <==> c.complete()))),
        applied_dispatch(ApplyOutcome::Applied) is Success,
        applied_dispatch(ApplyOutcome::RolledBack) is DaemonError,
        applied_word(ApplyOutcome::Applied) == "applied"@,
        applied_word(ApplyOutcome::RolledBack) == "rolled-back"@,
{
}

/// Reduced protection is never silent: a profile for the host is created with a
/// warning, one for a VM without; and so is a policy that gives full isolation up.
pub proof fn law_reduced_protection_is_warned_of(
    args: ProfileCreateArgs,
    p: Profile,
    json: bool,
    now: Timestamp,
    r: Result<Output, Error>,
    previous: Enforcement,
    e: Enforcement,
)
    requires
        formatted(
            Command::Profile(ProfileCommand::Create(args)),
            Response::Profile(p),
            json,
            now,
            r,
        ),
    ensures
        r matches Ok(o) && (args.isolation is Host ==> text::mentions(
            o.stderr@,
            "reduced protection"@,
        )) && (args.isolation is Vm ==> o.stderr@.len() == 0),
        previous.require_vm_isolation && previous.require_gateway && (!e.require_vm_isolation
            || !e.require_gateway) <==> relaxes(Some(previous), e),
        text::mentions(warned(true), "reduced protection"@),
        warned(false).len() == 0,
        !relaxes(None, e),
{
    reveal_strlit("reduced protection: the site runs on your real OS, only VM isolation is dropped");
    reveal_strlit("reduced protection");
    assert(warned(true).subrange(0, 18) =~= "reduced protection"@);
    assert(text::stands_at(warned(true), "reduced protection"@, 0));
}

} // verus!
