//! Rendering for the terminal: values to text.
//!
//! The badge text always is the label of the protection status.

use crate::config::{Enforcement, IsolationLevel};
use crate::health::DiagnosticItem;
use crate::preflight::{CheckId, CheckOutcome, ConnectivityChecklist, ProtectionStatus};
use crate::profile::{size_text, Profile};
use crate::protocol::StatusDto;
use crate::session::{SessionState, SessionSummary};
use crate::text;
use crate::time::{Age, Timestamp};
use vstd::prelude::*;

verus! {

/// The placeholder for an absent value.
pub const ABSENT: &'static str = "-";

/// A compact age: seconds, minutes, hours and minutes, or days and hours.
pub open spec fn age_text(secs: nat) -> Seq<char> {
    if secs < 60 {
        text::dec(secs) + "s"@
    } else if secs < 3600 {
        text::dec(secs / 60) + "m"@
    } else if secs < 86400 {
        text::dec(secs / 3600) + "h "@ + text::dec(secs / 60 % 60) + "m"@
    } else {
        text::dec(secs / 86400) + "d "@ + text::dec(secs / 3600 % 24) + "h"@
    }
}

/// Renders an age; a negative one counts as none.
#[must_use]
pub fn human_age(age: Age) -> (r: String)
    ensures
        r@ == age_text(age.shown_seconds()),
{
    let secs: u64 = age.clamped();
    if secs < 60 {
        return text::cat2(text::decimal(secs).as_str(), "s");
    }
    let mins: u64 = secs / 60;
    if mins < 60 {
        return text::cat2(text::decimal(mins).as_str(), "m");
    }
    let hours: u64 = mins / 60;
    assert(hours == secs / 3600);
    if hours < 24 {
        return text::cat4(
            text::decimal(hours).as_str(),
            "h ",
            text::decimal(mins % 60).as_str(),
            "m",
        );
    }
    let days: u64 = hours / 24;
    assert(days == secs / 86400);
    text::cat4(text::decimal(days).as_str(), "d ", text::decimal(hours % 24).as_str(), "h")
}

/// When a profile last ran.
pub open spec fn last_run_text(last: Option<Timestamp>, now: Timestamp) -> Seq<char> {
    match last {
        Some(at) => age_text((Age { seconds: now.span_from(at) }).shown_seconds()) + " ago"@,
        None => "never"@,
    }
}

fn last_run(last: Option<Timestamp>, now: Timestamp) -> (r: String)
    ensures
        r@ == last_run_text(last, now),
{
    match last {
        Some(at) => text::cat(human_age(now.since(&at)), " ago"),
        None => "never".to_owned(),
    }
}

/// Whether a session holds the profile.
pub open spec fn gateway_text(locked: bool) -> Seq<char> {
    if locked {
        "running"@
    } else {
        "idle"@
    }
}

fn gateway_state(profile: &Profile) -> (r: &'static str)
    ensures
        r@ == gateway_text(profile.locked),
{
    if profile.locked {
        "running"
    } else {
        "idle"
    }
}

/// The short name of an isolation level.
pub open spec fn isolation_short(level: IsolationLevel) -> Seq<char> {
    if level == IsolationLevel::FullVm {
        "vm"@
    } else {
        "host"@
    }
}

fn isolation_cell(level: IsolationLevel) -> (r: &'static str)
    ensures
        r@ == isolation_short(level),
{
    if level.is_full() {
        "vm"
    } else {
        "host"
    }
}

/// How old a profile is.
pub open spec fn profile_age(p: Profile, now: Timestamp) -> Seq<char> {
    age_text((Age { seconds: now.span_from(p.created_at) }).shown_seconds())
}

/// The cells of a profile.
pub open spec fn profile_cells(p: Profile, now: Timestamp) -> Seq<Seq<char>> {
    seq![
        p.spec.name@,
        p.spec.kind.name(),
        p.spec.network.mode.name(),
        isolation_short(p.spec.isolation),
        p.spec.protection.name(),
        gateway_text(p.locked),
        ABSENT@,
        profile_age(p, now),
        size_text(p.storage.bytes as nat),
        last_run_text(p.last_launched, now),
    ]
}

/// The headers of the profiles table.
pub open spec fn profile_headers() -> Seq<Seq<char>> {
    seq![
        "NAME"@,
        "TYPE"@,
        "NET"@,
        "ISOLATION"@,
        "PROTECTION"@,
        "GATEWAY"@,
        "PUBLIC IP"@,
        "AGE"@,
        "SIZE"@,
        "LAST RUN"@,
    ]
}

/// The cells of a profile.
#[must_use]
pub fn profile_row(p: &Profile, now: Timestamp) -> (r: Vec<String>)
    ensures
        text::texts(r@) == profile_cells(*p, now),
{
    let r: Vec<String> =
        vec![
        p.spec.name.clone(),
        p.spec.kind.label().to_owned(),
        p.spec.network.mode.label().to_owned(),
        isolation_cell(p.spec.isolation).to_owned(),
        p.spec.protection.label().to_owned(),
        gateway_state(p).to_owned(),
        ABSENT.to_owned(),
        human_age(p.age(now)),
        p.storage.human(),
        last_run(p.last_launched, now),
    ];
    assert(text::texts(r@) =~= profile_cells(*p, now));
    r
}

/// The larger of two numbers.
pub open spec fn larger(a: nat, b: nat) -> nat {
    if a < b {
        b
    } else {
        a
    }
}

/// The width of a column: that of its widest cell.
pub open spec fn column_width(rows: Seq<Seq<Seq<char>>>, i: int) -> nat
    decreases rows.len(),
{
    if rows.len() == 0 {
        0
    } else {
        larger(column_width(rows.drop_last(), i), rows.last()[i].len())
    }
}

/// A line of the table from column `i` on: each cell but the last is filled up to
/// its column's width, and two spaces follow it.
pub open spec fn line_from(cells: Seq<Seq<char>>, widths: Seq<nat>, i: int) -> Seq<char>
    decreases cells.len() - i,
{
    if i < 0 || i >= cells.len() {
        "\n"@
    } else if i == cells.len() - 1 {
        cells[i] + "\n"@
    } else {
        text::padded(cells[i], widths[i]) + "  "@ + line_from(cells, widths, i + 1)
    }
}

/// The lines of the table.
pub open spec fn lines(rows: Seq<Seq<Seq<char>>>, widths: Seq<nat>) -> Seq<char>
    decreases rows.len(),
{
    if rows.len() == 0 {
        Seq::empty()
    } else {
        lines(rows.drop_last(), widths) + line_from(rows.last(), widths, 0)
    }
}

/// The widths of the columns of a table with `n` columns.
pub open spec fn column_widths(rows: Seq<Seq<Seq<char>>>, n: nat) -> Seq<nat> {
    Seq::new(n, |i: int| column_width(rows, i))
}

/// A table with aligned columns: the headers, then the rows.
pub open spec fn table_text(headers: Seq<Seq<char>>, rows: Seq<Seq<Seq<char>>>) -> Seq<char> {
    let all = seq![headers] + rows;
    text::trimmed_end(lines(all, column_widths(all, headers.len())))
}

/// The texts of rows of cells.
pub open spec fn cell_texts(rows: Seq<Vec<String>>) -> Seq<Seq<Seq<char>>> {
    rows.map_values(|r: Vec<String>| text::texts(r@))
}

proof fn lemma_width_bounds(rows: Seq<Seq<Seq<char>>>, i: int, k: int)
    requires
        0 <= k < rows.len(),
    ensures
        rows[k][i].len() <= column_width(rows, i),
    decreases rows.len(),
{
    if k < rows.len() - 1 {
        assert(rows.drop_last()[k] == rows[k]);
        lemma_width_bounds(rows.drop_last(), i, k);
    }
}

fn line(cells: &Vec<String>, widths: &Vec<usize>, i: usize) -> (r: String)
    requires
        cells@.len() == widths@.len(),
        i <= cells@.len(),
    ensures
        r@ == line_from(
            text::texts(cells@),
            widths@.map_values(|w: usize| w as nat),
            i as int,
        ),
    decreases cells@.len() - i,
{
    if i == cells.len() {
        return "\n".to_owned();
    }
    if i == cells.len() - 1 {
        return text::cat2(cells[i].as_str(), "\n");
    }
    let cell = text::pad(cells[i].as_str(), widths[i]);
    let rest = line(cells, widths, i + 1);
    text::cat3(cell.as_str(), "  ", rest.as_str())
}

/// Renders a table whose first row is the headers.
fn render_table(rows: &Vec<Vec<String>>, n: usize) -> (r: String)
    requires
        rows@.len() > 0,
        forall|k: int| 0 <= k < rows@.len() ==> (#[trigger] rows@[k])@.len() == n,
    ensures
        r@ == text::trimmed_end(
            lines(cell_texts(rows@), column_widths(cell_texts(rows@), n as nat)),
        ),
{
    let ghost all = cell_texts(rows@);
    let mut widths: Vec<usize> = Vec::new();
    let mut i: usize = 0;
    while i < n
        invariant
            all == cell_texts(rows@),
            forall|k: int| 0 <= k < rows@.len() ==> (#[trigger] rows@[k])@.len() == n,
            i <= n,
            widths@.len() == i,
            forall|j: int| 0 <= j < i ==> (#[trigger] widths@[j]) as nat == column_width(all, j),
        decreases n - i,
    {
        let mut w: usize = 0;
        let mut k: usize = 0;
        while k < rows.len()
            invariant
                all == cell_texts(rows@),
                forall|k: int| 0 <= k < rows@.len() ==> (#[trigger] rows@[k])@.len() == n,
                i < n,
                k <= rows@.len(),
                w as nat == column_width(all.take(k as int), i as int),
            decreases rows@.len() - k,
        {
            assert(rows@[k as int]@.len() == n);
            let len: usize = rows[k][i].as_str().unicode_len();
            assert(all[k as int][i as int] == rows@[k as int]@[i as int]@);
            if w < len {
                w = len;
            }
            k += 1;
            proof {
                let part = all.take(k as int);
                assert(part.drop_last() =~= all.take(k - 1));
                assert(part.last() == all[k - 1]);
            }
        }
        assert(all.take(k as int) =~= all);
        widths.push(w);
        i += 1;
    }
    let ghost want = column_widths(all, n as nat);
    assert(widths@.map_values(|w: usize| w as nat) =~= want);
    let mut out = String::new();
    let mut k: usize = 0;
    assert(out@ =~= lines(all.take(0), want));
    while k < rows.len()
        invariant
            all == cell_texts(rows@),
            forall|k: int| 0 <= k < rows@.len() ==> (#[trigger] rows@[k])@.len() == n,
            widths@.len() == n,
            want == widths@.map_values(|w: usize| w as nat),
            k <= rows@.len(),
            out@ == lines(all.take(k as int), want),
        decreases rows@.len() - k,
    {
        assert(rows@[k as int]@.len() == n);
        let text = line(&rows[k], &widths, 0);
        out.append(text.as_str());
        k += 1;
        proof {
            let part = all.take(k as int);
            assert(part.drop_last() =~= all.take(k - 1));
            assert(part.last() == text::texts(rows@[k - 1]@));
        }
    }
    assert(all.take(k as int) =~= all);
    text::trim_end(out.as_str())
}

/// The rows of the profiles table.
pub open spec fn profile_rows(profiles: Seq<Profile>, now: Timestamp) -> Seq<Seq<Seq<char>>> {
    profiles.map_values(|p: Profile| profile_cells(p, now))
}

/// Renders profiles as a table; no profiles as a line of their own.
#[must_use]
pub fn profiles_table(profiles: &Vec<Profile>, now: Timestamp) -> (r: String)
    ensures
        r@ == if profiles@.len() == 0 {
            "no profiles"@
        } else {
            table_text(profile_headers(), profile_rows(profiles@, now))
        },
{
    if profiles.len() == 0 {
        return "no profiles".to_owned();
    }
    let headers: Vec<String> =
        vec![
        "NAME".to_owned(),
        "TYPE".to_owned(),
        "NET".to_owned(),
        "ISOLATION".to_owned(),
        "PROTECTION".to_owned(),
        "GATEWAY".to_owned(),
        "PUBLIC IP".to_owned(),
        "AGE".to_owned(),
        "SIZE".to_owned(),
        "LAST RUN".to_owned(),
    ];
    assert(text::texts(headers@) =~= profile_headers());
    let mut rows: Vec<Vec<String>> = Vec::new();
    rows.push(headers);
    let mut i: usize = 0;
    let ghost want = profile_rows(profiles@, now);
    while i < profiles.len()
        invariant
            want == profile_rows(profiles@, now),
            i <= profiles@.len(),
            rows@.len() == i + 1,
            text::texts(rows@[0]@) == profile_headers(),
            forall|k: int| 0 <= k < i ==> text::texts((#[trigger] rows@[k + 1])@) == want[k],
            forall|k: int| 0 <= k < rows@.len() ==> (#[trigger] rows@[k])@.len() == 10,
        decreases profiles@.len() - i,
    {
        let row = profile_row(&profiles[i], now);
        assert(text::texts(row@).len() == 10);
        assert(row@.len() == 10);
        rows.push(row);
        i += 1;
        assert forall|k: int| 0 <= k < i implies text::texts((#[trigger] rows@[k + 1])@)
            == want[k] by {
            if k < i - 1 {
                assert(rows@[k + 1] == rows@.drop_last()[k + 1]);
            }
        }
    }
    assert(cell_texts(rows@) =~= seq![profile_headers()] + want) by {
        assert forall|k: int| 0 <= k < rows@.len() implies #[trigger] cell_texts(rows@)[k] == (seq![
            profile_headers(),
        ] + want)[k] by {
            if k > 0 {
                assert(text::texts(rows@[(k - 1) + 1]@) == want[k - 1]);
            }
        }
    }
    render_table(&rows, 10)
}

/// One `key value` line.
pub open spec fn field(key: Seq<char>, value: Seq<char>) -> Seq<char> {
    text::padded(key, 14) + value + "\n"@
}

fn push_field(out: String, key: &str, value: &str) -> (r: String)
    ensures
        r@ == out@ + field(key@, value@),
{
    let line = text::cat3(text::pad(key, 14).as_str(), value, "\n");
    text::cat(out, line.as_str())
}

/// A profile in detail.
pub open spec fn detail_text(p: Profile, now: Timestamp) -> Seq<char> {
    text::trimmed_end(
        Seq::<char>::empty() + field("id"@, p.id.shown()) + field("name"@, p.spec.name@) + field(
            "type"@,
            p.spec.kind.name(),
        ) + field("net"@, p.spec.network.mode.name()) + field(
            "isolation"@,
            p.spec.isolation.name(),
        ) + field("protection"@, p.spec.protection.name()) + field(
            "dns"@,
            p.spec.network.dns.mode.identifier(),
        ) + field("ipv6"@, p.spec.network.ipv6.identifier()) + field(
            "gateway"@,
            gateway_text(p.locked),
        ) + field("age"@, profile_age(p, now)) + field("size"@, size_text(p.storage.bytes as nat))
            + field("created"@, p.created_at.shown()) + field(
            "last run"@,
            last_run_text(p.last_launched, now),
        ),
    )
}

/// Renders a profile in detail.
#[must_use]
pub fn profile_detail(p: &Profile, now: Timestamp) -> (r: String)
    ensures
        r@ == detail_text(*p, now),
{
    let out = String::new();
    assert(out@ =~= Seq::<char>::empty());
    let out = push_field(out, "id", p.id.text().as_str());
    let out = push_field(out, "name", p.spec.name.as_str());
    let out = push_field(out, "type", p.spec.kind.label());
    let out = push_field(out, "net", p.spec.network.mode.label());
    let out = push_field(out, "isolation", p.spec.isolation.label());
    let out = push_field(out, "protection", p.spec.protection.label());
    let out = push_field(out, "dns", p.spec.network.dns.mode.debug_name());
    let out = push_field(out, "ipv6", p.spec.network.ipv6.debug_name());
    let out = push_field(out, "gateway", gateway_state(p));
    let out = push_field(out, "age", human_age(p.age(now)).as_str());
    let out = push_field(out, "size", p.storage.human().as_str());
    let out = push_field(out, "created", p.created_at.to_rfc3339().as_str());
    let out = push_field(out, "last run", last_run(p.last_launched, now).as_str());
    text::trim_end(out.as_str())
}

/// The name of a state in a table: its identifier in lower case.
pub open spec fn state_cell(state: SessionState) -> Seq<char> {
    match state {
        SessionState::GatewayStarting => "gatewaystarting"@,
        _ => state.token(),
    }
}

/// The cells of a session.
pub open spec fn session_cells(s: SessionSummary) -> Seq<Seq<char>> {
    seq![s.id.shown(), s.profile.shown(), state_cell(s.state), s.protection.name()]
}

/// The cells of a session.
#[must_use]
pub fn session_row(s: &SessionSummary) -> (r: Vec<String>)
    ensures
        text::texts(r@) == session_cells(*s),
{
    let state = match s.state {
        SessionState::GatewayStarting => "gatewaystarting",
        other => other.as_str(),
    };
    let r: Vec<String> =
        vec![
        s.id.text(),
        s.profile.text(),
        state.to_owned(),
        s.protection.label().to_owned(),
    ];
    assert(text::texts(r@) =~= session_cells(*s));
    r
}

/// The rows of the sessions table.
pub open spec fn session_rows(sessions: Seq<SessionSummary>) -> Seq<Seq<Seq<char>>> {
    sessions.map_values(|s: SessionSummary| session_cells(s))
}

/// The headers of the sessions table.
pub open spec fn session_headers() -> Seq<Seq<char>> {
    seq!["ID"@, "PROFILE"@, "STATE"@, "PROTECTION"@]
}

/// Renders sessions as a table; no sessions as a line of their own.
#[must_use]
pub fn sessions_table(sessions: &Vec<SessionSummary>) -> (r: String)
    ensures
        r@ == if sessions@.len() == 0 {
            "no active sessions"@
        } else {
            table_text(session_headers(), session_rows(sessions@))
        },
{
    if sessions.len() == 0 {
        return "no active sessions".to_owned();
    }
    let headers: Vec<String> =
        vec![
        "ID".to_owned(),
        "PROFILE".to_owned(),
        "STATE".to_owned(),
        "PROTECTION".to_owned(),
    ];
    assert(text::texts(headers@) =~= session_headers());
    let mut rows: Vec<Vec<String>> = Vec::new();
    rows.push(headers);
    let mut i: usize = 0;
    let ghost want = session_rows(sessions@);
    while i < sessions.len()
        invariant
            want == session_rows(sessions@),
            i <= sessions@.len(),
            rows@.len() == i + 1,
            text::texts(rows@[0]@) == session_headers(),
            forall|k: int| 0 <= k < i ==> text::texts((#[trigger] rows@[k + 1])@) == want[k],
            forall|k: int| 0 <= k < rows@.len() ==> (#[trigger] rows@[k])@.len() == 4,
        decreases sessions@.len() - i,
    {
        let row = session_row(&sessions[i]);
        assert(text::texts(row@).len() == 4);
        assert(row@.len() == 4);
        rows.push(row);
        i += 1;
        assert forall|k: int| 0 <= k < i implies text::texts((#[trigger] rows@[k + 1])@)
            == want[k] by {
            if k < i - 1 {
                assert(rows@[k + 1] == rows@.drop_last()[k + 1]);
            }
        }
    }
    assert(cell_texts(rows@) =~= seq![session_headers()] + want) by {
        assert forall|k: int| 0 <= k < rows@.len() implies #[trigger] cell_texts(rows@)[k] == (seq![
            session_headers(),
        ] + want)[k] by {
            if k > 0 {
                assert(text::texts(rows@[(k - 1) + 1]@) == want[k - 1]);
            }
        }
    }
    render_table(&rows, 4)
}

/// A text between square brackets.
pub open spec fn badge(label: Seq<char>) -> Seq<char> {
    "["@ + label + "]"@
}

/// The badge of a protection status.
#[must_use]
pub fn protection_badge(status: ProtectionStatus) -> (r: String)
    ensures
        r@ == badge(status.name()),
{
    text::cat3("[", status.label(), "]")
}

/// The badge of an isolation level.
#[must_use]
pub fn isolation_badge(level: IsolationLevel) -> (r: String)
    ensures
        r@ == badge(level.name()),
{
    text::cat3("[", level.label(), "]")
}

/// The word for an outcome.
pub open spec fn outcome_word(outcome: CheckOutcome) -> Seq<char> {
    match outcome {
        CheckOutcome::Pass => "pass"@,
        CheckOutcome::Fail => "FAIL"@,
        CheckOutcome::Skipped => "skip"@,
    }
}

/// The line of a check.
pub open spec fn check_line(c: ConnectivityChecklist, id: CheckId) -> Seq<char> {
    match c.reported(id) {
        Some(r) => "  ["@ + outcome_word(r.outcome) + "] "@ + id.name() + ": "@ + r.detail@ + "\n"@,
        None => "  ["@ + "FAIL"@ + "] "@ + id.name() + ": "@ + "(no report)"@ + "\n"@,
    }
}

fn check_line_of(c: &ConnectivityChecklist, id: CheckId) -> (r: String)
    ensures
        r@ == check_line(*c, id),
{
    match c.report(id) {
        Some(report) => {
            let word = match report.outcome {
                CheckOutcome::Pass => "pass",
                CheckOutcome::Fail => "FAIL",
                CheckOutcome::Skipped => "skip",
            };
            let head = text::cat5("  [", word, "] ", id.as_str(), ": ");
            text::cat(text::cat(head, report.detail.as_str()), "\n")
        },
        None => {
            let head = text::cat5("  [", "FAIL", "] ", id.as_str(), ": ");
            text::cat(text::cat(head, "(no report)"), "\n")
        },
    }
}

/// The lines of checks.
pub open spec fn check_lines(c: ConnectivityChecklist, ids: Seq<CheckId>) -> Seq<char>
    decreases ids.len(),
{
    if ids.len() == 0 {
        Seq::empty()
    } else {
        check_lines(c, ids.drop_last()) + check_line(c, ids.last())
    }
}

/// The names of checks, a space before each.
pub open spec fn listed(ids: Seq<CheckId>) -> Seq<char>
    decreases ids.len(),
{
    if ids.len() == 0 {
        Seq::empty()
    } else {
        listed(ids.drop_last()) + " "@ + ids.last().name()
    }
}

/// The report of a checklist: the badge, a line per check, whether the exit IP
/// differs from the host's, and the checks that have not passed.
pub open spec fn checklist_text(c: ConnectivityChecklist) -> Seq<char> {
    let head = "protection: "@ + badge(c.aggregate().name()) + "\n"@ + check_lines(
        c,
        CheckId::every(),
    );
    let ip = match c.observed_ip {
        Some(o) => head + "  observed exit IP differs from host: "@ + (if o.differs_from_host {
            "yes"@
        } else {
            "NO"@
        }) + "\n"@,
        None => head,
    };
    text::trimmed_end(
        if c.failing().len() == 0 {
            ip + "all checks passed\n"@
        } else {
            ip + "failing checks:"@ + listed(c.failing()) + "\n"@
        },
    )
}

/// Renders a checklist with its badge.
#[must_use]
pub fn checklist_report(checklist: &ConnectivityChecklist) -> (r: String)
    ensures
        r@ == checklist_text(*checklist),
{
    let mut out = text::cat3("protection: ", protection_badge(checklist.status()).as_str(), "\n");
    let ghost head = out@;
    let ids = CheckId::all();
    let mut i: usize = 0;
    assert(out@ =~= head + check_lines(*checklist, ids@.take(0)));
    while i < 6
        invariant
            i <= 6,
            ids@ == CheckId::every(),
            out@ == head + check_lines(*checklist, ids@.take(i as int)),
        decreases 6 - i,
    {
        let line = check_line_of(checklist, ids[i]);
        out.append(line.as_str());
        i += 1;
        proof {
            let part = ids@.take(i as int);
            assert(part.drop_last() =~= ids@.take(i - 1));
            assert(part.last() == ids@[i - 1]);
            assert(out@ =~= head + (check_lines(*checklist, part.drop_last()) + line@));
        }
    }
    assert(ids@.take(6) =~= ids@);
    if let Some(o) = &checklist.observed_ip {
        out.append("  observed exit IP differs from host: ");
        if o.differs_from_host {
            out.append("yes");
        } else {
            out.append("NO");
        }
        out.append("\n");
    }
    let failures = checklist.failures();
    if failures.len() == 0 {
        out.append("all checks passed\n");
    } else {
        out.append("failing checks:");
        let ghost before = out@;
        let mut k: usize = 0;
        assert(out@ =~= before + listed(failures@.take(0)));
        while k < failures.len()
            invariant
                k <= failures@.len(),
                out@ == before + listed(failures@.take(k as int)),
            decreases failures@.len() - k,
        {
            let name = failures[k].as_str();
            out.append(" ");
            out.append(name);
            k += 1;
            proof {
                let part = failures@.take(k as int);
                assert(part.drop_last() =~= failures@.take(k - 1));
                assert(out@ =~= before + (listed(part.drop_last()) + " "@ + name@));
            }
        }
        assert(failures@.take(k as int) =~= failures@);
        out.append("\n");
    }
    text::trim_end(out.as_str())
}

/// The headers of the diagnostics table.
pub open spec fn item_headers() -> Seq<Seq<char>> {
    seq!["SUBSYSTEM"@, "LEVEL"@, "DETAIL"@]
}

/// The cells of a diagnostics item.
pub open spec fn item_cells(i: DiagnosticItem) -> Seq<Seq<char>> {
    seq![i.key@, i.level.name(), i.detail@]
}

/// The rows of the diagnostics table.
pub open spec fn item_rows(items: Seq<DiagnosticItem>) -> Seq<Seq<Seq<char>>> {
    items.map_values(|i: DiagnosticItem| item_cells(i))
}

/// The diagnostics panel: the checklist, the public IP and the items.
pub open spec fn diagnostics_text(c: ConnectivityChecklist, items: Seq<DiagnosticItem>) -> Seq<char> {
    let head = checklist_text(c) + "\n"@ + "\npublic IP (from session): "@ + (match c.observed_ip {
        Some(o) => o.ip@,
        None => ABSENT@,
    }) + "\n"@;
    text::trimmed_end(
        if items.len() == 0 {
            head + "no diagnostics items"@
        } else {
            head + "diagnostics:\n"@ + table_text(item_headers(), item_rows(items))
        },
    )
}

fn items_table(items: &Vec<DiagnosticItem>) -> (r: String)
    ensures
        r@ == table_text(item_headers(), item_rows(items@)),
{
    let headers: Vec<String> =
        vec!["SUBSYSTEM".to_owned(), "LEVEL".to_owned(), "DETAIL".to_owned()];
    assert(text::texts(headers@) =~= item_headers());
    let mut rows: Vec<Vec<String>> = Vec::new();
    rows.push(headers);
    let mut i: usize = 0;
    let ghost want = item_rows(items@);
    while i < items.len()
        invariant
            want == item_rows(items@),
            i <= items@.len(),
            rows@.len() == i + 1,
            text::texts(rows@[0]@) == item_headers(),
            forall|k: int| 0 <= k < i ==> text::texts((#[trigger] rows@[k + 1])@) == want[k],
            forall|k: int| 0 <= k < rows@.len() ==> (#[trigger] rows@[k])@.len() == 3,
        decreases items@.len() - i,
    {
        let item = &items[i];
        let row: Vec<String> =
            vec![item.key.clone(), item.level.label().to_owned(), item.detail.clone()];
        assert(text::texts(row@) =~= item_cells(*item));
        rows.push(row);
        i += 1;
        assert forall|k: int| 0 <= k < i implies text::texts((#[trigger] rows@[k + 1])@)
            == want[k] by {
            if k < i - 1 {
                assert(rows@[k + 1] == rows@.drop_last()[k + 1]);
            }
        }
    }
    assert(cell_texts(rows@) =~= seq![item_headers()] + want) by {
        assert forall|k: int| 0 <= k < rows@.len() implies #[trigger] cell_texts(rows@)[k] == (seq![
            item_headers(),
        ] + want)[k] by {
            if k > 0 {
                assert(text::texts(rows@[(k - 1) + 1]@) == want[k - 1]);
            }
        }
    }
    render_table(&rows, 3)
}

/// Renders the diagnostics panel.
#[must_use]
pub fn diagnostics_report(checklist: &ConnectivityChecklist, items: &Vec<DiagnosticItem>) -> (r:
    String)
    ensures
        r@ == diagnostics_text(*checklist, items@),
{
    let mut out = checklist_report(checklist);
    out.append("\n");
    out.append("\npublic IP (from session): ");
    match &checklist.observed_ip {
        Some(o) => {
            out.append(o.ip.as_str());
        },
        None => {
            out.append(ABSENT);
        },
    }
    out.append("\n");
    if items.len() == 0 {
        out.append("no diagnostics items");
    } else {
        out.append("diagnostics:\n");
        out.append(items_table(items).as_str());
    }
    text::trim_end(out.as_str())
}

/// The report of the self-test.
pub open spec fn doctor_text(c: ConnectivityChecklist) -> Seq<char> {
    text::trimmed_end("doctor self-test\n"@ + checklist_text(c))
}

/// Renders the self-test.
#[must_use]
pub fn doctor_report(checklist: &ConnectivityChecklist) -> (r: String)
    ensures
        r@ == doctor_text(*checklist),
{
    let out = text::cat2("doctor self-test\n", checklist_report(checklist).as_str());
    text::trim_end(out.as_str())
}

/// `on` or `off`.
pub open spec fn on_off_text(v: bool) -> Seq<char> {
    if v {
        "on"@
    } else {
        "off"@
    }
}

fn on_off(v: bool) -> (r: &'static str)
    ensures
        r@ == on_off_text(v),
{
    if v {
        "on"
    } else {
        "off"
    }
}

/// The lines of a policy.
pub open spec fn enforcement_lines(level: IsolationLevel, e: Enforcement) -> Seq<char> {
    "isolation      "@ + badge(level.name()) + "\n"@ + "vm-isolation   "@ + on_off_text(
        e.require_vm_isolation,
    ) + "\n"@ + "gateway        "@ + on_off_text(e.require_gateway) + "\n"@ + "host-browser   "@
        + on_off_text(e.allow_host_browser) + "\n"@
}

fn policy_lines(level: IsolationLevel, e: &Enforcement) -> (r: String)
    ensures
        r@ == enforcement_lines(level, *e),
{
    let mut out = text::cat3("isolation      ", isolation_badge(level).as_str(), "\n");
    out.append("vm-isolation   ");
    out.append(on_off(e.require_vm_isolation));
    out.append("\n");
    out.append("gateway        ");
    out.append(on_off(e.require_gateway));
    out.append("\n");
    out.append("host-browser   ");
    out.append(on_off(e.allow_host_browser));
    out.append("\n");
    out
}

/// Renders a policy and the isolation that it yields.
#[must_use]
pub fn enforcement_report(e: &Enforcement) -> (r: String)
    ensures
        r@ == text::trimmed_end(enforcement_lines(e.yields(), *e)),
{
    text::trim_end(policy_lines(e.isolation_level(), e).as_str())
}

/// Whether and where a host browser is.
pub open spec fn host_browser_text(available: bool, path: Option<String>) -> Seq<char> {
    if !available {
        "not found"@
    } else {
        match path {
            Some(p) => "available ("@ + p@ + ")"@,
            None => "available"@,
        }
    }
}

/// The note on reduced protection.
pub const REDUCED_NOTE: &'static str =
    "note           reduced protection: the site runs on your real OS, only VM isolation is dropped\n";

/// The status.
pub open spec fn status_text(s: StatusDto) -> Seq<char> {
    let head = "version        "@ + s.version@ + "\n"@ + "platform       "@ + s.platform@ + "\n"@
        + enforcement_lines(s.isolation_level, s.enforcement) + "host browser   "@
        + host_browser_text(s.host_browser_available, s.host_browser_path) + "\n"@;
    text::trimmed_end(
        if s.isolation_level == IsolationLevel::FullVm {
            head
        } else {
            head + REDUCED_NOTE@
        },
    )
}

/// Renders the status. Reduced isolation is stated plainly.
#[must_use]
pub fn status_report(status: &StatusDto) -> (r: String)
    ensures
        r@ == status_text(*status),
{
    let mut out = text::cat3("version        ", status.version.as_str(), "\n");
    out.append("platform       ");
    out.append(status.platform.as_str());
    out.append("\n");
    out.append(policy_lines(status.isolation_level, &status.enforcement).as_str());
    let host = if !status.host_browser_available {
        "not found".to_owned()
    } else {
        match &status.host_browser_path {
            Some(p) => text::cat3("available (", p.as_str(), ")"),
            None => "available".to_owned(),
        }
    };
    out.append("host browser   ");
    out.append(host.as_str());
    out.append("\n");
    if !status.isolation_level.is_full() {
        out.append(REDUCED_NOTE);
    }
    text::trim_end(out.as_str())
}

/// Every cell of a table fits its column, so the columns line up.
pub proof fn law_cells_fit_their_columns(rows: Seq<Seq<Seq<char>>>, n: nat, k: int, i: int)
    requires
        0 <= k < rows.len(),
        0 <= i < n,
    ensures
        rows[k][i].len() <= column_widths(rows, n)[i],
        text::padded(rows[k][i], column_widths(rows, n)[i]).len() == column_widths(rows, n)[i],
{
    lemma_width_bounds(rows, i, k);
}

/// Under each heading of the table of profiles stands what it says.
pub proof fn law_profile_columns_hold_what_they_say(p: Profile, now: Timestamp)
    ensures
        ({
            let h = profile_headers();
            let c = profile_cells(p, now);
            &&& h.len() == 10 && c.len() == 10
            &&& h[0] == "NAME"@ && c[0] == p.spec.name@
            &&& h[1] == "TYPE"@ && (p.spec.kind is Ephemeral ==> c[1] == "ephemeral"@) && (
            p.spec.kind is Persistent ==> c[1] == "persistent"@)
            &&& h[2] == "NET"@ && (p.spec.network.mode is Tor ==> c[2] == "Tor"@) && (
            p.spec.network.mode is Vpn ==> c[2] == "VPN"@) && (p.spec.network.mode is Proxy ==> c[2]
                == "Proxy"@)
            &&& h[3] == "ISOLATION"@ && (p.spec.isolation is FullVm ==> c[3] == "vm"@) && (
            p.spec.isolation is HostProcess ==> c[3] == "host"@)
            &&& h[4] == "PROTECTION"@ && (p.spec.protection is Balanced ==> c[4] == "Balanced"@) && (
            p.spec.protection is Strict ==> c[4] == "Strict"@)
            &&& h[5] == "GATEWAY"@ && (p.locked ==> c[5] == "running"@) && (!p.locked ==> c[5]
                == "idle"@)
            &&& h[6] == "PUBLIC IP"@ && c[6] == "-"@
            &&& h[7] == "AGE"@ && c[7] == age_text(
                (Age { seconds: now.span_from(p.created_at) }).shown_seconds(),
            )
            &&& h[8] == "SIZE"@ && c[8] == size_text(p.storage.bytes as nat)
            &&& h[9] == "LAST RUN"@ && (p.last_launched is None ==> c[9] == "never"@) && (
            p.last_launched matches Some(at) ==> c[9] == age_text(
                (Age { seconds: now.span_from(at) }).shown_seconds(),
            ) + " ago"@)
        }),
{
}

/// Under each heading of the table of sessions stands what it says.
pub proof fn law_session_columns_hold_what_they_say(s: SessionSummary)
    ensures
        ({
            let h = session_headers();
            let c = session_cells(s);
            &&& h.len() == 4 && c.len() == 4
            &&& h[0] == "ID"@ && c[0] == s.id.shown()
            &&& h[1] == "PROFILE"@ && c[1] == s.profile.shown()
            &&& h[2] == "STATE"@ && (s.state is Browsing ==> c[2] == "browsing"@) && (
            s.state is Failed ==> c[2] == "failed"@) && (s.state is Destroyed ==> c[2]
                == "destroyed"@) && (s.state is GatewayStarting ==> c[2] == "gatewaystarting"@)
            &&& h[3] == "PROTECTION"@ && (s.protection is Active ==> c[3] == "protection active"@)
                && (s.protection is Unprotected ==> c[3] == "no protection"@)
        }),
{
}

/// An age is shown in its two largest units: so many days and hours, hours and
/// minutes, minutes, or seconds.
pub proof fn law_ages_show_their_largest_units(d: nat, h: nat, m: nat, s: nat)
    requires
        h < 24,
        m < 60,
        s < 60,
    ensures
        d > 0 ==> age_text(d * 86400 + h * 3600 + m * 60 + s) == text::dec(d) + "d "@ + text::dec(h)
            + "h"@,
        h > 0 ==> age_text(h * 3600 + m * 60 + s) == text::dec(h) + "h "@ + text::dec(m) + "m"@,
        m > 0 ==> age_text(m * 60 + s) == text::dec(m) + "m"@,
        age_text(s) == text::dec(s) + "s"@,
{
    let t = d * 86400 + h * 3600 + m * 60 + s;
    let u = h * 3600 + m * 60 + s;
    assert(u < 86400);
    assert(t / 86400 == d && t % 86400 == u);
    assert(u / 3600 == h && u % 3600 == m * 60 + s);
    assert((m * 60 + s) / 60 == m);
    assert(t / 3600 == d * 24 + h);
    assert((d * 24 + h) % 24 == h);
    assert(u / 60 == h * 60 + m);
    assert((h * 60 + m) % 60 == m);
}

/// The report on a policy shows each of its switches under its own name, and the
/// level that it yields.
pub proof fn law_policy_report_shows_each_switch(level: IsolationLevel, e: Enforcement)
    ensures
        e.require_vm_isolation ==> text::mentions(
            enforcement_lines(level, e),
            "vm-isolation   "@ + "on"@,
        ),
        !e.require_vm_isolation ==> text::mentions(
            enforcement_lines(level, e),
            "vm-isolation   "@ + "off"@,
        ),
        e.require_gateway ==> text::mentions(enforcement_lines(level, e), "gateway        "@ + "on"@),
        !e.require_gateway ==> text::mentions(
            enforcement_lines(level, e),
            "gateway        "@ + "off"@,
        ),
        e.allow_host_browser ==> text::mentions(
            enforcement_lines(level, e),
            "host-browser   "@ + "on"@,
        ),
        !e.allow_host_browser ==> text::mentions(
            enforcement_lines(level, e),
            "host-browser   "@ + "off"@,
        ),
        text::mentions(enforcement_lines(level, e), "["@ + level.name() + "]"@),
{
    let nl = "\n"@;
    let x = on_off_text(e.require_vm_isolation);
    let y = on_off_text(e.require_gateway);
    let z = on_off_text(e.allow_host_browser);
    let b = badge(level.name());
    let s1 = "isolation      "@ + b;
    text::lemma_ends_in("isolation      "@, b, Seq::empty());
    assert("isolation      "@ + b + Seq::<char>::empty() =~= s1);
    assert(b + Seq::<char>::empty() =~= b);
    let s2 = s1 + nl;
    let s3 = s2 + "vm-isolation   "@ + x;
    let s4 = s3 + nl;
    let s5 = s4 + "gateway        "@ + y;
    let s6 = s5 + nl;
    let s7 = s6 + "host-browser   "@ + z;
    text::lemma_still_mentions(s1, nl, b);
    text::lemma_still_mentions(s2, "vm-isolation   "@, b);
    text::lemma_still_mentions(s2 + "vm-isolation   "@, x, b);
    text::lemma_ends_in(s2, "vm-isolation   "@, x);
    let c = "vm-isolation   "@ + x;
    text::lemma_still_mentions(s3, nl, b);
    text::lemma_still_mentions(s3, nl, c);
    text::lemma_still_mentions(s4, "gateway        "@, b);
    text::lemma_still_mentions(s4, "gateway        "@, c);
    text::lemma_still_mentions(s4 + "gateway        "@, y, b);
    text::lemma_still_mentions(s4 + "gateway        "@, y, c);
    text::lemma_ends_in(s4, "gateway        "@, y);
    let d = "gateway        "@ + y;
    text::lemma_still_mentions(s5, nl, b);
    text::lemma_still_mentions(s5, nl, c);
    text::lemma_still_mentions(s5, nl, d);
    text::lemma_still_mentions(s6, "host-browser   "@, b);
    text::lemma_still_mentions(s6, "host-browser   "@, c);
    text::lemma_still_mentions(s6, "host-browser   "@, d);
    text::lemma_still_mentions(s6 + "host-browser   "@, z, b);
    text::lemma_still_mentions(s6 + "host-browser   "@, z, c);
    text::lemma_still_mentions(s6 + "host-browser   "@, z, d);
    text::lemma_ends_in(s6, "host-browser   "@, z);
    let f = "host-browser   "@ + z;
    text::lemma_still_mentions(s7, nl, b);
    text::lemma_still_mentions(s7, nl, c);
    text::lemma_still_mentions(s7, nl, d);
    text::lemma_still_mentions(s7, nl, f);
}

/// Each check of a report is shown with its outcome, its name and what was said of
/// it; a check that nobody reported is shown as failed.
pub proof fn law_checks_are_shown_as_they_came_out(c: ConnectivityChecklist, id: CheckId)
    ensures
        c.reported(id) matches Some(r) ==> {
            &&& r.outcome is Pass ==> check_line(c, id) == "  ["@ + "pass"@ + "] "@ + id.name()
                + ": "@ + r.detail@ + "\n"@
            &&& r.outcome is Fail ==> check_line(c, id) == "  ["@ + "FAIL"@ + "] "@ + id.name()
                + ": "@ + r.detail@ + "\n"@
            &&& r.outcome is Skipped ==> check_line(c, id) == "  ["@ + "skip"@ + "] "@ + id.name()
                + ": "@ + r.detail@ + "\n"@
        },
        c.reported(id) is None ==> check_line(c, id) == "  ["@ + "FAIL"@ + "] "@ + id.name() + ": "@
            + "(no report)"@ + "\n"@,
{
}

/// The status tells where the host browser is, and ends in a note on the reduced
/// protection exactly where the isolation is not that of a VM.
pub proof fn law_status_tells_reduced_protection(s: StatusDto)
    ensures
        ({
            let note = "dropped"@;
            let browser = "host browser   "@ + (match (s.host_browser_available, s.host_browser_path) {
                (true, Some(p)) => "available ("@ + p@ + ")"@,
                (true, None) => "available"@,
                (false, _) => "not found"@,
            });
            &&& s.isolation_level is HostProcess ==> note.is_suffix_of(status_text(s))
            &&& s.isolation_level is FullVm ==> browser.is_suffix_of(status_text(s))
            &&& text::mentions(status_text(s), browser)
        }),
{
    let shown = host_browser_text(s.host_browser_available, s.host_browser_path);
    let front = "version        "@ + s.version@ + "\n"@ + "platform       "@ + s.platform@ + "\n"@
        + enforcement_lines(s.isolation_level, s.enforcement);
    lemma_browser_shown(s.host_browser_available, s.host_browser_path);
    lemma_status_end(front, "host browser   "@, shown);
}

proof fn lemma_browser_shown(available: bool, path: Option<String>)
    ensures
        host_browser_text(available, path).len() > 0,
        !text::is_space(host_browser_text(available, path).last()),
{
    reveal_strlit("not found");
    reveal_strlit("available");
    reveal_strlit(")");
}

/// How a status ends, with the note and without it.
proof fn lemma_status_end(front: Seq<char>, label: Seq<char>, shown: Seq<char>)
    requires
        shown.len() > 0,
        !text::is_space(shown.last()),
    ensures
        (label + shown).is_suffix_of(text::trimmed_end(front + label + shown + "\n"@)),
        text::mentions(text::trimmed_end(front + label + shown + "\n"@), label + shown),
        "dropped"@.is_suffix_of(text::trimmed_end(front + label + shown + "\n"@ + REDUCED_NOTE@)),
        text::mentions(
            text::trimmed_end(front + label + shown + "\n"@ + REDUCED_NOTE@),
            label + shown,
        ),
{
    let line = front + label + shown;
    let head = line + "\n"@;
    let k = (label + shown).len() as int;
    assert(line.last() == shown.last());
    text::lemma_ends_in(front, label, shown);
    lemma_line_end_goes(line);
    assert(line.subrange(line.len() - k, line.len() as int) =~= label + shown);
    let kept = lemma_note_end(head);
    text::lemma_still_mentions(line, "\n"@, label + shown);
    text::lemma_still_mentions(head, kept, label + shown);
}

/// The note without its line end.
proof fn lemma_note_end(head: Seq<char>) -> (kept: Seq<char>)
    ensures
        text::trimmed_end(head + REDUCED_NOTE@) == head + kept,
        "dropped"@.is_suffix_of(head + kept),
{
    reveal_strlit("\n");
    reveal_strlit("dropped");
    reveal_strlit(
        "note           reduced protection: the site runs on your real OS, only VM isolation is dropped\n",
    );
    let n = REDUCED_NOTE@.len() as int;
    let kept = REDUCED_NOTE@.take(n - 1);
    let full = head + kept;
    assert(head + REDUCED_NOTE@ =~= full + "\n"@);
    assert(full.last() == REDUCED_NOTE@[n - 2]);
    lemma_line_end_goes(full);
    assert(full.subrange(full.len() - 7, full.len() as int) =~= "dropped"@);
    kept
}

/// A line loses its end, and no more, when the end of the text is trimmed.
proof fn lemma_line_end_goes(line: Seq<char>)
    requires
        line.len() > 0,
        !text::is_space(line.last()),
    ensures
        text::trimmed_end(line + "\n"@) == line,
{
    reveal_strlit("\n");
    let s = line + "\n"@;
    let k = text::lemma_tail(s);
    assert(s[line.len() - 1] == line.last());
    assert(text::is_space(s[line.len() as int]));
    assert(k == line.len());
    assert(s.take(k) =~= line);
}

} // verus!
