//! Process control for browser backends.
//!
//! A backend renders a [`LaunchSpec`] from a vetted bundle; a runner starts it.

use crate::browser::{BackendPolicyBundle, BrowserLaunchRequest};
use crate::error::Error;
use crate::table::TextTable;
use crate::text;
use vstd::prelude::*;

verus! {

/// The concrete command a runner is asked to start.
#[derive(Debug, PartialEq, Eq)]
pub struct LaunchSpec {
    /// The browser executable.
    pub program: String,
    /// The full, vetted argument vector.
    pub args: Vec<String>,
    /// Additional environment variables.
    pub env: Vec<(String, String)>,
}

/// The environment of a launch: the pinned timezone, and the pinned language as
/// locale and as language list.
pub open spec fn launch_env(req: BrowserLaunchRequest) -> Seq<(Seq<char>, Seq<char>)> {
    let lang = req.fingerprint.primary_language@;
    let zone = match req.fingerprint.timezone {
        Some(z) => seq![("TZ"@, z@)],
        None => Seq::empty(),
    };
    zone.push(("LANG"@, text::replaced(lang, '-', '_') + ".UTF-8"@)).push(("LANGUAGE"@, lang))
}

/// The texts of an environment.
pub open spec fn env_texts(env: Seq<(String, String)>) -> Seq<(Seq<char>, Seq<char>)> {
    env.map_values(|e: (String, String)| (e.0@, e.1@))
}

/// Whether `spec` starts `program` with the bundle's command line, verbatim, in
/// the environment of the request.
pub open spec fn plans_launch(
    spec: LaunchSpec,
    program: Seq<char>,
    req: BrowserLaunchRequest,
    bundle: BackendPolicyBundle,
) -> bool {
    &&& spec.program@ == program
    &&& spec.args@ == bundle.command_line@
    &&& env_texts(spec.env@) == launch_env(req)
}

fn add_env(env: &mut Vec<(String, String)>, key: &str, value: &str)
    ensures
        env_texts(final(env)@) == env_texts(old(env)@).push((key@, value@)),
{
    env.push((key.to_owned(), value.to_owned()));
    assert(env_texts(env@) =~= env_texts(old(env)@).push((key@, value@)));
}

/// The launch of `program` with a vetted bundle.
pub fn launch_plan(program: &str, req: &BrowserLaunchRequest, bundle: &BackendPolicyBundle) -> (r:
    LaunchSpec)
    ensures
        plans_launch(r, program@, *req, *bundle),
{
    let mut env: Vec<(String, String)> = Vec::new();
    assert(env_texts(env@) =~= Seq::empty());
    if let Some(tz) = &req.fingerprint.timezone {
        add_env(&mut env, "TZ", tz.as_str());
    }
    let lang = req.fingerprint.primary_language.as_str();
    let locale = text::cat2(text::underscored(lang).as_str(), ".UTF-8");
    add_env(&mut env, "LANG", locale.as_str());
    add_env(&mut env, "LANGUAGE", lang);
    LaunchSpec {
        program: program.to_owned(),
        args: text::copy_all(&bundle.command_line),
        env,
    }
}

impl Clone for LaunchSpec {
    fn clone(&self) -> (r: LaunchSpec)
        ensures
            r.program == self.program,
            r.args@ == self.args@,
            r.env@ == self.env@,
    {
        let mut env: Vec<(String, String)> = Vec::new();
        let mut i: usize = 0;
        while i < self.env.len()
            invariant
                i <= self.env.len(),
                env@ == self.env@.take(i as int),
            decreases self.env.len() - i,
        {
            let e = &self.env[i];
            env.push((e.0.clone(), e.1.clone()));
            i += 1;
            assert(env@ =~= self.env@.take(i as int));
        }
        assert(self.env@.take(self.env@.len() as int) =~= self.env@);
        LaunchSpec { program: self.program.clone(), args: text::copy_all(&self.args), env }
    }
}

/// The reason given wherever the guest channel is not available.
pub const NO_GUEST_CHANNEL: &'static str =
    "browser launch requires the Linux guest channel (Browser VM); not available on this platform";

/// The runner that launches inside the Browser VM through the guest channel. The
/// channel is not available here, so every operation is refused.
#[derive(Debug)]
#[non_exhaustive]
pub struct GuestChannelRunner {
    /// The path to the guest-control helper on the host.
    pub control_helper: Option<String>,
}

impl Default for GuestChannelRunner {
    fn default() -> (r: GuestChannelRunner)
        ensures
            r.control_helper is None,
    {
        GuestChannelRunner { control_helper: None }
    }
}

impl GuestChannelRunner {
    /// A runner that drives the given guest-control helper.
    #[must_use]
    pub fn new(control_helper: &str) -> (r: GuestChannelRunner)
        ensures
            r.control_helper matches Some(h) && h@ == control_helper@,
    {
        GuestChannelRunner { control_helper: Some(control_helper.to_owned()) }
    }

    /// Refused: the guest channel is not available.
    pub fn start(&self, _vm_slug: &str, _spec: &LaunchSpec) -> (r: Result<String, Error>)
        ensures
            r matches Err(Error::Unsupported(m)) && m@ == NO_GUEST_CHANNEL@,
    {
        Err(Error::Unsupported(NO_GUEST_CHANNEL.to_owned()))
    }

    /// Refused: the guest channel is not available.
    pub fn is_running(&self, _token: &str) -> (r: Result<bool, Error>)
        ensures
            r matches Err(Error::Unsupported(m)) && m@ == NO_GUEST_CHANNEL@,
    {
        Err(Error::Unsupported(NO_GUEST_CHANNEL.to_owned()))
    }

    /// Refused: the guest channel is not available.
    pub fn stop(&self, _token: &str) -> (r: Result<(), Error>)
        ensures
            r matches Err(Error::Unsupported(m)) && m@ == NO_GUEST_CHANNEL@,
    {
        Err(Error::Unsupported(NO_GUEST_CHANNEL.to_owned()))
    }
}

/// The token of the n-th process that a [`MockRunner`] starts.
pub open spec fn mock_token(n: nat) -> Seq<char> {
    "mock-proc-"@ + text::dec(n)
}

/// An in-memory runner: it records every launch, hands out tokens in order and
/// tracks which of them run.
#[derive(Debug)]
pub struct MockRunner {
    next: u64,
    running: TextTable<bool>,
    launched: Vec<(String, LaunchSpec)>,
    fail_start: bool,
}

impl MockRunner {
    /// How many processes were started.
    pub closed spec fn started(self) -> nat {
        self.next as nat
    }

    /// Whether each token that was seen runs.
    pub closed spec fn table(self) -> Map<Seq<char>, bool> {
        self.running@
    }

    /// The launches so far.
    pub closed spec fn launches(self) -> Seq<(String, LaunchSpec)> {
        self.launched@
    }

    /// Whether starting fails.
    pub closed spec fn refuses(self) -> bool {
        self.fail_start
    }

    /// A fresh runner with no processes.
    #[must_use]
    pub fn new() -> (r: MockRunner)
        ensures
            r.started() == 0,
            r.table() == Map::<Seq<char>, bool>::empty(),
            r.launches().len() == 0,
            !r.refuses(),
    {
        MockRunner { next: 0, running: TextTable::new(), launched: Vec::new(), fail_start: false }
    }

    /// A runner whose `start` always fails.
    #[must_use]
    pub fn failing() -> (r: MockRunner)
        ensures
            r.started() == 0,
            r.table() == Map::<Seq<char>, bool>::empty(),
            r.launches().len() == 0,
            r.refuses(),
    {
        MockRunner { next: 0, running: TextTable::new(), launched: Vec::new(), fail_start: true }
    }

    /// The launches so far, in order.
    #[must_use]
    pub fn launched(&self) -> (r: &Vec<(String, LaunchSpec)>)
        ensures
            r@ == self.launches(),
    {
        &self.launched
    }

    /// Marks a process that was started as stopped; an unknown token changes
    /// nothing.
    pub fn mark_stopped(&mut self, token: &str)
        ensures
            final(self).table() == if old(self).table().contains_key(token@) {
                old(self).table().insert(token@, false)
            } else {
                old(self).table()
            },
            final(self).started() == old(self).started(),
            final(self).launches() == old(self).launches(),
            final(self).refuses() == old(self).refuses(),
    {
        if self.running.get(token).is_some() {
            self.running.insert(token.to_owned(), false);
        }
    }

    /// Starts a process and records the launch.
    pub fn start(&mut self, vm_slug: &str, spec: &LaunchSpec) -> (r: Result<String, Error>)
        requires
            old(self).started() < u64::MAX,
        ensures
            old(self).refuses() ==> *final(self) == *old(self),
            r is Ok <==> !old(self).refuses(),
            r matches Err(e) ==> (e matches Error::System(m) && m@
                == "mock runner: spawn refused"@),
            r matches Ok(token) ==> {
                let n = old(self).started() + 1;
                let l = final(self).launches();
                &&& token@ == mock_token(n)
                &&& final(self).started() == n
                &&& final(self).table() == old(self).table().insert(mock_token(n), true)
                &&& !final(self).refuses()
                &&& l.len() == old(self).launches().len() + 1
                &&& l.drop_last() == old(self).launches()
                &&& l.last().0@ == vm_slug@
                &&& l.last().1.program == spec.program
                &&& l.last().1.args@ == spec.args@
                &&& l.last().1.env@ == spec.env@
            },
    {
        if self.fail_start {
            return Err(Error::System("mock runner: spawn refused".to_owned()));
        }
        self.next = self.next + 1;
        let token = text::cat2("mock-proc-", text::decimal(self.next).as_str());
        self.running.insert(token.clone(), true);
        self.launched.push((vm_slug.to_owned(), spec.clone()));
        assert(self.launched@.drop_last() =~= old(self).launched@);
        Ok(token)
    }

    /// Whether the process runs; an unknown token is not found.
    pub fn is_running(&self, token: &str) -> (r: Result<bool, Error>)
        ensures
            match r {
                Ok(b) => self.table().contains_key(token@) && b == self.table()[token@],
                Err(e) => !self.table().contains_key(token@) && (e matches Error::NotFound(m) && m@
                    == "unknown process token: "@ + token@),
            },
    {
        match self.running.get(token) {
            Some(b) => Ok(*b),
            None => Err(Error::NotFound(text::cat2("unknown process token: ", token))),
        }
    }

    /// Stops a process; stopping an unknown or stopped one is no error.
    pub fn stop(&mut self, token: &str) -> (r: Result<(), Error>)
        ensures
            r is Ok,
            final(self).table() == old(self).table().insert(token@, false),
            final(self).started() == old(self).started(),
            final(self).launches() == old(self).launches(),
            final(self).refuses() == old(self).refuses(),
    {
        self.running.insert(token.to_owned(), false);
        Ok(())
    }
}

/// A launch runs the very program with the very arguments that were vetted, and
/// shows sites the zone and the language of the policy: as zone, as locale and as
/// language list, and nothing else of the host.
pub proof fn law_launches_run_what_was_vetted(
    spec: LaunchSpec,
    program: Seq<char>,
    req: BrowserLaunchRequest,
    bundle: BackendPolicyBundle,
)
    requires
        plans_launch(spec, program, req, bundle),
    ensures
        spec.program@ == program,
        spec.args@ == bundle.command_line@,
        req.fingerprint.timezone matches Some(z) ==> env_texts(spec.env@).len() == 3 && env_texts(
            spec.env@,
        )[0] == ("TZ"@, z@),
        req.fingerprint.timezone is None ==> env_texts(spec.env@).len() == 2,
        env_texts(spec.env@).contains(("LANGUAGE"@, req.fingerprint.primary_language@)),
        env_texts(spec.env@).contains(
            ("LANG"@, text::replaced(req.fingerprint.primary_language@, '-', '_') + ".UTF-8"@),
        ),
{
    let env = env_texts(spec.env@);
    let n = env.len() as int;
    assert(env[n - 1] == ("LANGUAGE"@, req.fingerprint.primary_language@));
    assert(env[n - 2] == (
        "LANG"@,
        text::replaced(req.fingerprint.primary_language@, '-', '_') + ".UTF-8"@,
    ));
}

} // verus!
