//! Resolution of the browser binary and launching on the host.
//!
//! All environment and filesystem access goes through [`ResolverEnv`], so
//! resolution can be exercised without the host's own browsers. The host runner
//! starts exactly the arguments that it is handed.

use crate::error::{Error, ErrorKind, ErrorModel};
use crate::runner::LaunchSpec;
use crate::text;
use vstd::prelude::*;

verus! {

/// The environment variable that overrides the resolution.
pub const BROWSER_BIN_ENV: &'static str = "AEGIS_BROWSER_BIN";

/// The reason given where no browser is installed.
pub const NO_BROWSER: &'static str =
    "no Chromium-family browser found on this host; set AEGIS_BROWSER_BIN or install Chrome/Chromium/Edge";

/// The lookups that resolution needs.
pub trait ResolverEnv {
    /// An environment variable, or nothing where it is unset or empty.
    fn var(&self, key: &str) -> Option<String>;

    /// Whether a path is a regular file.
    fn is_file(&self, path: &str) -> bool;

    /// Where `program` stands on `PATH`.
    fn which(&self, program: &str) -> Option<String>;
}

/// What an environment variable counts as: one that is unset or blank names
/// nothing.
pub open spec fn env_meaning(raw: Option<Seq<char>>) -> Option<Seq<char>> {
    match raw {
        Some(v) => if text::is_blank(v) {
            None
        } else {
            Some(v)
        },
        None => None,
    }
}

/// The value of an environment variable, where it is set and not blank.
#[must_use]
pub fn env_value(raw: Option<String>) -> (r: Option<String>)
    ensures
        text::opt_text(r) == env_meaning(text::opt_text(raw)),
{
    match raw {
        Some(v) => if text::blank(v.as_str()) {
            None
        } else {
            Some(v)
        },
        None => None,
    }
}

/// Whether a file name ends in `.exe`, in either case.
pub open spec fn is_exe(s: Seq<char>) -> bool {
    let n = s.len() as int;
    &&& n >= 4
    &&& s[n - 4] == '.'
    &&& s[n - 3] == 'e' || s[n - 3] == 'E'
    &&& s[n - 2] == 'x' || s[n - 2] == 'X'
    &&& s[n - 1] == 'e' || s[n - 1] == 'E'
}

fn names_exe(program: &str) -> (r: bool)
    ensures
        r == is_exe(program@),
{
    let n: usize = program.unicode_len();
    if n < 4 {
        return false;
    }
    let a = program.get_char(n - 4);
    let b = program.get_char(n - 3);
    let c = program.get_char(n - 2);
    let d = program.get_char(n - 1);
    a == '.' && (b == 'e' || b == 'E') && (c == 'x' || c == 'X') && (d == 'e' || d == 'E')
}

/// The file names under which a program is looked for in a directory of `PATH`.
pub open spec fn file_names(program: Seq<char>, windows: bool) -> Seq<Seq<char>> {
    if windows && !is_exe(program) {
        seq![program, program + ".exe"@]
    } else {
        seq![program]
    }
}

/// The file names under which a program is looked for in a directory of `PATH`,
/// in order: its own and, on Windows, the one with `.exe` behind it.
#[must_use]
pub fn program_files(program: &str, windows: bool) -> (r: Vec<String>)
    ensures
        text::texts(r@) == file_names(program@, windows),
{
    let mut names: Vec<String> = Vec::new();
    names.push(program.to_owned());
    if windows && !names_exe(program) {
        names.push(text::cat2(program, ".exe"));
    }
    assert(text::texts(names@) =~= file_names(program@, windows));
    names
}

/// The programs that are searched for on `PATH`, best first.
pub open spec fn path_candidates() -> Seq<&'static str> {
    seq![
        "chromium",
        "chromium-browser",
        "google-chrome",
        "google-chrome-stable",
        "brave-browser",
    ]
}

/// Whether `v` is an answer of the environment for a variable.
pub open spec fn answers_var<E: ResolverEnv>(env: &E, key: &str, v: Option<String>) -> bool {
    call_ensures(E::var, (env, key), v)
}

/// Whether `p` is an answer of the environment for a program.
pub open spec fn answers_which<E: ResolverEnv>(env: &E, program: &str, p: Option<String>) -> bool {
    call_ensures(E::which, (env, program), p)
}

/// Whether `b` is an answer of the environment for a file.
pub open spec fn answers_file<E: ResolverEnv>(env: &E, path: &str, b: bool) -> bool {
    call_ensures(E::is_file, (env, path), b)
}

/// Whether `found` is the first of `names` that the environment locates.
pub open spec fn first_located<E: ResolverEnv>(
    env: &E,
    names: Seq<&'static str>,
    found: Option<String>,
) -> bool
    decreases names.len(),
{
    if names.len() == 0 {
        found is None
    } else {
        ||| found is Some && answers_which(env, names[0], found)
        ||| answers_which(env, names[0], None) && first_located(env, names.skip(1), found)
    }
}

/// The first of `names` that the environment locates on `PATH`.
fn locate<E: ResolverEnv>(env: &E, names: &Vec<&'static str>) -> (r: Option<String>)
    ensures
        first_located(env, names@, r),
{
    assert(names@.skip(0) =~= names@);
    locate_from(env, names, 0)
}

fn locate_from<E: ResolverEnv>(env: &E, names: &Vec<&'static str>, i: usize) -> (r: Option<String>)
    requires
        i <= names@.len(),
    ensures
        first_located(env, names@.skip(i as int), r),
    decreases names@.len() - i,
{
    let ghost rest = names@.skip(i as int);
    if i == names.len() {
        return None;
    }
    assert(rest[0] == names@[i as int]);
    let found = env.which(names[i]);
    if found.is_some() {
        return found;
    }
    assert(rest.skip(1) =~= names@.skip(i + 1));
    locate_from(env, names, i + 1)
}

/// Whether `r` is what the platform search finds.
pub open spec fn found_by_default<E: ResolverEnv>(env: &E, windows: bool, r: Option<String>) -> bool {
    if windows {
        searched_windows(env, r)
    } else {
        first_located(env, path_candidates(), r)
    }
}

/// Searches the host for a Chromium-family browser, best first: on Windows in the
/// well-known install locations and then on `PATH`, elsewhere on `PATH`.
#[must_use]
pub fn search_default_browser<E: ResolverEnv>(env: &E, windows: bool) -> (r: Option<String>)
    ensures
        found_by_default(env, windows, r),
{
    if windows {
        return search_windows(env);
    }
    let names: Vec<&'static str> =
        vec![
        "chromium",
        "chromium-browser",
        "google-chrome",
        "google-chrome-stable",
        "brave-browser",
    ];
    assert(names@ =~= path_candidates());
    locate(env, &names)
}

/// Where Chrome is installed below a root.
pub const CHROME_PLACE: &'static str = "Google\\Chrome\\Application\\chrome.exe";

/// Where Chromium is installed below a root.
pub const CHROMIUM_PLACE: &'static str = "Chromium\\Application\\chrome.exe";

/// Where Edge is installed below a root.
pub const EDGE_PLACE: &'static str = "Microsoft\\Edge\\Application\\msedge.exe";

/// The places to look at under the given roots, best first: Chrome and Chromium
/// under each root, then Edge under each root.
pub open spec fn windows_places(roots: Seq<Seq<char>>) -> Seq<Seq<char>> {
    chrome_places(roots) + roots.map_values(|root: Seq<char>| text::path_join(root, EDGE_PLACE@, true))
}

/// Chrome and Chromium under each root.
pub open spec fn chrome_places(roots: Seq<Seq<char>>) -> Seq<Seq<char>>
    decreases roots.len(),
{
    if roots.len() == 0 {
        Seq::empty()
    } else {
        chrome_places(roots.drop_last()).push(text::path_join(roots.last(), CHROME_PLACE@, true)).push(
            text::path_join(roots.last(), CHROMIUM_PLACE@, true),
        )
    }
}

/// The places to look at under the given roots, best first.
pub fn windows_candidates(roots: &Vec<String>) -> (r: Vec<String>)
    ensures
        text::texts(r@) == windows_places(text::texts(roots@)),
{
    let ghost all = text::texts(roots@);
    let mut out: Vec<String> = Vec::new();
    let mut i: usize = 0;
    assert(text::texts(out@) =~= chrome_places(all.take(0)));
    while i < roots.len()
        invariant
            i <= roots@.len(),
            all == text::texts(roots@),
            text::texts(out@) == chrome_places(all.take(i as int)),
        decreases roots@.len() - i,
    {
        let ghost done = text::texts(out@);
        let chrome = text::join_path(roots[i].as_str(), CHROME_PLACE, true);
        let chromium = text::join_path(roots[i].as_str(), CHROMIUM_PLACE, true);
        out.push(chrome);
        out.push(chromium);
        i += 1;
        proof {
            let part = all.take(i as int);
            assert(part.drop_last() =~= all.take(i - 1));
            assert(part.last() == roots@[i - 1]@);
            assert(text::texts(out@) =~= done.push(chrome@).push(chromium@));
        }
    }
    assert(all.take(i as int) =~= all);
    let ghost chrome = text::texts(out@);
    let ghost edge = all.map_values(|root: Seq<char>| text::path_join(root, EDGE_PLACE@, true));
    let mut j: usize = 0;
    while j < roots.len()
        invariant
            j <= roots@.len(),
            all == text::texts(roots@),
            edge == all.map_values(|root: Seq<char>| text::path_join(root, EDGE_PLACE@, true)),
            text::texts(out@) == chrome + edge.take(j as int),
        decreases roots@.len() - j,
    {
        let ghost done = text::texts(out@);
        let place = text::join_path(roots[j].as_str(), EDGE_PLACE, true);
        out.push(place);
        j += 1;
        proof {
            assert(all[j - 1] == roots@[j - 1]@);
            assert(text::texts(out@) =~= done.push(place@));
            assert(text::texts(out@) =~= chrome + edge.take(j as int));
        }
    }
    assert(edge.take(j as int) =~= edge);
    out
}

/// Whether the environment finds no file before place `i`.
pub open spec fn none_before<E: ResolverEnv>(env: &E, places: Seq<String>, i: int) -> bool {
    forall|k: int| 0 <= k < i ==> exists|p: &str|
        p@ == (#[trigger] places[k])@ && #[trigger] answers_file(env, p, false)
}

/// The first of the places that is a file.
pub fn first_file<E: ResolverEnv>(env: &E, places: &Vec<String>) -> (r: Option<usize>)
    ensures
        match r {
            Some(i) => i < places@.len() && none_before(env, places@, i as int) && exists|p: &str|
                p@ == places@[i as int]@ && #[trigger] answers_file(env, p, true),
            None => none_before(env, places@, places@.len() as int),
        },
{
    let mut i: usize = 0;
    while i < places.len()
        invariant
            i <= places@.len(),
            none_before(env, places@, i as int),
        decreases places@.len() - i,
    {
        let p = places[i].as_str();
        let hit: bool = env.is_file(p);
        assert(answers_file(env, p, hit));
        if hit {
            return Some(i);
        }
        i += 1;
    }
    None
}

/// Whether `r` is what a search under the given roots, then on `PATH`, finds.
pub open spec fn found_on_windows<E: ResolverEnv>(
    env: &E,
    roots: Seq<Seq<char>>,
    r: Option<String>,
) -> bool {
    exists|places: Seq<String>|
        {
            &&& #[trigger] text::texts(places) == windows_places(roots)
            &&& {
                ||| exists|i: int|
                    {
                        &&& 0 <= i < places.len() && r == Some(#[trigger] places[i])
                        &&& none_before(env, places, i)
                        &&& exists|p: &str|
                            p@ == places[i]@ && #[trigger] answers_file(env, p, true)
                    }
                ||| none_before(env, places, places.len() as int) && first_located(
                    env,
                    seq!["chrome.exe", "msedge.exe"],
                    r,
                )
            }
        }
}

/// Searches the given roots, best place first, then `PATH`.
fn search_roots<E: ResolverEnv>(env: &E, roots: &Vec<String>) -> (r: Option<String>)
    ensures
        found_on_windows(env, text::texts(roots@), r),
{
    let places = windows_candidates(roots);
    match first_file(env, &places) {
        Some(i) => {
            let r = Some(places[i].clone());
            assert(r == Some(places@[i as int]));
            r
        },
        None => {
            let names: Vec<&'static str> = vec!["chrome.exe", "msedge.exe"];
            assert(names@ =~= seq!["chrome.exe", "msedge.exe"]);
            locate(env, &names)
        },
    }
}

/// The roots that are set, in their order.
pub open spec fn set_roots(
    program_files: Option<String>,
    program_files_x86: Option<String>,
    local_app_data: Option<String>,
) -> Seq<Seq<char>> {
    let none = Seq::<Seq<char>>::empty();
    let a = match program_files {
        Some(s) => none.push(s@),
        None => none,
    };
    let b = match program_files_x86 {
        Some(s) => a.push(s@),
        None => a,
    };
    match local_app_data {
        Some(s) => b.push(s@),
        None => b,
    }
}

fn push_root(roots: &mut Vec<String>, root: Option<String>)
    ensures
        text::texts(final(roots)@) == match root {
            Some(s) => text::texts(old(roots)@).push(s@),
            None => text::texts(old(roots)@),
        },
{
    if let Some(s) = root {
        roots.push(s);
        assert(text::texts(roots@) =~= text::texts(old(roots)@).push(s@));
    }
}

/// Whether `r` is what the search on Windows finds, under the roots that the
/// environment names.
pub open spec fn searched_windows<E: ResolverEnv>(env: &E, r: Option<String>) -> bool {
    exists|a: Option<String>, b: Option<String>, c: Option<String>|
        {
            &&& #[trigger] answers_var(env, "ProgramFiles", a)
            &&& #[trigger] answers_var(env, "ProgramFiles(x86)", b)
            &&& #[trigger] answers_var(env, "LOCALAPPDATA", c)
            &&& found_on_windows(env, set_roots(a, b, c), r)
        }
}

/// Searches the well-known install locations on Windows, then `PATH`: Chrome and
/// Chromium under `ProgramFiles`, `ProgramFiles(x86)` and `LOCALAPPDATA`, then
/// Edge under each of them.
pub fn search_windows<E: ResolverEnv>(env: &E) -> (r: Option<String>)
    ensures
        searched_windows(env, r),
{
    let a = env.var("ProgramFiles");
    let b = env.var("ProgramFiles(x86)");
    let c = env.var("LOCALAPPDATA");
    assert(answers_var(env, "ProgramFiles", a));
    assert(answers_var(env, "ProgramFiles(x86)", b));
    assert(answers_var(env, "LOCALAPPDATA", c));
    let ghost all = set_roots(a, b, c);
    let mut roots: Vec<String> = Vec::new();
    assert(text::texts(roots@) =~= Seq::<Seq<char>>::empty());
    push_root(&mut roots, a);
    push_root(&mut roots, b);
    push_root(&mut roots, c);
    assert(text::texts(roots@) == all);
    search_roots(env, &roots)
}

/// The binary for an override, the value of the environment variable and the
/// result of the search: the first of them that is there. An override is taken
/// verbatim; a blank one counts as none.
pub open spec fn chosen_binary(
    override_bin: Option<Seq<char>>,
    from_env: Option<Seq<char>>,
    found: Option<Seq<char>>,
) -> Option<Seq<char>> {
    if override_bin is Some && !text::is_blank(override_bin->0) {
        override_bin
    } else if from_env is Some {
        from_env
    } else {
        found
    }
}

/// The override, where it is not blank.
fn explicit_binary(override_bin: Option<&str>) -> (r: Option<String>)
    ensures
        match r {
            Some(s) => override_bin is Some && !text::is_blank(override_bin->0@) && s@
                == override_bin->0@,
            None => override_bin is None || text::is_blank(override_bin->0@),
        },
{
    match override_bin {
        Some(s) => if text::blank(s) {
            None
        } else {
            Some(s.to_owned())
        },
        None => None,
    }
}

/// Chooses the binary: an explicit override, verbatim, where it is not blank; else
/// the value of the environment variable; else what the search found.
pub fn choose_binary(
    override_bin: Option<&str>,
    from_env: Option<String>,
    found: Option<String>,
) -> (r: Result<String, Error>)
    ensures
        ({
            let over = match override_bin {
                Some(s) => Some(s@),
                None => None,
            };
            match chosen_binary(over, text::opt_text(from_env), text::opt_text(found)) {
                Some(p) => r matches Ok(b) && b@ == p,
                None => r matches Err(Error::NotFound(m)) && m@ == NO_BROWSER@,
            }
        }),
{
    if let Some(b) = explicit_binary(override_bin) {
        return Ok(b);
    }
    if let Some(b) = from_env {
        return Ok(b);
    }
    match found {
        Some(b) => Ok(b),
        None => Err(Error::NotFound(NO_BROWSER.to_owned())),
    }
}

/// Resolves the binary to launch: the explicit override where it is not blank;
/// else the environment variable; else the platform search. The first two are
/// taken verbatim and need not exist yet.
pub fn resolve_browser_binary<E: ResolverEnv>(
    override_bin: Option<&str>,
    env: &E,
    windows: bool,
) -> (r: Result<String, Error>)
    ensures
        override_bin is Some && !text::is_blank(override_bin->0@) ==> (r matches Ok(b) && b@
            == override_bin->0@),
        override_bin is None || text::is_blank(override_bin->0@) ==> {
            ||| exists|v: String|
                #[trigger] answers_var(env, BROWSER_BIN_ENV, Some(v)) && (r matches Ok(b) && b@ == v@)
            ||| answers_var(env, BROWSER_BIN_ENV, None) && exists|f: Option<String>|
                {
                    &&& #[trigger] found_by_default(env, windows, f)
                    &&& match f {
                        Some(p) => r matches Ok(b) && b@ == p@,
                        None => r matches Err(Error::NotFound(m)) && m@ == NO_BROWSER@,
                    }
                }
        },
{
    if let Some(b) = explicit_binary(override_bin) {
        return Ok(b);
    }
    let from_env = env.var(BROWSER_BIN_ENV);
    assert(answers_var(env, BROWSER_BIN_ENV, from_env));
    if from_env.is_some() {
        return choose_binary(override_bin, from_env, None);
    }
    let found = search_default_browser(env, windows);
    choose_binary(override_bin, None, found)
}

/// The environment variable that names the Firefox or Tor Browser binary.
pub const FIREFOX_BIN_ENV: &'static str = "AEGIS_FIREFOX_BIN";

/// Locates Firefox or Tor Browser on the host: where the environment variable
/// says, verbatim, or else on `PATH`.
#[must_use]
pub fn locate_firefox<E: ResolverEnv>(env: &E) -> (r: Option<String>)
    ensures
        r is Some && answers_var(env, FIREFOX_BIN_ENV, r) || answers_var(
            env,
            FIREFOX_BIN_ENV,
            None,
        ) && answers_which(env, "firefox", r),
{
    let named = env.var(FIREFOX_BIN_ENV);
    if named.is_some() {
        return named;
    }
    env.which("firefox")
}

/// The result of polling a child process.
#[derive(Debug)]
pub enum Polled {
    /// The child was never started here, or was stopped.
    Unknown,
    /// It runs.
    Running,
    /// It has exited.
    Exited,
    /// Polling failed.
    Failed(String),
}

/// The runner of a browser process on the host. The binary is fixed when the
/// runner is made; the program that a launch names is ignored.
#[derive(Debug)]
pub struct HostBrowserRunner {
    /// The resolved browser executable.
    pub executable: String,
}

impl HostBrowserRunner {
    /// A runner bound to a resolved binary.
    #[must_use]
    pub fn with_binary(binary: &str) -> (r: HostBrowserRunner)
        ensures
            r.executable@ == binary@,
    {
        HostBrowserRunner { executable: binary.to_owned() }
    }

    /// The executable that this runner starts.
    #[must_use]
    pub fn binary(&self) -> (r: &str)
        ensures
            r@ == self.executable@,
    {
        self.executable.as_str()
    }

    /// What is executed for a launch: the runner's binary with the arguments and
    /// the environment of the launch, verbatim.
    #[must_use]
    pub fn command(&self, spec: &LaunchSpec) -> (r: LaunchSpec)
        ensures
            r.program == self.executable,
            r.args@ == spec.args@,
            r.env@ == spec.env@,
    {
        let copy = spec.clone();
        LaunchSpec { program: self.executable.clone(), args: copy.args, env: copy.env }
    }

    /// The token of a child that was started: its process id. A child that
    /// yields none counts as failed.
    pub fn token(pid: Option<u32>) -> (r: Result<String, Error>)
        ensures
            match pid {
                Some(p) => r matches Ok(t) && t@ == text::dec(p as nat),
                None => r matches Err(Error::System(m)) && m@
                    == "host browser exited before yielding a pid"@,
            },
    {
        match pid {
            Some(p) => Ok(text::decimal(p as u64)),
            None => Err(Error::System("host browser exited before yielding a pid".to_owned())),
        }
    }

    /// The error where a child could not be started.
    #[must_use]
    pub fn start_failed(why: &str) -> (r: Error)
        ensures
            r@ == ErrorModel::of(ErrorKind::System, "failed to launch host browser: "@ + why@),
    {
        Error::System(text::cat2("failed to launch host browser: ", why))
    }

    /// Whether a child is killed to stop it, given what polling it came to. One
    /// that is unknown or has exited needs no more; one that cannot be polled is
    /// killed all the same.
    #[must_use]
    pub fn must_kill(polled: &Polled) -> (r: bool)
        ensures
            r == (*polled is Running || *polled is Failed),
    {
        match polled {
            Polled::Unknown => false,
            Polled::Running => true,
            Polled::Exited => false,
            Polled::Failed(_) => true,
        }
    }

    /// The error where a child could not be killed.
    #[must_use]
    pub fn kill_failed(why: &str) -> (r: Error)
        ensures
            r@ == ErrorModel::of(ErrorKind::System, "failed to terminate host browser: "@ + why@),
    {
        Error::System(text::cat2("failed to terminate host browser: ", why))
    }

    /// Whether the child with a token runs, given what polling it came to.
    pub fn liveness(token: &str, polled: Polled) -> (r: Result<bool, Error>)
        ensures
            match polled {
                Polled::Unknown => r matches Err(Error::NotFound(m)) && m@
                    == "unknown process token: "@ + token@,
                Polled::Running => r == Ok::<bool, Error>(true),
                Polled::Exited => r == Ok::<bool, Error>(false),
                Polled::Failed(why) => r matches Err(Error::System(m)) && m@
                    == "failed to poll host browser: "@ + why@,
            },
    {
        match polled {
            Polled::Unknown => Err(Error::NotFound(text::cat2("unknown process token: ", token))),
            Polled::Running => Ok(true),
            Polled::Exited => Ok(false),
            Polled::Failed(why) => Err(
                Error::System(text::cat2("failed to poll host browser: ", why.as_str())),
            ),
        }
    }
}

/// The browser to launch is the first that is there of the override, unless it is
/// blank, the one that the environment names, and the one that was found; each is
/// taken as it stands.
pub proof fn law_binaries_are_chosen_in_order(
    over: Option<Seq<char>>,
    env: Option<Seq<char>>,
    found: Option<Seq<char>>,
)
    ensures
        over matches Some(s) && !text::is_blank(s) ==> chosen_binary(over, env, found) == over,
        (over is None || text::is_blank(over->0)) && env is Some ==> chosen_binary(over, env, found)
            == env,
        (over is None || text::is_blank(over->0)) && env is None ==> chosen_binary(over, env, found)
            == found,
        BROWSER_BIN_ENV@ == "AEGIS_BROWSER_BIN"@,
        FIREFOX_BIN_ENV@ == "AEGIS_FIREFOX_BIN"@,
{
}

/// Below each root, Chrome is looked for before Chromium, and both before Edge below
/// any root; the roots are taken in their order.
pub proof fn law_windows_places_come_in_order(roots: Seq<Seq<char>>, i: int)
    requires
        0 <= i < roots.len(),
    ensures
        windows_places(roots).len() == 3 * roots.len(),
        windows_places(roots)[2 * i] == text::path_join(
            roots[i],
            "Google\\Chrome\\Application\\chrome.exe"@,
            true,
        ),
        windows_places(roots)[2 * i + 1] == text::path_join(
            roots[i],
            "Chromium\\Application\\chrome.exe"@,
            true,
        ),
        windows_places(roots)[2 * roots.len() + i] == text::path_join(
            roots[i],
            "Microsoft\\Edge\\Application\\msedge.exe"@,
            true,
        ),
{
    lemma_chrome_places(roots, i);
}

proof fn lemma_chrome_places(roots: Seq<Seq<char>>, i: int)
    ensures
        chrome_places(roots).len() == 2 * roots.len(),
        0 <= i < roots.len() ==> chrome_places(roots)[2 * i] == text::path_join(
            roots[i],
            CHROME_PLACE@,
            true,
        ) && chrome_places(roots)[2 * i + 1] == text::path_join(roots[i], CHROMIUM_PLACE@, true),
    decreases roots.len(),
{
    if roots.len() > 0 {
        lemma_chrome_places(roots.drop_last(), i);
    }
}

/// On `PATH`, Chromium is looked for first, then Chrome, then Brave.
pub proof fn law_programs_are_looked_for_in_order()
    ensures
        path_candidates().len() == 5,
        path_candidates()[0]@ == "chromium"@,
        path_candidates()[1]@ == "chromium-browser"@,
        path_candidates()[2]@ == "google-chrome"@,
        path_candidates()[3]@ == "google-chrome-stable"@,
        path_candidates()[4]@ == "brave-browser"@,
{
}

/// On Windows a program is also looked for under its name with `.exe` behind it,
/// unless it has it already; its own name comes first, and elsewhere it is the only
/// one.
pub proof fn law_file_names_of_a_program(program: Seq<char>)
    ensures
        file_names(program, false) == seq![program],
        file_names(program, true)[0] == program,
        !is_exe(program) ==> file_names(program, true) == seq![program, program + ".exe"@],
        is_exe(program) ==> file_names(program, true) == seq![program],
{
}

} // verus!
