//! Browser-backend domain types.

use crate::config::RenderMode;
use crate::error::Error;
use crate::fingerprint::FingerprintPolicy;
use crate::ids::{ProfileId, SessionId};
use crate::permissions::PermissionPolicy;
use crate::policy::PolicyTable;
use crate::table::TextTable;
use crate::text;
use vstd::prelude::*;

verus! {

/// Identifies a concrete browser backend.
#[derive(Debug, Clone, Copy, PartialEq, Eq, Structural)]
pub enum BrowserBackendId {
    /// Hardened Chromium.
    Chromium,
    /// Firefox / Tor Browser.
    Firefox,
}

impl BrowserBackendId {
    /// The UI label.
    pub open spec fn name(self) -> Seq<char> {
        match self {
            BrowserBackendId::Chromium => "Chromium"@,
            BrowserBackendId::Firefox => "Firefox/Mullvad"@,
        }
    }

    /// UI label.
    #[must_use]
    pub fn label(self) -> (r: &'static str)
        ensures
            r@ == self.name(),
    {
        match self {
            BrowserBackendId::Chromium => "Chromium",
            BrowserBackendId::Firefox => "Firefox/Mullvad",
        }
    }
}

/// Static capabilities advertised by a backend.
#[derive(Debug, Clone, Copy, PartialEq, Eq, Structural)]
pub struct BackendCapabilities {
    /// Whether the backend supports letterboxing.
    pub letterboxing: bool,
    /// Whether the backend enforces Site Isolation.
    pub site_isolation: bool,
    /// Whether the backend keeps an OS-process renderer sandbox.
    pub renderer_sandbox: bool,
    /// Whether the backend can block non-proxied UDP for WebRTC.
    pub webrtc_policy: bool,
}

/// A request to launch the browser for a session.
#[derive(Debug)]
pub struct BrowserLaunchRequest {
    /// The owning session.
    pub session: SessionId,
    /// The profile providing settings.
    pub profile: ProfileId,
    /// The user-data directory.
    pub user_data_dir: String,
    /// The resolved fingerprint policy.
    pub fingerprint: FingerprintPolicy,
    /// The permission policy.
    pub permissions: PermissionPolicy,
    /// The proxy the browser must route through.
    pub proxy_endpoint: String,
    /// The rendering mode to request.
    pub render_mode: RenderMode,
    /// Whether this is a production build.
    pub production: bool,
}

/// The flags that no browser is ever started with.
pub open spec fn forbidden_flags() -> Seq<Seq<char>> {
    seq!["--no-sandbox"@, "--disable-web-security"@, "--disable-site-isolation-trials"@]
}

/// Whether `arg` sets `flag`, with or without a value.
pub open spec fn sets_flag(arg: Seq<char>, flag: Seq<char>) -> bool {
    arg == flag || (flag + "="@).is_prefix_of(arg)
}

/// Whether `arg` sets a forbidden flag.
pub open spec fn is_forbidden(arg: Seq<char>) -> bool {
    exists|i: int| 0 <= i < 3 && sets_flag(arg, #[trigger] forbidden_flags()[i])
}

/// What is wrong with an argument, if anything.
pub open spec fn arg_complaint(arg: Seq<char>, production: bool) -> Option<Seq<char>> {
    if is_forbidden(arg) {
        Some("forbidden browser flag: "@ + arg)
    } else if production && "--remote-debugging"@.is_prefix_of(arg) {
        Some("remote debugging must not be enabled in production builds"@)
    } else {
        None
    }
}

/// What is wrong with the first bad argument, if there is one.
pub open spec fn first_complaint(args: Seq<Seq<char>>, production: bool) -> Option<Seq<char>>
    decreases args.len(),
{
    if args.len() == 0 {
        None
    } else if arg_complaint(args[0], production) is Some {
        arg_complaint(args[0], production)
    } else {
        first_complaint(args.skip(1), production)
    }
}

/// The rendered, backend-specific policy artifacts.
#[derive(Debug)]
pub struct BackendPolicyBundle {
    /// Backend that produced the bundle.
    pub backend: BrowserBackendId,
    /// Managed policy documents keyed by filename.
    pub managed_policies: TextTable<PolicyTable>,
    /// The exact command-line arguments.
    pub command_line: Vec<String>,
    /// Preference overrides.
    pub preferences: PolicyTable,
}

fn sets(arg: &str, flag: &str) -> (r: bool)
    ensures
        r == sets_flag(arg@, flag@),
{
    text::same(arg, flag) || text::starts_with(arg, text::cat2(flag, "=").as_str())
}

impl BackendPolicyBundle {
    /// What is wrong with the command line, if anything.
    pub open spec fn complaint(self, production: bool) -> Option<Seq<char>> {
        first_complaint(text::texts(self.command_line@), production)
    }

    /// Checks that the command line holds no forbidden flag and, in production,
    /// no remote debugging.
    pub fn assert_safe(&self, production: bool) -> (r: Result<(), Error>)
        ensures
            match r {
                Ok(_) => self.complaint(production) is None,
                Err(e) => e matches Error::Config(m) && self.complaint(production) == Some(m@),
            },
    {
        let ghost args = text::texts(self.command_line@);
        let mut i: usize = 0;
        assert(args.skip(0) =~= args);
        while i < self.command_line.len()
            invariant
                i <= self.command_line.len(),
                args == text::texts(self.command_line@),
                self.complaint(production) == first_complaint(args.skip(i as int), production),
            decreases self.command_line.len() - i,
        {
            let arg = self.command_line[i].as_str();
            assert(args.skip(i as int)[0] == arg@);
            let a: bool = sets(arg, "--no-sandbox");
            let b: bool = sets(arg, "--disable-web-security");
            let c: bool = sets(arg, "--disable-site-isolation-trials");
            proof {
                let f = forbidden_flags();
                assert(f[0] == "--no-sandbox"@);
                assert(f[1] == "--disable-web-security"@);
                assert(f[2] == "--disable-site-isolation-trials"@);
                assert(is_forbidden(arg@) == (a || b || c));
            }
            if a || b || c {
                return Err(Error::Config(text::cat2("forbidden browser flag: ", arg)));
            }
            if production && text::starts_with(arg, "--remote-debugging") {
                return Err(
                    Error::Config(
                        "remote debugging must not be enabled in production builds".to_owned(),
                    ),
                );
            }
            assert(args.skip(i as int).skip(1) =~= args.skip(i + 1));
            i += 1;
        }
        Ok(())
    }
}

/// A handle to a running browser process.
#[derive(Debug, PartialEq, Eq)]
pub struct BrowserHandle {
    /// The owning session.
    pub session: SessionId,
    /// The backend.
    pub backend: BrowserBackendId,
    /// An opaque process token.
    pub process_token: String,
}

impl Clone for BrowserHandle {
    fn clone(&self) -> (r: BrowserHandle)
        ensures
            r == *self,
    {
        BrowserHandle {
            session: self.session,
            backend: self.backend,
            process_token: self.process_token.clone(),
        }
    }
}

/// A command line passes exactly where every one of its arguments does: one bad
/// argument anywhere has it refused, and in production remote debugging does.
pub proof fn law_one_bad_argument_refuses(args: Seq<Seq<char>>, production: bool)
    ensures
        first_complaint(args, production) is None <==> forall|i: int|
            0 <= i < args.len() ==> arg_complaint(#[trigger] args[i], production) is None,
    decreases args.len(),
{
    if args.len() > 0 {
        let rest = args.skip(1);
        law_one_bad_argument_refuses(rest, production);
        if first_complaint(args, production) is None {
            assert forall|i: int| 0 <= i < args.len() implies arg_complaint(
                #[trigger] args[i],
                production,
            ) is None by {
                if i > 0 {
                    assert(rest[i - 1] == args[i]);
                }
            }
        }
        if forall|i: int|
            0 <= i < args.len() ==> arg_complaint(#[trigger] args[i], production) is None {
            assert(arg_complaint(args[0], production) is None);
            assert forall|i: int| 0 <= i < rest.len() implies arg_complaint(
                #[trigger] rest[i],
                production,
            ) is None by {
                assert(rest[i] == args[i + 1]);
            }
        }
    }
}

/// The sandbox, web security and Site Isolation cannot be switched off, in any
/// build and with whatever value behind the flag; remote debugging is refused in
/// production, on whatever port, and only there. The refusal names the flag.
pub proof fn law_dangerous_flags_are_refused(value: Seq<char>, production: bool)
    ensures
        arg_complaint("--no-sandbox"@, production) == Some(
            "forbidden browser flag: "@ + "--no-sandbox"@,
        ),
        arg_complaint("--no-sandbox="@ + value, production) is Some,
        arg_complaint("--disable-web-security"@, production) == Some(
            "forbidden browser flag: "@ + "--disable-web-security"@,
        ),
        arg_complaint("--disable-web-security="@ + value, production) is Some,
        arg_complaint("--disable-site-isolation-trials"@, production) == Some(
            "forbidden browser flag: "@ + "--disable-site-isolation-trials"@,
        ),
        arg_complaint("--disable-site-isolation-trials="@ + value, production) is Some,
        arg_complaint("--remote-debugging"@ + value, true) is Some,
{
    let f = forbidden_flags();
    reveal_strlit("=");
    reveal_strlit("--no-sandbox");
    reveal_strlit("--no-sandbox=");
    reveal_strlit("--disable-web-security");
    reveal_strlit("--disable-web-security=");
    reveal_strlit("--disable-site-isolation-trials");
    reveal_strlit("--disable-site-isolation-trials=");
    reveal_strlit("--remote-debugging");
    assert(f[0] + "="@ =~= "--no-sandbox="@);
    assert(f[1] + "="@ =~= "--disable-web-security="@);
    assert(f[2] + "="@ =~= "--disable-site-isolation-trials="@);
    assert(sets_flag("--no-sandbox"@, f[0]));
    assert(sets_flag("--disable-web-security"@, f[1]));
    assert(sets_flag("--disable-site-isolation-trials"@, f[2]));
    lemma_is_prefix(f[0] + "="@, value);
    lemma_is_prefix(f[1] + "="@, value);
    lemma_is_prefix(f[2] + "="@, value);
    lemma_is_prefix("--remote-debugging"@, value);
    assert(sets_flag("--no-sandbox="@ + value, f[0]));
    assert(sets_flag("--disable-web-security="@ + value, f[1]));
    assert(sets_flag("--disable-site-isolation-trials="@ + value, f[2]));
}

proof fn lemma_is_prefix(p: Seq<char>, rest: Seq<char>)
    ensures
        p.is_prefix_of(p + rest),
{
    assert((p + rest).subrange(0, p.len() as int) =~= p);
}

/// Only arguments that set a dangerous flag, or debug in production, are refused:
/// an argument that begins like none of them passes.
pub proof fn law_other_arguments_pass(arg: Seq<char>, production: bool)
    requires
        !"--no-sandbox"@.is_prefix_of(arg),
        !"--disable-web-security"@.is_prefix_of(arg),
        !"--disable-site-isolation-trials"@.is_prefix_of(arg),
        production ==> !"--remote-debugging"@.is_prefix_of(arg),
    ensures
        arg_complaint(arg, production) is None,
{
    let f = forbidden_flags();
    assert forall|i: int| 0 <= i < 3 implies !sets_flag(arg, #[trigger] f[i]) by {
        let p = f[i] + "="@;
        if arg == f[i] {
            assert(arg.subrange(0, f[i].len() as int) =~= f[i]);
        }
        if p.is_prefix_of(arg) {
            assert(arg.subrange(0, f[i].len() as int) =~= p.subrange(0, f[i].len() as int)) by {
                assert(arg.subrange(0, p.len() as int) == p);
                assert(arg.subrange(0, p.len() as int).subrange(0, f[i].len() as int)
                    =~= arg.subrange(0, f[i].len() as int));
            }
            assert(p.subrange(0, f[i].len() as int) =~= f[i]);
        }
        assert(!f[i].is_prefix_of(arg));
    }
}

} // verus!
