//! Aegis Private Browser: the verified core.
//!
//! The library holds the domain model, the fail-closed session machine, the
//! browser-policy renderers, the IPC framing rules and the front-end rendering
//! logic. Everything that touches the outside world lives in `app/`.

use crate::fingerprint::FingerprintPolicy;
use crate::permissions::{Feature, PermissionPolicy, PermissionState};
use crate::vm::IsolationPolicy;
use vstd::prelude::*;

pub mod audit;
pub mod browser;
pub mod chromium;
pub mod cli;
pub mod config;
pub mod connect;
pub mod dto;
pub mod error;
pub mod events;
pub mod fingerprint;
pub mod firefox;
pub mod flow;
pub mod form;
pub mod frame;
pub mod gateway;
pub mod handler;
pub mod health;
pub mod host_runner;
pub mod ids;
pub mod network;
pub mod orchestrator;
pub mod output;
pub mod permissions;
pub mod policy;
pub mod preflight;
pub mod preview;
pub mod profile;
pub mod protocol;
pub mod render;
pub mod runner;
pub mod safety;
pub mod secure;
pub mod server;
pub mod session;
pub mod sessions;
pub mod table;
pub mod text;
pub mod time;
pub mod transport;
pub mod ui;
pub mod update;
pub mod vm;

verus! {

/// The version of the library.
pub const VERSION: &'static str = "0.1.0";

/// Checks that the built-in defaults keep the security model: the isolation
/// policy is fully hardened, the fingerprint policies are valid, and the
/// hard-blocked device classes are blocked. It never finds a problem.
#[must_use]
pub fn self_check() -> (r: Vec<&'static str>)
    ensures
        r@.len() == 0,
{
    let mut problems: Vec<&'static str> = Vec::new();
    if !IsolationPolicy::default().is_hardened() {
        problems.push("default IsolationPolicy is not fully hardened");
    }
    if FingerprintPolicy::balanced().validate().is_some() {
        problems.push("balanced fingerprint policy is invalid");
    }
    if FingerprintPolicy::strict().validate().is_some() {
        problems.push("strict fingerprint policy is invalid");
    }
    let perms = PermissionPolicy::secure_default();
    let features = Feature::all();
    let mut i: usize = 0;
    while i < features.len()
        invariant
            problems@.len() == 0,
            perms.is_secure_default(),
        decreases features@.len() - i,
    {
        let f = features[i];
        if f.is_hard_blocked() && perms.effective("https://example", f) != PermissionState::Block {
            problems.push("hard-blocked device class is not blocked by default");
        }
        i += 1;
    }
    problems
}

} // verus!
