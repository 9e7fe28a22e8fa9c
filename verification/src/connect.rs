//! Connecting a front-end to the daemon: where it listens, and what is said
//! where it cannot be reached.

use crate::cli::GlobalArgs;
use crate::error::{Error, ErrorKind, ErrorModel};
use crate::frame::FrameError;
use crate::text;
use vstd::prelude::*;

verus! {

/// The endpoint of the development transport where none is named.
pub const DEFAULT_ENDPOINT: &'static str = "127.0.0.1:7690";

/// The endpoint to dial.
pub open spec fn endpoint_of(args: GlobalArgs) -> Seq<char> {
    match args.endpoint {
        Some(e) => e@,
        None => DEFAULT_ENDPOINT@,
    }
}

/// The endpoint to dial: the one that is named, or else the default.
#[must_use]
pub fn endpoint_text(args: &GlobalArgs) -> (r: String)
    ensures
        r@ == endpoint_of(*args),
{
    match &args.endpoint {
        Some(e) => e.clone(),
        None => DEFAULT_ENDPOINT.to_owned(),
    }
}

/// What became of resolving an endpoint.
#[derive(Debug)]
pub enum Resolved {
    /// It could not be resolved.
    Failed(String),
    /// It resolved to nothing.
    Nothing,
    /// Its first address.
    Address {
        /// Whether it is a loopback address.
        loopback: bool,
    },
}

/// Decides whether an endpoint may be dialled: its first address is a loopback
/// one. The development transport never leaves the machine.
pub fn endpoint_addr(raw: &str, resolved: &Resolved) -> (r: Result<(), Error>)
    ensures
        match *resolved {
            Resolved::Failed(why) => r matches Err(e) && e@ == ErrorModel::of(
                ErrorKind::Config,
                "invalid endpoint '"@ + raw@ + "': "@ + why@,
            ),
            Resolved::Nothing => r matches Err(e) && e@ == ErrorModel::of(
                ErrorKind::Config,
                "endpoint '"@ + raw@ + "' resolved to nothing"@,
            ),
            Resolved::Address { loopback } => if loopback {
                r is Ok
            } else {
                r matches Err(e) && e@ == ErrorModel::of(
                    ErrorKind::Precondition,
                    "the development endpoint must be a loopback address (127.0.0.1/::1)"@,
                )
            },
        },
{
    match resolved {
        Resolved::Failed(why) => Err(
            Error::Config(text::cat4("invalid endpoint '", raw, "': ", why.as_str())),
        ),
        Resolved::Nothing => Err(
            Error::Config(text::cat3("endpoint '", raw, "' resolved to nothing")),
        ),
        Resolved::Address { loopback } => if *loopback {
            Ok(())
        } else {
            Err(
                Error::Precondition(
                    "the development endpoint must be a loopback address (127.0.0.1/::1)".to_owned(),
                ),
            )
        },
    }
}

/// The error where the daemon's socket cannot be reached.
#[must_use]
pub fn unreachable_socket(path: &str) -> (r: Error)
    ensures
        r@ == ErrorModel::of(
            ErrorKind::System,
            "cannot reach the daemon socket at "@ + path@
                + " (is aegis-daemon running? set --socket / AEGIS_SOCKET)"@,
        ),
{
    Error::System(
        text::cat3(
            "cannot reach the daemon socket at ",
            path,
            " (is aegis-daemon running? set --socket / AEGIS_SOCKET)",
        ),
    )
}

/// The error where the token of the development transport cannot be read. It
/// names the file and nothing of its contents.
#[must_use]
pub fn unreadable_token(path: &str) -> (r: Error)
    ensures
        r@ == ErrorModel::of(
            ErrorKind::System,
            "cannot read the dev IPC token at "@ + path@
                + " (is aegis-daemon running? set --token-file / AEGIS_TOKEN_FILE)"@,
        ),
{
    Error::System(
        text::cat3(
            "cannot read the dev IPC token at ",
            path,
            " (is aegis-daemon running? set --token-file / AEGIS_TOKEN_FILE)",
        ),
    )
}

/// The error where the development daemon cannot be reached.
#[must_use]
pub fn unreachable_endpoint(addr: &str) -> (r: Error)
    ensures
        r@ == ErrorModel::of(
            ErrorKind::System,
            "cannot reach the dev daemon at "@ + addr@
                + " (is aegis-daemon running? set --endpoint / AEGIS_ENDPOINT)"@,
        ),
{
    Error::System(
        text::cat3(
            "cannot reach the dev daemon at ",
            addr,
            " (is aegis-daemon running? set --endpoint / AEGIS_ENDPOINT)",
        ),
    )
}

/// The error where a request could not be carried.
#[must_use]
pub fn call_failed(e: &FrameError) -> (r: Error)
    ensures
        r@ == ErrorModel::of(ErrorKind::System, "ipc: "@ + e.shown()),
{
    Error::System(text::cat2("ipc: ", e.text().as_str()))
}

/// A named endpoint is dialled as it is named; without one it is a local port.
pub proof fn law_endpoint_is_the_named_one(args: GlobalArgs)
    ensures
        args.endpoint matches Some(e) ==> endpoint_of(args) == e@,
        args.endpoint is None ==> endpoint_of(args) == "127.0.0.1:7690"@,
{
}

} // verus!
