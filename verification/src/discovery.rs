//! The discovery flow: locate the process, choose exactly one strategy, and
//! turn the recovered credentials into an endpoint and header.
//!
//! Reading the lock file is the caller's job, so a discovery run is split at
//! that point: [`begin_discovery`] either yields credentials outright (the
//! command-line strategy) or names the lock file to read, whose bytes then
//! go through [`crate::lockfile::parse_lock_file`]; [`complete_discovery`]
//! turns credentials into the final result either way.

use vstd::prelude::*;
use vstd::utf8::encode_utf8;
use crate::cmdline::command_line_credentials;
use crate::cmdline::extract_from_command_line;
use crate::errors::Error;
use crate::errors::ErrorKind;
use crate::header::auth_header_spec;
use crate::header::build_auth_header;
use crate::locator::ProcessRecord;
use crate::locator::find_process;
use crate::locator::first_match;
use crate::lockfile::lock_file_path_spec;
use crate::lockfile::resolve_lock_file_path;
use crate::port::parse_port;
use crate::port::parse_port_spec;

verus! {

/// The raw credentials recovered by either strategy: the port still in
/// string form, and the auth token.
pub struct Credentials {
    pub port: String,
    pub auth_token: String,
}

/// How a discovery run continues after the strategy choice: with the
/// credentials in hand, or with a lock file that the caller must read.
pub enum DiscoveryStep {
    /// The command-line strategy ran and recovered the credentials.
    Ready(Credentials),
    /// The lock-file strategy was chosen: read this file, then parse it.
    ReadLockFile(String),
}

/// What discovery returns: the port of the loopback control-API endpoint
/// (the host is always 127.0.0.1), and the ready-to-send header value.
pub struct DiscoveryResult {
    pub port: u16,
    pub auth_header: String,
}

/// The command-line strategy runs exactly when the client was matched and
/// the lock file is not forced; the lock-file strategy runs otherwise.
pub open spec fn uses_command_line(is_client: bool, force_lock_file: bool) -> bool {
    is_client && !force_lock_file
}

/// With the client process matched, carrying a port flag and a token flag
/// (no earlier argument carrying either prefix), and the lock file not
/// forced, discovery is decided: the command-line strategy runs and yields
/// exactly the two flagged values — so, by the contracts of
/// [`begin_discovery`] and [`complete_discovery`], the endpoint port is the
/// flagged port as parsed and the header is built from the flagged token.
pub proof fn lemma_client_flags_decide_discovery(
    snapshot: Seq<ProcessRecord>,
    client_name: Seq<char>,
    game_name: Seq<char>,
    matched: int,
    port_at: int,
    token_at: int,
    port: Seq<char>,
    token: Seq<char>,
)
    requires
        0 <= matched < snapshot.len(),
        first_match(snapshot, client_name, game_name) == Some((matched, true)),
        0 <= port_at < snapshot[matched].cmd.deep_view().len(),
        0 <= token_at < snapshot[matched].cmd.deep_view().len(),
        snapshot[matched].cmd.deep_view()[port_at] == crate::cmdline::port_prefix() + port,
        snapshot[matched].cmd.deep_view()[token_at] == crate::cmdline::token_prefix() + token,
        forall|k: int| 0 <= k < port_at ==> crate::text::strip_prefix_spec(
            #[trigger] snapshot[matched].cmd.deep_view()[k],
            crate::cmdline::port_prefix(),
        ) is None,
        forall|k: int| 0 <= k < token_at ==> crate::text::strip_prefix_spec(
            #[trigger] snapshot[matched].cmd.deep_view()[k],
            crate::cmdline::token_prefix(),
        ) is None,
    ensures
        uses_command_line(true, false),
        command_line_credentials(snapshot[matched].cmd.deep_view()) == Ok::<_, ErrorKind>(
            (port, token),
        ),
{
    crate::cmdline::lemma_flags_give_credentials(
        snapshot[matched].cmd.deep_view(),
        port_at,
        token_at,
        port,
        token,
    );
}

/// Locate the client or game process and run the chosen strategy as far as
/// it goes without touching the file system: the command-line strategy to
/// completion, the lock-file strategy to the path that must be read.
pub fn begin_discovery(
    snapshot: &Vec<ProcessRecord>,
    client_name: &String,
    game_name: &String,
    force_lock_file: bool,
) -> (r: Result<DiscoveryStep, Error>)
    ensures
        match r {
            Ok(step) => first_match(snapshot@, client_name@, game_name@) matches Some(m) && {
                let i = m.0;
                if uses_command_line(m.1, force_lock_file) {
                    step matches DiscoveryStep::Ready(c) && command_line_credentials(
                        snapshot@[i].cmd.deep_view(),
                    ) == Ok::<_, ErrorKind>((c.port@, c.auth_token@))
                } else {
                    step matches DiscoveryStep::ReadLockFile(p) && lock_file_path_spec(
                        snapshot@[i].exe.deep_view(),
                        m.1,
                    ) == Some(p@)
                }
            },
            Err(e) => match first_match(snapshot@, client_name@, game_name@) {
                None => {
                    &&& e.spec_kind() == ErrorKind::NotRunning
                    &&& e.spec_message() == "neither the game or client process were running"@
                    &&& !e.spec_lock_file_error()
                },
                Some(m) => {
                    let i = m.0;
                    if uses_command_line(m.1, force_lock_file) {
                        &&& command_line_credentials(snapshot@[i].cmd.deep_view()) == Err::<
                            (Seq<char>, Seq<char>),
                            _,
                        >(e.spec_kind())
                        &&& !e.spec_lock_file_error()
                        &&& e.spec_kind() == ErrorKind::PortNotFound ==> e.spec_message()
                            == "port was not found"@
                        &&& e.spec_kind() == ErrorKind::AuthTokenNotFound ==> e.spec_message()
                            == "auth token was not found"@
                    } else {
                        &&& lock_file_path_spec(snapshot@[i].exe.deep_view(), m.1) is None
                        &&& e.spec_kind() == ErrorKind::LockFileNotFound
                        &&& e.spec_message() == "Did not follow the typical install structure"@
                        &&& e.spec_lock_file_error()
                    }
                },
            },
        },
{
    let m = match find_process(snapshot, client_name, game_name) {
        Ok(m) => m,
        Err(e) => {
            return Err(e);
        },
    };
    let process = &snapshot[m.index];
    if m.is_client && !force_lock_file {
        match extract_from_command_line(&process.cmd) {
            Ok(c) => Ok(DiscoveryStep::Ready(c)),
            Err(e) => Err(e),
        }
    } else {
        match resolve_lock_file_path(&process.exe, m.is_client) {
            Ok(path) => Ok(DiscoveryStep::ReadLockFile(path)),
            Err(e) => Err(e),
        }
    }
}

/// Turn recovered credentials into the final result: parse the port (its
/// failure is `PortNotFound` with the parse failure's description, never a
/// lock-file error) and build the auth header. The bound keeps the encoded
/// header length addressable.
pub fn complete_discovery(creds: &Credentials) -> (r: Result<DiscoveryResult, Error>)
    requires
        4 * ((encode_utf8(creds.auth_token@).len() + 7) / 3) + 6 <= usize::MAX,
    ensures
        match r {
            Ok(d) => {
                &&& parse_port_spec(creds.port@) == Ok::<_, Seq<char>>(d.port)
                &&& d.auth_header@ == auth_header_spec(creds.auth_token@)
            },
            Err(e) => {
                &&& parse_port_spec(creds.port@) == Err::<u16, _>(e.spec_message())
                &&& e.spec_kind() == ErrorKind::PortNotFound
                &&& !e.spec_lock_file_error()
            },
        },
{
    let port = match parse_port(creds.port.as_str()) {
        Ok(p) => p,
        Err(e) => {
            return Err(e);
        },
    };
    let auth_header = build_auth_header(creds.auth_token.as_str());
    Ok(DiscoveryResult { port, auth_header })
}

} // verus!
