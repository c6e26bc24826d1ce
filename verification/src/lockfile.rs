//! The lock-file credential strategy: resolve the file's location relative
//! to the matched executable, then parse its colon-separated fields.
//!
//! Reading the file itself is the caller's job; this module turns an
//! executable path into the path to read, and the bytes that were read into
//! credentials. Every failure here is marked as a lock-file error.

use vstd::prelude::*;
use vstd::utf8::valid_utf8;
use vstd::utf8::decode_utf8;
use crate::errors::Error;
use crate::errors::ErrorKind;
use crate::errors::IoKind;
use crate::text::split_spec;
use crate::text::split_string;
use crate::discovery::Credentials;

verus! {

/// Whether `c` separates path components.
pub open spec fn is_separator(c: char) -> bool {
    c == '/' || c == '\\'
}

/// The directory containing the entry that `p` names: everything before the
/// last separator. A path without a separator has no containing directory
/// here (the walk upward has run out).
pub open spec fn parent_dir_spec(p: Seq<char>) -> Option<Seq<char>>
    decreases p.len(),
{
    if p.len() == 0 {
        None
    } else if is_separator(p.last()) {
        Some(p.drop_last())
    } else {
        parent_dir_spec(p.drop_last())
    }
}

/// Where the lock file sits for an executable path and identity: next to the
/// client's executable directory, one directory higher for the game (its
/// install layout places it one level deeper). `None` when the executable
/// path is unavailable or a directory step runs out.
pub open spec fn lock_file_path_spec(exe: Option<Seq<char>>, is_client: bool) -> Option<Seq<char>> {
    match exe {
        Option::None => Option::None,
        Option::Some(p) => match parent_dir_spec(p) {
            Option::None => Option::None,
            Option::Some(dir) => if is_client {
                Option::Some(dir + "/lockfile"@)
            } else {
                match parent_dir_spec(dir) {
                    Option::None => Option::None,
                    Option::Some(above) => Option::Some(above + "/lockfile"@),
                }
            },
        },
    }
}

/// Resolving for the game identity is exactly resolving for the client
/// identity one directory higher: the game path drops one extra level.
pub proof fn lemma_game_drops_one_extra_level(p: Seq<char>)
    ensures
        lock_file_path_spec(Some(p), false) == lock_file_path_spec(parent_dir_spec(p), true),
{
}

/// The error that every failed directory step reports.
fn lock_file_not_found() -> (e: Error)
    ensures
        e.spec_kind() == ErrorKind::LockFileNotFound,
        e.spec_message() == "Did not follow the typical install structure"@,
        e.spec_lock_file_error(),
{
    Error::new(ErrorKind::LockFileNotFound, "Did not follow the typical install structure")
        .set_lockfile_error(true)
}

/// The directory part of `p`, if it has one.
fn parent_dir(p: &str) -> (r: Option<String>)
    ensures
        r.deep_view() == parent_dir_spec(p@),
{
    let n = p.unicode_len();
    let mut j = n;
    proof {
        assert(p@.take(n as int) =~= p@);
    }
    while j > 0
        invariant
            j <= n == p@.len(),
            parent_dir_spec(p@) == parent_dir_spec(p@.take(j as int)),
        decreases j,
    {
        proof {
            assert(p@.take(j as int).drop_last() =~= p@.take(j - 1));
            assert(p@.take(j as int).last() == p@[j - 1]);
        }
        let c = p.get_char(j - 1);
        if c == '/' || c == '\\' {
            let dir = String::from_str(p.substring_char(0, j - 1));
            proof {
                assert(dir@ =~= p@.take(j - 1));
            }
            return Some(dir);
        }
        j -= 1;
    }
    proof {
        assert(p@.take(0) =~= Seq::<char>::empty());
    }
    None
}

/// Resolve the path of the lock file from the matched process's executable
/// path: drop the file name, and for the game identity one more directory
/// level; fail with `LockFileNotFound` when a step is unavailable.
pub fn resolve_lock_file_path(exe: &Option<String>, is_client: bool) -> (r: Result<String, Error>)
    ensures
        match r {
            Ok(path) => lock_file_path_spec(exe.deep_view(), is_client) == Some(path@),
            Err(e) => {
                &&& lock_file_path_spec(exe.deep_view(), is_client) is None
                &&& e.spec_kind() == ErrorKind::LockFileNotFound
                &&& e.spec_message() == "Did not follow the typical install structure"@
                &&& e.spec_lock_file_error()
            },
        },
{
    let path = match exe {
        Some(p) => p,
        None => {
            return Err(lock_file_not_found());
        },
    };
    let mut dir = match parent_dir(path.as_str()) {
        Some(d) => d,
        None => {
            return Err(lock_file_not_found());
        },
    };
    if !is_client {
        dir = match parent_dir(dir.as_str()) {
            Some(d) => d,
            None => {
                return Err(lock_file_not_found());
            },
        };
    }
    Ok(dir.concat("/lockfile"))
}

/// Relies on `std::str::from_utf8`: it succeeds exactly on UTF-8 input and
/// yields its decoding, as vstd's UTF-8 specification states it.
#[verifier::external_body]
fn utf8_to_string(bytes: &Vec<u8>) -> (r: Option<String>)
    ensures
        r is Some <==> valid_utf8(bytes@),
        r matches Some(s) ==> s@ == decode_utf8(bytes@),
{
    match std::str::from_utf8(bytes.as_slice()) {
        Ok(s) => Some(s.to_owned()),
        Err(_) => None,
    }
}

/// What the lock-file strategy yields on decoded file content split at every
/// colon into `name:pid:port:auth_token:protocol`: the port and token
/// fields, or the kind of failure when a field is missing.
pub open spec fn lock_file_credentials(content: Seq<char>) -> Result<
    (Seq<char>, Seq<char>),
    ErrorKind,
> {
    let fields = split_spec(content, ':');
    if fields.len() <= 2 {
        Err(ErrorKind::PortNotFound)
    } else if fields.len() <= 3 {
        Err(ErrorKind::AuthTokenNotFound)
    } else {
        Ok((fields[2], fields[3]))
    }
}

/// Parse the bytes read from the lock file: validate them as UTF-8, split on
/// `:`, and take the port and auth-token fields. Every failure is marked as
/// a lock-file error.
pub fn parse_lock_file(bytes: &Vec<u8>) -> (r: Result<Credentials, Error>)
    ensures
        match r {
            Ok(c) => {
                &&& valid_utf8(bytes@)
                &&& lock_file_credentials(decode_utf8(bytes@)) == Ok::<_, ErrorKind>(
                    (c.port@, c.auth_token@),
                )
            },
            Err(e) => {
                &&& e.spec_lock_file_error()
                &&& !valid_utf8(bytes@) ==> {
                    &&& e.spec_kind() == ErrorKind::Io(IoKind::InvalidData)
                    &&& e.spec_message() == "stream did not contain valid UTF-8"@
                }
                &&& valid_utf8(bytes@) ==> {
                    &&& lock_file_credentials(decode_utf8(bytes@)) == Err::<
                        (Seq<char>, Seq<char>),
                        _,
                    >(e.spec_kind())
                    &&& e.spec_kind() == ErrorKind::PortNotFound ==> e.spec_message()
                        == "port was not found"@
                    &&& e.spec_kind() == ErrorKind::AuthTokenNotFound ==> e.spec_message()
                        == "auth token was not found"@
                }
            },
        },
{
    let content = match utf8_to_string(bytes) {
        Some(s) => s,
        None => {
            return Err(
                Error::new(
                    ErrorKind::Io(IoKind::InvalidData),
                    "stream did not contain valid UTF-8",
                ).set_lockfile_error(true),
            );
        },
    };
    let fields = split_string(content.as_str(), ':');
    if fields.len() <= 2 {
        return Err(Error::new(ErrorKind::PortNotFound, "port was not found").set_lockfile_error(true));
    }
    if fields.len() <= 3 {
        return Err(
            Error::new(ErrorKind::AuthTokenNotFound, "auth token was not found").set_lockfile_error(
                true,
            ),
        );
    }
    proof {
        assert(fields.deep_view()[2] == fields@[2]@);
        assert(fields.deep_view()[3] == fields@[3]@);
    }
    let port = fields[2].clone();
    let auth_token = fields[3].clone();
    Ok(Credentials { port, auth_token })
}

} // verus!
