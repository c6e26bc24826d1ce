//! Locating the client or game process in a snapshot of running processes.
//!
//! The snapshot itself is taken by the caller (it is a read of the machine);
//! the library receives it as plain records and performs the name match.

use vstd::prelude::*;
use crate::errors::Error;
use crate::errors::ErrorKind;

verus! {

/// One process of a point-in-time snapshot: its name, its command-line
/// arguments (those that are valid text), and its executable path where the
/// platform exposes one.
pub struct ProcessRecord {
    pub name: String,
    pub cmd: Vec<String>,
    pub exe: Option<String>,
}

/// The outcome of locating: which snapshot entry matched, and whether it was
/// the client-named process (as opposed to the game-named one).
#[derive(Clone, Copy)]
pub struct MatchedProcess {
    pub index: usize,
    pub is_client: bool,
}

/// Whether `p` bears either target name.
pub open spec fn name_matches(p: ProcessRecord, client_name: Seq<char>, game_name: Seq<char>) -> bool {
    p.name@ == client_name || p.name@ == game_name
}

/// The first entry at or after `i` bearing either target name, with its
/// client flag.
pub open spec fn first_match_from(
    snapshot: Seq<ProcessRecord>,
    client_name: Seq<char>,
    game_name: Seq<char>,
    i: int,
) -> Option<(int, bool)>
    decreases snapshot.len() - i,
{
    if i < 0 || i >= snapshot.len() {
        None
    } else if name_matches(snapshot[i], client_name, game_name) {
        Some((i, snapshot[i].name@ == client_name))
    } else {
        first_match_from(snapshot, client_name, game_name, i + 1)
    }
}

/// The first entry bearing either target name, with its client flag.
pub open spec fn first_match(
    snapshot: Seq<ProcessRecord>,
    client_name: Seq<char>,
    game_name: Seq<char>,
) -> Option<(int, bool)> {
    first_match_from(snapshot, client_name, game_name, 0)
}

/// There is no match from `i` on exactly when no entry from `i` on bears
/// either name.
pub proof fn lemma_first_match_from_none(
    snapshot: Seq<ProcessRecord>,
    client_name: Seq<char>,
    game_name: Seq<char>,
    i: int,
)
    requires
        0 <= i <= snapshot.len(),
    ensures
        first_match_from(snapshot, client_name, game_name, i) is None <==> (forall|j: int|
            i <= j < snapshot.len() ==> !name_matches(snapshot[j], client_name, game_name)),
    decreases snapshot.len() - i,
{
    if i < snapshot.len() {
        lemma_first_match_from_none(snapshot, client_name, game_name, i + 1);
    }
}

/// No snapshot entry bears either target name exactly when locating fails.
pub proof fn lemma_first_match_none(
    snapshot: Seq<ProcessRecord>,
    client_name: Seq<char>,
    game_name: Seq<char>,
)
    ensures
        first_match(snapshot, client_name, game_name) is None <==> (forall|j: int|
            0 <= j < snapshot.len() ==> !name_matches(snapshot[j], client_name, game_name)),
{
    lemma_first_match_from_none(snapshot, client_name, game_name, 0);
}

/// Find the first process whose name equals either target, recording whether
/// the client name matched; fail with `NotRunning` when neither name occurs.
pub fn find_process(
    snapshot: &Vec<ProcessRecord>,
    client_name: &String,
    game_name: &String,
) -> (r: Result<MatchedProcess, Error>)
    ensures
        match r {
            Ok(m) => {
                &&& m.index < snapshot@.len()
                &&& first_match(snapshot@, client_name@, game_name@) == Some(
                    (m.index as int, m.is_client),
                )
            },
            Err(e) => {
                &&& first_match(snapshot@, client_name@, game_name@) is None
                &&& e.spec_kind() == ErrorKind::NotRunning
                &&& e.spec_message() == "neither the game or client process were running"@
                &&& !e.spec_lock_file_error()
            },
        },
{
    let n = snapshot.len();
    let mut i: usize = 0;
    while i < n
        invariant
            i <= n == snapshot@.len(),
            first_match(snapshot@, client_name@, game_name@) == first_match_from(
                snapshot@,
                client_name@,
                game_name@,
                i as int,
            ),
        decreases n - i,
    {
        let p = &snapshot[i];
        let is_client = p.name.eq(client_name);
        if is_client || p.name.eq(game_name) {
            return Ok(MatchedProcess { index: i, is_client });
        }
        i += 1;
    }
    Err(Error::new(ErrorKind::NotRunning, "neither the game or client process were running"))
}

} // verus!
