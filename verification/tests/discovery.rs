//! Tests of process location, the command-line strategy, and the two-phase
//! discovery flow.

use lcu_discovery::begin_discovery;
use lcu_discovery::complete_discovery;
use lcu_discovery::locator::find_process;
use lcu_discovery::locator::ProcessRecord;
use lcu_discovery::Credentials;
use lcu_discovery::DiscoveryStep;
use lcu_discovery::ErrorKind;

fn record(name: &str, cmd: &[&str], exe: Option<&str>) -> ProcessRecord {
    ProcessRecord {
        name: name.to_string(),
        cmd: cmd.iter().map(|a| a.to_string()).collect(),
        exe: exe.map(|p| p.to_string()),
    }
}

const CLIENT: &str = "LeagueClientUx.exe";
const GAME: &str = "League of Legends.exe";

#[test]
fn no_matching_process_is_not_running() {
    let snapshot = vec![
        record("init", &[], Some("/sbin/init")),
        record("browser", &["--incognito"], Some("/usr/bin/browser")),
    ];
    let err = begin_discovery(&snapshot, &CLIENT.to_string(), &GAME.to_string(), false)
        .err()
        .unwrap();
    assert_eq!(err.kind(), ErrorKind::NotRunning);
    assert_eq!(err.reason(), "neither the game or client process were running");
    assert!(!err.is_lockfile_error());
    assert!(!err.is_io_error());
}

#[test]
fn empty_snapshot_is_not_running() {
    let snapshot: Vec<ProcessRecord> = Vec::new();
    let err = begin_discovery(&snapshot, &CLIENT.to_string(), &GAME.to_string(), true)
        .err()
        .unwrap();
    assert_eq!(err.kind(), ErrorKind::NotRunning);
}

#[test]
fn find_process_reports_client_identity() {
    let snapshot = vec![
        record("init", &[], None),
        record(GAME, &[], Some("/games/lol/Game/exe")),
        record(CLIENT, &[], Some("/games/lol/exe")),
    ];
    let m = find_process(&snapshot, &CLIENT.to_string(), &GAME.to_string()).unwrap();
    assert_eq!(m.index, 1);
    assert!(!m.is_client);

    let m = find_process(&snapshot, &CLIENT.to_string(), &"other".to_string()).unwrap();
    assert_eq!(m.index, 2);
    assert!(m.is_client);
}

#[test]
fn client_command_line_gives_port_and_token() {
    let snapshot = vec![
        record("init", &[], None),
        record(
            CLIENT,
            &["--launch", "--app-port=9001", "--remoting-auth-token=SECRETTOKEN", "--extra"],
            Some("/games/lol/client.exe"),
        ),
    ];
    let step = begin_discovery(&snapshot, &CLIENT.to_string(), &GAME.to_string(), false).unwrap();
    let creds = match step {
        DiscoveryStep::Ready(c) => c,
        DiscoveryStep::ReadLockFile(p) => panic!("expected credentials, got lock file {p}"),
    };
    assert_eq!(creds.port, "9001");
    assert_eq!(creds.auth_token, "SECRETTOKEN");

    let result = complete_discovery(&creds).unwrap();
    assert_eq!(result.port, 9001);
    assert!(result.auth_header.starts_with("Basic "));
}

#[test]
fn command_line_flags_are_order_independent() {
    let orders: [&[&str]; 2] = [
        &["--app-port=1234", "--remoting-auth-token=tok"],
        &["--remoting-auth-token=tok", "--app-port=1234"],
    ];
    let mut results = Vec::new();
    for args in orders {
        let snapshot = vec![record(CLIENT, args, None)];
        let step =
            begin_discovery(&snapshot, &CLIENT.to_string(), &GAME.to_string(), false).unwrap();
        match step {
            DiscoveryStep::Ready(c) => results.push((c.port, c.auth_token)),
            DiscoveryStep::ReadLockFile(_) => panic!("expected credentials"),
        }
    }
    assert_eq!(results[0], results[1]);
    assert_eq!(results[0], ("1234".to_string(), "tok".to_string()));
}

#[test]
fn missing_port_flag_is_port_not_found() {
    let snapshot = vec![record(CLIENT, &["--remoting-auth-token=tok"], None)];
    let err = begin_discovery(&snapshot, &CLIENT.to_string(), &GAME.to_string(), false)
        .err()
        .unwrap();
    assert_eq!(err.kind(), ErrorKind::PortNotFound);
    assert_eq!(err.reason(), "port was not found");
    assert!(!err.is_lockfile_error());
}

#[test]
fn missing_token_flag_is_auth_token_not_found() {
    let snapshot = vec![record(CLIENT, &["--app-port=9001"], None)];
    let err = begin_discovery(&snapshot, &CLIENT.to_string(), &GAME.to_string(), false)
        .err()
        .unwrap();
    assert_eq!(err.kind(), ErrorKind::AuthTokenNotFound);
    assert_eq!(err.reason(), "auth token was not found");
    assert!(!err.is_lockfile_error());
}

#[test]
fn forced_client_goes_to_lock_file() {
    let snapshot = vec![
        record(
            CLIENT,
            &["--app-port=9001", "--remoting-auth-token=tok"],
            Some("/a/b/c/bin/exe"),
        ),
    ];
    let step = begin_discovery(&snapshot, &CLIENT.to_string(), &GAME.to_string(), true).unwrap();
    match step {
        DiscoveryStep::Ready(_) => panic!("expected the lock-file strategy"),
        DiscoveryStep::ReadLockFile(p) => assert_eq!(p, "/a/b/c/bin/lockfile"),
    }
}

#[test]
fn game_identity_goes_to_lock_file() {
    let snapshot = vec![record(GAME, &[], Some("/a/b/c/game/bin/exe"))];
    let step = begin_discovery(&snapshot, &CLIENT.to_string(), &GAME.to_string(), false).unwrap();
    match step {
        DiscoveryStep::Ready(_) => panic!("expected the lock-file strategy"),
        DiscoveryStep::ReadLockFile(p) => assert_eq!(p, "/a/b/c/game/lockfile"),
    }
}

#[test]
fn missing_executable_path_is_lock_file_not_found() {
    let snapshot = vec![record(GAME, &[], None)];
    let err = begin_discovery(&snapshot, &CLIENT.to_string(), &GAME.to_string(), false)
        .err()
        .unwrap();
    assert_eq!(err.kind(), ErrorKind::LockFileNotFound);
    assert_eq!(err.reason(), "Did not follow the typical install structure");
    assert!(err.is_lockfile_error());
    assert!(!err.is_io_error());
}

#[test]
fn separator_free_path_is_lock_file_not_found() {
    let snapshot = vec![record(GAME, &[], Some("exe"))];
    let err = begin_discovery(&snapshot, &CLIENT.to_string(), &GAME.to_string(), false)
        .err()
        .unwrap();
    assert_eq!(err.kind(), ErrorKind::LockFileNotFound);
    assert!(err.is_lockfile_error());
}

#[test]
fn non_numeric_port_is_port_not_found() {
    let creds = Credentials { port: "90o1".to_string(), auth_token: "tok".to_string() };
    let err = complete_discovery(&creds).err().unwrap();
    assert_eq!(err.kind(), ErrorKind::PortNotFound);
    assert_eq!(err.reason(), "invalid digit found in string");
    assert!(!err.is_lockfile_error());
}
