use sonic_pi_tool::launcher::{
    candidate_paths, daemon_exe_path, daemon_launch_flag, parse_handshake, select_first_existing,
    LauncherError, HANDSHAKE_READ_LIMIT, HEARTBEAT_INTERVAL_SECS,
};

#[test]
fn handshake_literal_token_sequence() {
    let output = b"39097 39099 39098 39100 39101 39102 39104 2070055865".to_vec();
    let d = parse_handshake(&output).expect("documented handshake must parse");
    assert_eq!(d.daemon_port, 39097);
    assert_eq!(d.gui_port, 39099);
    assert_eq!(d.sonic_pi_port, 39098);
    assert_eq!(d.token, 2070055865);
}

#[test]
fn handshake_with_trailing_newline() {
    let output = b"39097 39099 39098 39100 39101 39102 39104 2070055865\n".to_vec();
    let d = parse_handshake(&output).expect("trailing whitespace is insignificant");
    assert_eq!(d.daemon_port, 39097);
    assert_eq!(d.token, 2070055865);
}

#[test]
fn handshake_too_few_tokens_fails() {
    let output = b"39097 39099 39098".to_vec();
    assert_eq!(parse_handshake(&output), Err(LauncherError::HandshakeUnparsable));
}

#[test]
fn handshake_non_numeric_fails() {
    let output = b"39097 oops 39098 39100 39101 39102 39104 2070055865".to_vec();
    assert_eq!(parse_handshake(&output), Err(LauncherError::HandshakeUnparsable));
}

#[test]
fn handshake_port_out_of_range_fails() {
    let output = b"70000 39099 39098 39100 39101 39102 39104 2070055865".to_vec();
    assert_eq!(parse_handshake(&output), Err(LauncherError::HandshakeUnparsable));
}

#[test]
fn handshake_empty_output_fails() {
    assert_eq!(parse_handshake(&Vec::new()), Err(LauncherError::HandshakeUnparsable));
}

#[test]
fn candidate_paths_with_home_prepends_home_location() {
    let paths = candidate_paths(Some("/home/someone"));
    assert_eq!(paths.len(), 9);
    assert_eq!(paths[0], "/home/someone/Applications/Sonic Pi.app/server/bin");
    assert_eq!(
        paths[1],
        "/Applications/Sonic Pi.app/Contents/Resources/app/server/ruby/bin"
    );
    assert_eq!(paths[8], "/usr/lib/spider/server/ruby/bin");
}

#[test]
fn candidate_paths_without_home() {
    let paths = candidate_paths(None);
    assert_eq!(paths.len(), 8);
    assert_eq!(
        paths[0],
        "/Applications/Sonic Pi.app/Contents/Resources/app/server/ruby/bin"
    );
    assert_eq!(paths[3], "./app/server/bin");
}

#[test]
fn select_first_existing_picks_first_present() {
    let paths = candidate_paths(None);
    let mut present = vec![false; paths.len()];
    present[2] = true;
    present[5] = true;
    assert_eq!(select_first_existing(&paths, &present), Ok(2));
}

#[test]
fn select_first_existing_none_present_is_not_found() {
    let paths = candidate_paths(None);
    let present = vec![false; paths.len()];
    assert_eq!(
        select_first_existing(&paths, &present),
        Err(LauncherError::NotFound)
    );
}

#[test]
fn daemon_exe_and_flag() {
    assert_eq!(daemon_exe_path("/opt/spider/app/server/bin"), "/opt/spider/app/server/bin/daemon.rb");
    assert_eq!(daemon_launch_flag(), "--no-scsynth-inputs");
}

#[test]
fn launch_constants() {
    assert_eq!(HEARTBEAT_INTERVAL_SECS, 5);
    assert_eq!(HANDSHAKE_READ_LIMIT, 1000);
}
