use sonic_pi_tool::config::SonicPiToolCfg;
use sonic_pi_tool::messages::{
    encode_message, eval, run_code, send_keep_live, server_port_in_use, start_recording, stop,
    stop_all_jobs, stop_and_save_recording,
};

fn cfg() -> SonicPiToolCfg {
    SonicPiToolCfg::new(2070055865, 39098, 39097, 39099)
}

#[test]
fn run_code_message_shape() {
    let m = run_code(&cfg(), "play 60".to_string());
    assert_eq!(m.addr, "/run-code");
    assert_eq!(m.token, 2070055865);
    assert_eq!(m.text.as_deref(), Some("play 60"));
    assert_eq!(m.port, 39098);
}

#[test]
fn eval_builds_a_run_code_message() {
    let m = eval(&cfg(), "sleep 1".to_string());
    assert_eq!(m.addr, "/run-code");
    assert_eq!(m.text.as_deref(), Some("sleep 1"));
    assert_eq!(m.port, 39098);
}

#[test]
fn stop_all_jobs_message_shape() {
    let m = stop_all_jobs(&cfg());
    assert_eq!(m.addr, "/stop-all-jobs");
    assert_eq!(m.token, 2070055865);
    assert!(m.text.is_none());
    assert_eq!(m.port, 39098);
}

#[test]
fn stop_builds_a_stop_all_jobs_message() {
    let m = stop(&cfg());
    assert_eq!(m.addr, "/stop-all-jobs");
    assert_eq!(m.port, 39098);
}

#[test]
fn start_recording_message_shape() {
    let m = start_recording(&cfg());
    assert_eq!(m.addr, "/start-recording");
    assert_eq!(m.token, 2070055865);
    assert!(m.text.is_none());
    assert_eq!(m.port, 39098);
}

#[test]
fn stop_and_save_emits_stop_then_save_with_path() {
    let (first, second) = stop_and_save_recording(&cfg(), "/tmp/out.wav".to_string());
    assert_eq!(first.addr, "/stop-recording");
    assert_eq!(first.token, 2070055865);
    assert!(first.text.is_none());
    assert_eq!(first.port, 39098);
    assert_eq!(second.addr, "/save-recording");
    assert_eq!(second.token, 2070055865);
    assert_eq!(second.text.as_deref(), Some("/tmp/out.wav"));
    assert_eq!(second.port, 39098);
}

#[test]
fn heartbeat_targets_daemon_port_never_control_port() {
    let c = SonicPiToolCfg::new(7, 39098, 39097, 39099);
    let m = send_keep_live(&c);
    assert_eq!(m.addr, "/daemon/keep-alive");
    assert_eq!(m.token, 7);
    assert!(m.text.is_none());
    assert_eq!(m.port, c.daemon_port);
    assert_ne!(m.port, c.sonic_pi_port);
}

#[test]
fn encode_matches_hand_computed_osc_bytes() {
    let c = SonicPiToolCfg::new(1, 4560, 4557, 4558);
    let m = stop_all_jobs(&c);
    let bytes = encode_message(&m);
    let mut expected: Vec<u8> = Vec::new();
    expected.extend_from_slice(b"/stop-all-jobs\0\0");
    expected.extend_from_slice(b",i\0\0");
    expected.extend_from_slice(&[0, 0, 0, 1]);
    assert_eq!(bytes, expected);
}

#[test]
fn encode_with_string_argument_matches_hand_computed_bytes() {
    let c = SonicPiToolCfg::new(2, 4560, 4557, 4558);
    let m = run_code(&c, "x".to_string());
    let bytes = encode_message(&m);
    let mut expected: Vec<u8> = Vec::new();
    expected.extend_from_slice(b"/run-code\0\0\0");
    expected.extend_from_slice(b",is\0");
    expected.extend_from_slice(&[0, 0, 0, 2]);
    expected.extend_from_slice(b"x\0\0\0");
    assert_eq!(bytes, expected);
}

#[test]
fn encode_agrees_with_the_osc_encoder() {
    let m = send_keep_live(&cfg());
    let bytes = encode_message(&m);
    let direct = rosc::encoder::encode(&rosc::OscPacket::Message(rosc::OscMessage {
        addr: "/daemon/keep-alive".to_string(),
        args: vec![rosc::OscType::Int(2070055865)],
    }))
    .unwrap();
    assert_eq!(bytes, direct);
}

#[test]
fn port_probe_interprets_bind_outcome() {
    // a failed bind on the port means something owns it
    assert!(server_port_in_use(true));
    // a successful bind means nothing is listening
    assert!(!server_port_in_use(false));
}
