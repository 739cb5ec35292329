use sonic_pi_tool::config::{parse_cfg, serialize_cfg, ConfigError, SonicPiToolCfg};

#[test]
fn round_trip_reproduces_all_fields() {
    let d = SonicPiToolCfg::new(2070055865, 39098, 39097, 39099);
    let bytes = serialize_cfg(&d);
    let back = parse_cfg(&bytes).expect("canonical serialized form must parse");
    assert_eq!(back.token, 2070055865);
    assert_eq!(back.sonic_pi_port, 39098);
    assert_eq!(back.daemon_port, 39097);
    assert_eq!(back.gui_port, 39099);
    assert_eq!(back, d);
}

#[test]
fn round_trip_negative_token() {
    let d = SonicPiToolCfg::new(-2147483648, 1, 65535, 0);
    let back = parse_cfg(&serialize_cfg(&d)).expect("negative token must round-trip");
    assert_eq!(back, d);
}

#[test]
fn round_trip_extreme_ports() {
    let d = SonicPiToolCfg::new(2147483647, 65535, 0, 65535);
    let back = parse_cfg(&serialize_cfg(&d)).expect("extreme ports must round-trip");
    assert_eq!(back, d);
}

#[test]
fn serialized_form_is_the_expected_text() {
    let d = SonicPiToolCfg::new(2070055865, 39098, 39097, 39099);
    let bytes = serialize_cfg(&d);
    let expected = "token = 2070055865\nsonic_pi_port = 39098\ndaemon_port = 39097\ngui_port = 39099\n";
    assert_eq!(bytes, expected.as_bytes().to_vec());
}

#[test]
fn serialized_form_is_valid_toml() {
    let d = SonicPiToolCfg::new(-12345, 4560, 4557, 4558);
    let bytes = serialize_cfg(&d);
    let text = String::from_utf8(bytes).expect("session file is ASCII");
    let v: toml::Table = text.parse().expect("session file must be well-formed toml");
    assert_eq!(v.get("token").unwrap().as_integer().unwrap(), -12345);
    assert_eq!(v.get("sonic_pi_port").unwrap().as_integer().unwrap(), 4560);
    assert_eq!(v.get("daemon_port").unwrap().as_integer().unwrap(), 4557);
    assert_eq!(v.get("gui_port").unwrap().as_integer().unwrap(), 4558);
}

#[test]
fn missing_token_field_is_malformed() {
    let text = "sonic_pi_port = 39098\ndaemon_port = 39097\ngui_port = 39099\n";
    let r = parse_cfg(&text.as_bytes().to_vec());
    assert_eq!(r, Err(ConfigError::Malformed));
}

#[test]
fn empty_file_is_malformed() {
    assert_eq!(parse_cfg(&Vec::new()), Err(ConfigError::Malformed));
}

#[test]
fn garbage_is_malformed() {
    let r = parse_cfg(&b"not a session file at all".to_vec());
    assert_eq!(r, Err(ConfigError::Malformed));
}

#[test]
fn out_of_range_port_is_malformed() {
    let text = "token = 1\nsonic_pi_port = 65536\ndaemon_port = 39097\ngui_port = 39099\n";
    let r = parse_cfg(&text.as_bytes().to_vec());
    assert_eq!(r, Err(ConfigError::Malformed));
}

#[test]
fn fields_parse_in_any_order() {
    let text = "gui_port = 39099\ntoken = 1\ndaemon_port = 39097\nsonic_pi_port = 39098\n";
    let back = parse_cfg(&text.as_bytes().to_vec()).expect("field order is free");
    assert_eq!(back, SonicPiToolCfg::new(1, 39098, 39097, 39099));
}

#[test]
fn duplicate_field_is_malformed() {
    // a second token line crowds out one of the other fields
    let text = "token = 1\ntoken = 2\ndaemon_port = 39097\ngui_port = 39099\n";
    let r = parse_cfg(&text.as_bytes().to_vec());
    assert_eq!(r, Err(ConfigError::Malformed));
}

#[test]
fn unknown_field_is_malformed() {
    let text = "token = 1\nsonic_pi_port = 39098\ndaemon_port = 39097\nosc_port = 39099\n";
    let r = parse_cfg(&text.as_bytes().to_vec());
    assert_eq!(r, Err(ConfigError::Malformed));
}

#[test]
fn parse_tolerates_extra_whitespace() {
    let text = "  token   =  7\n\nsonic_pi_port = 1\r\ndaemon_port =\t2\ngui_port = 3\n";
    let back = parse_cfg(&text.as_bytes().to_vec()).expect("whitespace is insignificant");
    assert_eq!(back, SonicPiToolCfg::new(7, 1, 2, 3));
}

#[test]
fn default_cfg_paths() {
    assert_eq!(
        SonicPiToolCfg::get_default_cfg_folder("/home/someone"),
        "/home/someone/.sonic-pi/tool"
    );
    assert_eq!(
        SonicPiToolCfg::get_default_cfg_file_path("/home/someone"),
        "/home/someone/.sonic-pi/tool/config.toml"
    );
}
