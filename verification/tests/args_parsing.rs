use workspace_gallery::args::{parse_args, parse_port, usize_to_string, DEFAULT_PORT};

fn argv(parts: &[&str]) -> Vec<String> {
    parts.iter().map(|s| s.to_string()).collect()
}

#[test]
fn test_no_argument_selects_default_port() {
    assert_eq!(DEFAULT_PORT, 22113);
    assert_eq!(parse_args(&argv(&["server"])), Ok(22113));
}

#[test]
fn test_single_argument_is_the_port() {
    assert_eq!(parse_args(&argv(&["server", "8080"])), Ok(8080));
    assert_eq!(parse_args(&argv(&["server", "65535"])), Ok(65535));
    assert_eq!(parse_args(&argv(&["server", "+80"])), Ok(80));
    assert_eq!(parse_args(&argv(&["server", "0080"])), Ok(80));
}

#[test]
fn test_bad_port_is_reported() {
    assert_eq!(
        parse_args(&argv(&["server", "not-a-port"])),
        Err("invalid port: not-a-port".to_string())
    );
    assert_eq!(
        parse_args(&argv(&["server", "65536"])),
        Err("invalid port: 65536".to_string())
    );
    assert_eq!(
        parse_args(&argv(&["server", ""])),
        Err("invalid port: ".to_string())
    );
}

#[test]
fn test_too_many_arguments_are_refused() {
    assert_eq!(
        parse_args(&argv(&["server", "8080", "extra"])),
        Err("invalid arg num: 3".to_string())
    );
    assert_eq!(parse_args(&argv(&[])), Err("invalid arg num: 0".to_string()));
}

#[test]
fn test_port_parsing_matches_std() {
    for s in ["0", "1", "80", "22113", "65535", "+65535", "007"] {
        assert_eq!(parse_port(s), s.parse::<u16>().ok(), "input {:?}", s);
    }
    for s in ["", "+", "-1", "65536", "99999", "8 0", " 80", "80 ", "8a", "0x50"] {
        assert_eq!(parse_port(s), None, "input {:?}", s);
        assert!(s.parse::<u16>().is_err(), "input {:?}", s);
    }
}

#[test]
fn test_decimal_rendering() {
    assert_eq!(usize_to_string(0), "0");
    assert_eq!(usize_to_string(7), "7");
    assert_eq!(usize_to_string(100), "100");
    assert_eq!(usize_to_string(22113), "22113");
}
