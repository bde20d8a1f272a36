use vps_status::config::{pair_credentials, parse_credential, parse_credentials, Args, Config, ConfigError};

fn strings(xs: &[&str]) -> Vec<String> {
    xs.iter().map(|s| s.to_string()).collect()
}

#[test]
fn token_with_separator_splits() {
    let c = parse_credential("abc:xyz").ok().unwrap();
    assert_eq!(c.veid, "abc");
    assert_eq!(c.api_key, "xyz");
}

#[test]
fn token_splits_at_first_separator() {
    let c = parse_credential("12:k:ey").ok().unwrap();
    assert_eq!(c.veid, "12");
    assert_eq!(c.api_key, "k:ey");
}

#[test]
fn token_without_separator_is_rejected_by_name() {
    match parse_credential("abcxyz") {
        Err(e) => {
            assert!(matches!(&e, ConfigError::MalformedToken { token } if token == "abcxyz"));
            assert!(e.message().contains("abcxyz"));
        }
        Ok(_) => panic!("token without separator was accepted"),
    }
}

#[test]
fn token_list_reports_first_bad_token() {
    let tokens = strings(&["a:1", "bad", "worse"]);
    match parse_credentials(&tokens) {
        Err(ConfigError::MalformedToken { token }) => assert_eq!(token, "bad"),
        _ => panic!("expected a malformed token error"),
    }
    let good = parse_credentials(&strings(&["a:1", "b:2"])).ok().unwrap();
    assert_eq!(good.len(), 2);
    assert_eq!(good[1].veid, "b");
    assert_eq!(good[1].api_key, "2");
}

#[test]
fn mismatched_lists_name_both_lengths() {
    let veids = strings(&["1", "2"]);
    let keys = strings(&["a", "b", "c"]);
    match pair_credentials(&veids, &keys) {
        Err(e) => {
            assert!(matches!(e, ConfigError::LengthMismatch { veids: 2, api_keys: 3 }));
            assert_eq!(e.message(), "The number of veids (2) and api_keys (3) must be the same.");
        }
        Ok(_) => panic!("mismatched lists were accepted"),
    }
}

#[test]
fn equal_lists_pair_by_position_with_duplicates() {
    let args = Args { veids: strings(&["1", "1", "3"]), api_keys: strings(&["a", "b", "c"]) };
    let cfg = Config::from_args(&args).ok().unwrap();
    assert_eq!(cfg.credentials.len(), 3);
    assert_eq!(cfg.credentials[0].veid, "1");
    assert_eq!(cfg.credentials[1].veid, "1");
    assert_eq!(cfg.credentials[1].api_key, "b");
    assert_eq!(cfg.credentials[2].api_key, "c");
}

#[test]
fn empty_lists_give_no_credentials() {
    let args = Args { veids: Vec::new(), api_keys: Vec::new() };
    assert_eq!(Config::from_args(&args).ok().unwrap().credentials.len(), 0);
}

#[test]
fn other_error_messages() {
    assert_eq!(ConfigError::AlreadyInitialized.message(), "Config already initialized");
    assert_eq!(
        ConfigError::Template { detail: "syntax error".to_string() }.message(),
        "Failed to add template: syntax error"
    );
}
