use envconfig::load_optional_var;
use envconfig::load_var;
use envconfig::load_var_with_default;
use envconfig::Error;
use envconfig::RawString;

fn raw(s: &str) -> RawString {
    RawString::from_text(s)
}

#[test]
fn load_var_set_and_convertible_returns_value() {
    let r = load_var::<u16>(&raw("PORT"), Some(raw("8080")));
    assert_eq!(r.unwrap(), 8080u16);
}

#[test]
fn load_var_unset_fails_with_env_var_missing() {
    let r = load_var::<u16>(&raw("PORT"), None);
    match r {
        Err(Error::EnvVarMissing { name }) => assert_eq!(name.bytes, b"PORT".to_vec()),
        _ => panic!("expected EnvVarMissing"),
    }
}

#[test]
fn load_var_unset_never_parse_error_for_other_types() {
    let r = load_var::<String>(&raw("HOME_DIR"), None);
    assert!(matches!(r, Err(Error::EnvVarMissing { .. })));
    let r = load_var::<bool>(&raw("VERBOSE"), None);
    assert!(matches!(r, Err(Error::EnvVarMissing { .. })));
}

#[test]
fn load_var_set_but_unconvertible_fails_with_parse_error() {
    let r = load_var::<u16>(&raw("PORT"), Some(raw("not-a-number")));
    match r {
        Err(Error::ParseError { name, info }) => {
            assert_eq!(name.bytes, b"PORT".to_vec());
            assert_eq!(info, "invalid digit found in string");
        }
        _ => panic!("expected ParseError"),
    }
}

#[test]
fn load_var_with_default_unset_converts_the_default() {
    let r = load_var_with_default::<u32>(&raw("TIMEOUT"), raw("30"), None);
    assert_eq!(r.unwrap(), 30u32);
}

#[test]
fn load_var_with_default_unset_with_bad_default_is_parse_error() {
    let r = load_var_with_default::<u32>(&raw("TIMEOUT"), raw("soon"), None);
    match r {
        Err(Error::ParseError { name, .. }) => assert_eq!(name.bytes, b"TIMEOUT".to_vec()),
        _ => panic!("expected ParseError, never EnvVarMissing"),
    }
}

#[test]
fn load_var_with_default_set_ignores_the_default() {
    let r = load_var_with_default::<u32>(&raw("TIMEOUT"), raw("30"), Some(raw("99")));
    assert_eq!(r.unwrap(), 99u32);
}

#[test]
fn load_var_with_default_set_but_unconvertible_is_parse_error() {
    let r = load_var_with_default::<u32>(&raw("TIMEOUT"), raw("30"), Some(raw("nope")));
    assert!(matches!(r, Err(Error::ParseError { .. })));
}

#[test]
fn load_optional_var_unset_is_ok_none() {
    let r = load_optional_var::<String>(&raw("NICKNAME"), None);
    assert!(matches!(r, Ok(None)));
    let r = load_optional_var::<u64>(&raw("LIMIT"), None);
    assert!(matches!(r, Ok(None)));
}

#[test]
fn load_optional_var_set_and_convertible_is_ok_some() {
    let r = load_optional_var::<String>(&raw("NICKNAME"), Some(raw("kim")));
    assert_eq!(r.unwrap(), Some(String::from("kim")));
}

#[test]
fn load_optional_var_set_but_unconvertible_is_parse_error_not_none() {
    let r = load_optional_var::<u16>(&raw("PORT"), Some(raw("abc")));
    match r {
        Err(Error::ParseError { name, .. }) => assert_eq!(name.bytes, b"PORT".to_vec()),
        _ => panic!("expected ParseError, never Ok(None)"),
    }
}
