use vredditor::proto::Token;
use vredditor::token::{Authorizer, EnvAuthorizer};

#[test]
fn authorizes_listed_keys_only() {
    // "YWJj" is "abc", "ZGVm" is "def"
    let a = EnvAuthorizer::from_keys("KEYS", "YWJj,ZGVm").unwrap();
    assert!(a.is_authorized(&Token::V1(b"abc".to_vec())));
    assert!(a.is_authorized(&Token::V1(b"def".to_vec())));
    assert!(!a.is_authorized(&Token::V1(b"xyz".to_vec())));
    // the encoded text itself is not a key
    assert!(!a.is_authorized(&Token::V1(b"YWJj".to_vec())));
}

#[test]
fn duplicate_keys_are_one_key() {
    let a = EnvAuthorizer::from_keys("KEYS", "YWJj,YWJj").unwrap();
    assert!(a.is_authorized(&Token::V1(b"abc".to_vec())));
}

#[test]
fn undecodable_key_is_refused() {
    assert_eq!(
        EnvAuthorizer::from_keys("KEYS", "YWJj,!!!").unwrap_err(),
        "one or more tokens failed to decode"
    );
}

#[test]
fn absent_variable_is_refused() {
    assert_eq!(
        EnvAuthorizer::from_env_value("VR_AUTHORIZED_KEYS", None).unwrap_err(),
        "expected VR_AUTHORIZED_KEYS to contain authorized keys. it contains nothing."
    );
}

#[test]
fn empty_variable_authorizes_the_empty_token() {
    let a = EnvAuthorizer::from_env_value("K", Some(String::new())).unwrap();
    assert!(a.is_authorized(&Token::V1(vec![])));
    assert!(!a.is_authorized(&Token::V1(vec![0])));
}

#[test]
fn cloned_authorizer_holds_the_same_keys() {
    let a = EnvAuthorizer::from_keys("KEYS", "YWJj,ZGVm").unwrap();
    let b = a.clone();
    assert!(b.is_authorized(&Token::V1(b"abc".to_vec())));
    assert!(b.is_authorized(&Token::V1(b"def".to_vec())));
    assert!(!b.is_authorized(&Token::V1(b"xyz".to_vec())));
}
