use ogcapi_services::auth::{
    authorize, check_basic_scheme, check_header_value, decide, needs_configuration, present,
    CredentialCache, CredentialPair, Decision, Method,
};
use ogcapi_services::status::{INTERNAL_SERVER_ERROR, UNAUTHORIZED};

const UNSAFE_METHODS: [Method; 8] = [
    Method::Options,
    Method::Post,
    Method::Put,
    Method::Delete,
    Method::Trace,
    Method::Connect,
    Method::Patch,
    Method::Extension,
];

fn pair(username: &str, password: &str) -> CredentialPair {
    CredentialPair { username: username.to_string(), password: password.to_string() }
}

fn reject(status: u16, message: &str) -> Decision {
    Decision::Reject { status, message: message.to_string() }
}

fn user() -> Option<String> {
    Some("user".to_string())
}

fn pass() -> Option<String> {
    Some("pass".to_string())
}

#[test]
fn only_get_and_head_are_safe() {
    assert!(Method::Get.is_safe());
    assert!(Method::Head.is_safe());
    for method in UNSAFE_METHODS {
        assert!(!method.is_safe());
    }
}

#[test]
fn safe_methods_pass_without_header() {
    for method in [Method::Get, Method::Head] {
        let mut cache = CredentialCache::new();
        assert_eq!(authorize(method, None, &mut cache, None, None), Decision::Admit);
        assert!(!cache.is_initialized());
    }
}

#[test]
fn safe_methods_pass_with_any_header() {
    let headers: [&[u8]; 4] = [b"Basic dXNlcjpwYXNz", b"Basic !!!", b"Bearer token", b"\n"];
    for method in [Method::Get, Method::Head] {
        for header in headers {
            let mut cache = CredentialCache::new();
            assert_eq!(authorize(method, Some(header), &mut cache, user(), pass()), Decision::Admit);
            assert!(!cache.is_initialized());
        }
    }
}

#[test]
fn unsafe_methods_without_header_get_401() {
    for method in UNSAFE_METHODS {
        let mut cache = CredentialCache::new();
        let decision = authorize(method, None, &mut cache, user(), pass());
        assert_eq!(decision, reject(401, "Basic authorization required"));
        assert!(!cache.is_initialized());
    }
}

#[test]
fn unsafe_methods_without_header_get_401_even_unconfigured() {
    let mut cache = CredentialCache::new();
    let decision = authorize(Method::Delete, None, &mut cache, None, None);
    assert_eq!(decision, reject(UNAUTHORIZED, "Basic authorization required"));
}

#[test]
fn matching_credentials_are_admitted() {
    for method in UNSAFE_METHODS {
        let mut cache = CredentialCache::new();
        let decision = authorize(method, Some(b"Basic dXNlcjpwYXNz"), &mut cache, user(), pass());
        assert_eq!(decision, Decision::Admit);
        assert_eq!(cache.get(), Some(&pair("user", "pass")));
    }
}

#[test]
fn other_credentials_get_401() {
    // "user:wrong", "other:pass", "user:pass " and "User:pass"
    let headers: [&[u8]; 4] = [
        b"Basic dXNlcjp3cm9uZw==",
        b"Basic b3RoZXI6cGFzcw==",
        b"Basic dXNlcjpwYXNzIA==",
        b"Basic VXNlcjpwYXNz",
    ];
    for header in headers {
        let mut cache = CredentialCache::new();
        let decision = authorize(Method::Post, Some(header), &mut cache, user(), pass());
        assert_eq!(decision, reject(401, "Invalid credentials"));
        assert_eq!(cache.get(), Some(&pair("user", "pass")));
    }
}

#[test]
fn undecodable_headers_get_401() {
    let headers: [&[u8]; 9] = [
        b"",
        b"Basic",
        b"Basic ",
        b"Basic      ",
        b"Basic dXNlcjpwYXNz!",
        b"Basic dXNlcnBhc3M=",
        b"Bearer dXNlcjpwYXNz",
        b"basic dXNlcjpwYXNz",
        b"Basic dXNlcjpwYXNz\n",
    ];
    for header in headers {
        let mut cache = CredentialCache::new();
        let decision = authorize(Method::Put, Some(header), &mut cache, user(), pass());
        assert_eq!(decision, reject(401, "Invalid credentials"));
    }
}

#[test]
fn spaces_before_the_credentials_are_skipped() {
    let mut cache = CredentialCache::new();
    let decision = authorize(Method::Post, Some(b"Basic   dXNlcjpwYXNz"), &mut cache, user(), pass());
    assert_eq!(decision, Decision::Admit);
}

#[test]
fn missing_configuration_gets_500_until_supplied() {
    let header: &[u8] = b"Basic dXNlcjpwYXNz";
    let mut cache = CredentialCache::new();
    let unset = reject(INTERNAL_SERVER_ERROR, "Credentials must be set");
    assert_eq!(authorize(Method::Post, Some(header), &mut cache, None, None), unset);
    assert!(!cache.is_initialized());
    assert_eq!(authorize(Method::Post, Some(header), &mut cache, user(), None), unset);
    assert!(!cache.is_initialized());
    assert_eq!(authorize(Method::Post, Some(header), &mut cache, None, pass()), unset);
    assert!(!cache.is_initialized());
    assert_eq!(authorize(Method::Post, Some(header), &mut cache, user(), pass()), Decision::Admit);
    assert!(cache.is_initialized());
}

#[test]
fn missing_configuration_comes_before_bad_credentials() {
    let mut cache = CredentialCache::new();
    let decision = authorize(Method::Post, Some(b"Bearer token"), &mut cache, None, None);
    assert_eq!(decision, reject(500, "Credentials must be set"));
}

#[test]
fn cached_pair_outlives_the_configuration() {
    let header: &[u8] = b"Basic dXNlcjpwYXNz";
    let mut cache = CredentialCache::new();
    assert_eq!(authorize(Method::Post, Some(header), &mut cache, user(), pass()), Decision::Admit);
    assert_eq!(authorize(Method::Post, Some(header), &mut cache, None, None), Decision::Admit);
    let changed = authorize(
        Method::Post,
        Some(header),
        &mut cache,
        Some("other".to_string()),
        Some("secret".to_string()),
    );
    assert_eq!(changed, Decision::Admit);
    assert_eq!(cache.get(), Some(&pair("user", "pass")));
}

#[test]
fn initializing_twice_keeps_the_first_pair() {
    let mut cache = CredentialCache::new();
    assert!(cache.get().is_none());
    assert!(cache.try_init(user(), pass()));
    assert_eq!(cache.get(), Some(&pair("user", "pass")));
    assert!(cache.try_init(user(), pass()));
    assert_eq!(cache.get(), Some(&pair("user", "pass")));
    assert!(cache.try_init(Some("x".to_string()), Some("y".to_string())));
    assert_eq!(cache.get(), Some(&pair("user", "pass")));
    assert!(cache.try_init(None, None));
    assert_eq!(cache.get(), Some(&pair("user", "pass")));
}

#[test]
fn failed_initialization_is_not_kept() {
    let mut cache = CredentialCache::new();
    assert!(!cache.try_init(None, pass()));
    assert!(!cache.try_init(user(), None));
    assert!(!cache.try_init(None, None));
    assert!(!cache.is_initialized());
    assert!(cache.try_init(user(), pass()));
}

#[test]
fn username_with_colon_never_matches() {
    // "a:b:c" splits at the first colon, so it presents "a" and "b:c".
    let mut cache = CredentialCache::new();
    let decision = authorize(
        Method::Post,
        Some(b"Basic YTpiOmM="),
        &mut cache,
        Some("a:b".to_string()),
        Some("c".to_string()),
    );
    assert_eq!(decision, reject(401, "Invalid credentials"));
    let mut cache = CredentialCache::new();
    let decision = authorize(
        Method::Post,
        Some(b"Basic YTpiOmM="),
        &mut cache,
        Some("a".to_string()),
        Some("b:c".to_string()),
    );
    assert_eq!(decision, Decision::Admit);
}

#[test]
fn present_decodes_username_and_password() {
    assert_eq!(present(b"Basic QWxhZGRpbjpvcGVuIHNlc2FtZQ=="), Some(pair("Aladdin", "open sesame")));
    assert_eq!(present(b"Basic QWxhZGRpbjo="), Some(pair("Aladdin", "")));
    assert_eq!(present(b"Basic OnBhc3M="), Some(pair("", "pass")));
    assert_eq!(present(b"Basic QWxhZGRpbg=="), None);
    assert_eq!(present(b"Digest QWxhZGRpbjo="), None);
    assert_eq!(present(b"Basic\tQWxhZGRpbjo="), None);
    // bytes that are no UTF-8
    assert_eq!(present(b"Basic /zo6"), None);
}

#[test]
fn header_value_bytes() {
    assert!(check_header_value(b""));
    assert!(check_header_value(b"Basic dXNlcjpwYXNz"));
    assert!(check_header_value(b"a\tb"));
    assert!(check_header_value(&[32, 126, 128, 255]));
    assert!(!check_header_value(&[127]));
    assert!(!check_header_value(&[31]));
    assert!(!check_header_value(&[0]));
    assert!(!check_header_value(b"a\nb"));
    assert!(!check_header_value(b"abc\r"));
    for b in 0..=255u8 {
        let expected = (b >= 32 && b != 127) || b == 9;
        assert_eq!(check_header_value(&[b]), expected);
        assert_eq!(check_header_value(&[65, b, 66]), expected);
    }
}

#[test]
fn basic_scheme_prefix() {
    assert!(check_basic_scheme(b"Basic "));
    assert!(check_basic_scheme(b"Basic dXNlcjpwYXNz"));
    assert!(!check_basic_scheme(b""));
    assert!(!check_basic_scheme(b"Basic"));
    assert!(!check_basic_scheme(b"Basic\t"));
    assert!(!check_basic_scheme(b"basic "));
    assert!(!check_basic_scheme(b"BASIC "));
    assert!(!check_basic_scheme(b" Basic "));
    assert!(!check_basic_scheme(b"Basid dXNlcjpwYXNz"));
    assert!(!check_basic_scheme(b"Bearer dXNlcjpwYXNz"));
}

#[test]
fn decide_covers_the_policy() {
    let expected = pair("user", "pass");
    let same = pair("user", "pass");
    let other = pair("user", "word");
    for method in [Method::Get, Method::Head] {
        assert_eq!(decide(method, false, None, None), Decision::Admit);
        assert_eq!(decide(method, true, None, Some(&other)), Decision::Admit);
        assert_eq!(decide(method, true, Some(&expected), Some(&other)), Decision::Admit);
    }
    for method in UNSAFE_METHODS {
        let required = reject(401, "Basic authorization required");
        assert_eq!(decide(method, false, None, None), required);
        assert_eq!(decide(method, false, Some(&expected), Some(&same)), required);
        let unset = reject(500, "Credentials must be set");
        assert_eq!(decide(method, true, None, None), unset);
        assert_eq!(decide(method, true, None, Some(&same)), unset);
        let invalid = reject(401, "Invalid credentials");
        assert_eq!(decide(method, true, Some(&expected), None), invalid);
        assert_eq!(decide(method, true, Some(&expected), Some(&other)), invalid);
        assert_eq!(decide(method, true, Some(&expected), Some(&pair("pass", "user"))), invalid);
        assert_eq!(decide(method, true, Some(&expected), Some(&same)), Decision::Admit);
    }
}

#[test]
fn configuration_is_consulted_only_when_needed() {
    let empty = CredentialCache::new();
    let mut full = CredentialCache::new();
    full.try_init(user(), pass());
    assert!(needs_configuration(Method::Post, true, &empty));
    assert!(needs_configuration(Method::Delete, true, &empty));
    assert!(!needs_configuration(Method::Post, false, &empty));
    assert!(!needs_configuration(Method::Get, true, &empty));
    assert!(!needs_configuration(Method::Head, false, &empty));
    assert!(!needs_configuration(Method::Post, true, &full));
    assert!(!needs_configuration(Method::Post, false, &full));
}
