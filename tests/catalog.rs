use interop::assertion::TestAssertion;
use interop::endpoint::ServerEndpoint;
use interop::run::{resolve, resolve_all, Run, SetupError};
use interop::testcase::{from_name, Testcase};

#[test]
fn names_round_trip() {
    let all = Testcase::variants();
    assert_eq!(all.len(), 23);
    for t in all {
        assert_eq!(from_name(t.name()), Some(t));
    }
    assert_eq!(from_name("large_unary"), Some(Testcase::LargeUnary));
    assert_eq!(from_name("no_such_case"), None);
    assert_eq!(from_name(""), None);
}

#[test]
fn credential_cases_not_supported() {
    for name in ["compute_engine_creds", "jwt_token_creds", "oauth2_auth_token", "per_rpc_creds"] {
        match resolve(name) {
            Err(SetupError::NotSupported(t)) => assert_eq!(t.name(), name),
            _ => panic!("expected not supported"),
        }
    }
    assert!(!Testcase::JwtTokenCreds.is_supported());
    assert!(Testcase::EmptyUnary.is_supported());
}

#[test]
fn unknown_name_aborts_resolution() {
    match resolve("bogus") {
        Err(SetupError::UnknownTestcase(n)) => assert_eq!(n, "bogus"),
        _ => panic!("expected unknown"),
    }
    let names = vec!["empty_unary".to_string(), "bogus".to_string(), "per_rpc_creds".to_string()];
    assert!(matches!(resolve_all(&names), Err(SetupError::UnknownTestcase(n)) if n == "bogus"));
    let names = vec!["empty_unary".to_string(), "per_rpc_creds".to_string()];
    assert!(matches!(resolve_all(&names), Err(SetupError::NotSupported(Testcase::PerRpcCreds))));
    assert!(Run::from_names(&names).is_err());
}

#[test]
fn run_records_in_order() {
    let names = vec!["large_unary".to_string(), "empty_unary".to_string()];
    let mut run = Run::from_names(&names).ok().unwrap();
    assert_eq!(run.next_case(), Some(Testcase::LargeUnary));
    run.record(vec![TestAssertion::Passed { description: "call must be successful" }]);
    assert_eq!(run.next_case(), Some(Testcase::EmptyUnary));
    assert!(!run.is_complete());
    run.record(vec![]);
    assert_eq!(run.next_case(), None);
    assert!(run.is_complete());
    assert_eq!(run.results[0].0, Testcase::LargeUnary);
    assert_eq!(run.results[1].0, Testcase::EmptyUnary);
}

#[test]
fn endpoint_uri_and_authority() {
    let e = ServerEndpoint::new("127.0.0.1".to_string(), 10000, None);
    assert_eq!(e.uri(), "http://127.0.0.1:10000");
    assert_eq!(e.authority(), "127.0.0.1");
    let e = ServerEndpoint::new("localhost".to_string(), 8, Some("foo.test.google.fr".to_string()));
    assert_eq!(e.uri(), "http://localhost:8");
    assert_eq!(e.authority(), "foo.test.google.fr");
    assert_eq!(ServerEndpoint::new("h".to_string(), 65535, None).uri(), "http://h:65535");
    assert_eq!(ServerEndpoint::new("h".to_string(), 0, None).uri(), "http://h:0");
}
