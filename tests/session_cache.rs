use homebridge_exporter::session::{Session, Token, TokenStep};

fn token(access: &str, expires_in: u64) -> Token {
    Token {
        access_token: String::from(access),
        token_type: String::from("Bearer"),
        expires_in,
    }
}

fn session() -> Session {
    Session::new(
        String::from("admin"),
        String::from("secret"),
        String::from("http://localhost:8581"),
    )
}

fn cached(step: TokenStep) -> Option<String> {
    match step {
        TokenStep::Cached(t) => Some(t),
        TokenStep::Login { .. } | TokenStep::Wait(_) => None,
    }
}

#[test]
fn new_session_holds_no_credential() {
    let mut s = session();
    assert!(!s.is_valid());
    assert!(!s.is_valid_at(0));
    match s.token_step_at(100) {
        TokenStep::Login { username, password, uri } => {
            assert_eq!(username, "admin");
            assert_eq!(password, "secret");
            assert_eq!(uri, "http://localhost:8581");
        }
        _ => panic!("a new session has no token"),
    }
}

#[test]
fn scrapes_within_lifetime_log_in_once() {
    let mut s = session();
    let mut logins = 0;
    for now in [1000u64, 1000, 4599, 4600] {
        match s.token_step_at(now) {
            TokenStep::Cached(t) => assert_eq!(t, "abc"),
            TokenStep::Wait(_) => panic!("no refresh is under way"),
            TokenStep::Login { .. } => {
                logins += 1;
                let r = s.complete_login_at(Ok(token("abc", 3600)), now);
                assert_eq!(r, Ok(String::from("abc")));
            }
        }
        if now == 4599 {
            assert_eq!(logins, 1);
        }
    }
    assert_eq!(logins, 2);
    assert_eq!(s.created_at, 4600);
    assert_eq!(s.expires_in, 3600);
}

#[test]
fn token_is_valid_strictly_before_expiry() {
    let mut s = session();
    s.complete_login_at(Ok(token("abc", 10)), 50).unwrap();
    assert!(s.is_valid_at(50));
    assert!(s.is_valid_at(59));
    assert!(!s.is_valid_at(60));
    assert!(s.is_valid_at(40));
    assert_eq!(cached(s.token_step_at(59)), Some(String::from("abc")));
    assert_eq!(cached(s.token_step_at(60)), None);
    // the expired token was dropped
    assert!(!s.is_valid_at(59));
}

#[test]
fn zero_lifetime_token_is_never_valid() {
    let mut s = session();
    s.complete_login_at(Ok(token("abc", 0)), 50).unwrap();
    assert!(!s.is_valid_at(50));
}

#[test]
fn failed_login_clears_the_credential() {
    let mut s = session();
    s.complete_login_at(Ok(token("abc", 3600)), 0).unwrap();
    assert!(s.is_valid_at(10));
    let r = s.complete_login_at(Err(String::from("401 Unauthorized")), 20);
    assert_eq!(r, Err(String::from("401 Unauthorized")));
    assert!(!s.is_valid_at(20));
    assert_eq!(cached(s.token_step_at(20)), None);
}

#[test]
fn login_on_the_system_clock_is_served_from_cache() {
    let mut s = session();
    assert_eq!(cached(s.get_token()), None);
    assert_eq!(s.complete_login(Ok(token("xyz", 3600))), Ok(String::from("xyz")));
    assert!(s.is_valid());
    assert_eq!(cached(s.get_token()), Some(String::from("xyz")));
}

fn is_login(step: &TokenStep) -> bool {
    matches!(step, TokenStep::Login { .. })
}

#[test]
fn empty_access_token_is_still_a_credential() {
    let mut s = session();
    assert!(is_login(&s.token_step_at(1000)));
    assert_eq!(s.complete_login_at(Ok(token("", 3600)), 1000), Ok(String::new()));
    assert!(s.is_valid_at(1000));
    assert_eq!(cached(s.token_step_at(1000)), Some(String::new()));
    assert_eq!(cached(s.token_step_at(4599)), Some(String::new()));
    assert!(is_login(&s.token_step_at(4600)));
}

#[test]
fn callers_during_a_refresh_share_its_token() {
    let mut s = session();
    assert!(is_login(&s.token_step_at(10)));
    let mut tickets = vec![];
    for _ in 0..3 {
        match s.token_step_at(11) {
            TokenStep::Wait(seen) => tickets.push(seen),
            _ => panic!("a refresh is under way"),
        }
    }
    for &seen in &tickets {
        assert_eq!(s.refresh_outcome(seen), None);
    }
    assert_eq!(s.complete_login_at(Ok(token("abc", 3600)), 12), Ok(String::from("abc")));
    for &seen in &tickets {
        assert_eq!(s.refresh_outcome(seen), Some(Ok(String::from("abc"))));
    }
    assert_eq!(cached(s.token_step_at(13)), Some(String::from("abc")));
}

#[test]
fn callers_during_a_refresh_share_its_failure() {
    let mut s = session();
    assert!(is_login(&s.token_step_at(10)));
    let seen = match s.token_step_at(11) {
        TokenStep::Wait(seen) => seen,
        _ => panic!("a refresh is under way"),
    };
    let other = match s.token_step_at(11) {
        TokenStep::Wait(other) => other,
        _ => panic!("a refresh is under way"),
    };
    let e = String::from("Error while fetching token. Error code: 401 Unauthorized");
    assert_eq!(s.complete_login_at(Err(e.clone()), 12), Err(e.clone()));
    assert_eq!(s.refresh_outcome(seen), Some(Err(e.clone())));
    assert_eq!(s.refresh_outcome(other), Some(Err(e)));
    // a caller arriving after the failure starts a new refresh
    assert!(is_login(&s.token_step_at(13)));
}
