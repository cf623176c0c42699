use jotsy::auth::LookupReply;
use jotsy::auth::VerifyStatus;
use jotsy::auth::auth_keyspace;
use jotsy::session::Conclusion;
use jotsy::session::CookieAction;
use jotsy::session::Phase;
use jotsy::session::SessionFlow;
use jotsy::session::cookie_action;
use jotsy::session::conclude_verification;
use jotsy::templates::LoginPage;
use jotsy::templates::NoticePage;
use jotsy::verify_user;
use sha2::Digest;
use sha2::Sha256;

fn run_with_cookies(username: &str, token: &str, reply: LookupReply) -> (SessionFlow, String) {
    let mut flow = SessionFlow::start(Some(username.to_string()), Some(token.to_string()));
    let key = flow.on_connection();
    flow.on_lookup(reply);
    (flow, key)
}

fn respond_parts(flow: &SessionFlow) -> (u16, String, CookieAction) {
    match &flow.phase {
        Phase::Done { conclusion: Conclusion::Respond { response, cookies } } => {
            (response.status, response.body.clone(), *cookies)
        }
        _ => panic!("expected a settled responding flow"),
    }
}

#[test]
fn scenario_matching_record_authenticates() {
    let (flow, key) = run_with_cookies("alice", "T1", LookupReply::Found("alice".to_string()));
    let digest = Sha256::digest("T1".as_bytes());
    let mut expected_key = String::new();
    for byte in digest.iter() {
        expected_key.push_str(&format!("{:02x}", byte));
    }
    assert_eq!(key, expected_key);
    assert_ne!(key, "T1");
    assert_eq!(key.len(), 64);
    match &flow.phase {
        Phase::Done { conclusion: Conclusion::Proceed { username } } => {
            assert_eq!(username, "alice");
        }
        _ => panic!("expected the flow to proceed as alice"),
    }
    assert_eq!(flow.acquired, 1);
    assert_eq!(flow.released, 1);
    assert_eq!(flow.lookups, 1);
}

#[test]
fn scenario_wrong_owner_rejected() {
    let (flow, _) = run_with_cookies("alice", "T1", LookupReply::Found("bob".to_string()));
    let (status, _, cookies) = respond_parts(&flow);
    assert_eq!(status, 401);
    assert_eq!(cookies, CookieAction::ClearBoth);
}

#[test]
fn scenario_missing_record_rejected() {
    let (flow, _) = run_with_cookies("alice", "T1", LookupReply::Missing);
    let (status, _, cookies) = respond_parts(&flow);
    assert_eq!(status, 401);
    assert_eq!(cookies, CookieAction::ClearBoth);
}

#[test]
fn wrong_owner_indistinguishable_from_missing() {
    let (wrong, _) = run_with_cookies("alice", "T1", LookupReply::Found("bob".to_string()));
    let (missing, _) = run_with_cookies("alice", "T1", LookupReply::Missing);
    assert_eq!(respond_parts(&wrong), respond_parts(&missing));
}

#[test]
fn scenario_store_failure_is_infrastructure() {
    let (flow, _) = run_with_cookies("alice", "T1", LookupReply::Failed);
    let (status, body, cookies) = respond_parts(&flow);
    assert_eq!(status, 500);
    assert_eq!(body, NoticePage::e500());
    assert_eq!(cookies, CookieAction::Keep);
}

#[test]
fn scenario_no_cookies_entry_form() {
    for (u, t) in [
        (None, None),
        (Some("alice".to_string()), None),
        (None, Some("T1".to_string())),
    ] {
        let flow = SessionFlow::start(u, t);
        let (status, body, cookies) = respond_parts(&flow);
        assert_eq!(status, 200);
        assert_eq!(body, LoginPage::new(false));
        assert_eq!(cookies, CookieAction::Keep);
        assert_eq!(flow.acquired, 0);
        assert_eq!(flow.released, 0);
        assert_eq!(flow.lookups, 0);
    }
}

#[test]
fn pool_error_is_infrastructure_without_acquire() {
    let mut flow = SessionFlow::start(Some("alice".to_string()), Some("T1".to_string()));
    flow.on_pool_error();
    let (status, body, cookies) = respond_parts(&flow);
    assert_eq!(status, 500);
    assert_eq!(body, NoticePage::e500());
    assert_eq!(cookies, CookieAction::Keep);
    assert_eq!(flow.acquired, 0);
    assert_eq!(flow.released, 0);
    assert_eq!(flow.lookups, 0);
}

#[test]
fn abort_still_releases_the_connection() {
    let mut flow = SessionFlow::start(Some("alice".to_string()), Some("T1".to_string()));
    let _key = flow.on_connection();
    assert_eq!(flow.acquired, 1);
    assert_eq!(flow.released, 0);
    flow.on_abort();
    assert_eq!(flow.acquired, 1);
    assert_eq!(flow.released, 1);
    let (_, _, cookies) = respond_parts(&flow);
    assert_eq!(cookies, CookieAction::Keep);
}

#[test]
fn rejection_is_idempotent() {
    let (first, key1) = run_with_cookies("alice", "stale", LookupReply::Missing);
    let (second, key2) = run_with_cookies("alice", "stale", LookupReply::Missing);
    assert_eq!(key1, key2);
    assert_eq!(respond_parts(&first), respond_parts(&second));
}

#[test]
fn cookie_action_table() {
    assert_eq!(cookie_action(&VerifyStatus::Yes), CookieAction::Keep);
    assert_eq!(cookie_action(&VerifyStatus::No), CookieAction::ClearBoth);
    assert_eq!(cookie_action(&VerifyStatus::ServerError), CookieAction::Keep);
}

#[test]
fn verify_user_classification() {
    assert_eq!(
        verify_user("alice", &LookupReply::Found("alice".to_string())),
        VerifyStatus::Yes
    );
    assert_eq!(
        verify_user("alice", &LookupReply::Found("bob".to_string())),
        VerifyStatus::No
    );
    assert_eq!(verify_user("alice", &LookupReply::Missing), VerifyStatus::No);
    assert_eq!(verify_user("alice", &LookupReply::Failed), VerifyStatus::ServerError);
}

#[test]
fn conclude_hands_username_onward() {
    match conclude_verification("carol".to_string(), VerifyStatus::Yes) {
        Conclusion::Proceed { username } => assert_eq!(username, "carol"),
        _ => panic!("expected the verified username to be handed onward"),
    }
}

#[test]
fn token_digest_is_deterministic_and_token_dependent() {
    let (_, k1) = run_with_cookies("alice", "T1", LookupReply::Missing);
    let (_, k1b) = run_with_cookies("bob", "T1", LookupReply::Missing);
    let (_, k2) = run_with_cookies("alice", "T2", LookupReply::Missing);
    assert_eq!(k1, k1b);
    assert_ne!(k1, k2);
}

#[test]
fn auth_keyspace_name() {
    assert_eq!(auth_keyspace(), "auth");
}
