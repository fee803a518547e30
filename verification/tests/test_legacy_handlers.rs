use auth_service::controllers::flow::{DbReply, DbRequest, Lookup, Step};
use auth_service::controllers::signin::checks::check_pass;
use auth_service::controllers::signin::sign_in::{sign_in, LegacySignIn, SignInUser};
use auth_service::controllers::signup::create_user::{create_user, NewUserCreate, UserSignup};
use auth_service::models::access_token::AccessToken;
use auth_service::models::client::Client;
use auth_service::models::refresh_token::RefreshToken;
use auth_service::models::tenant::Tenant;
use auth_service::models::user::User;
use auth_service::utils::jwt::verify_jwt;

const KEY: &str = "user-key";
const SECRET: &str = "secret";
const NOW: i64 = 1_700_000_000;

fn some(s: &str) -> Option<String> {
    Some(s.to_string())
}

fn request() -> NewUserCreate {
    NewUserCreate {
        tenant_id: "tenant-1".to_string(),
        user_name: "user".to_string(),
        email: "user@gmail.com".to_string(),
        password: "password".to_string(),
    }
}

fn start_signup(size: Option<String>, key: Option<String>) -> UserSignup {
    match create_user(request(), size, key) {
        Step::Query(flow, DbRequest::FindTenant { id }) => {
            assert_eq!(id, "tenant-1");
            flow
        },
        _ => panic!("expected a tenant lookup"),
    }
}

fn tenant() -> DbReply {
    DbReply::Tenant(Lookup::Found(Tenant { id: "tenant-1".to_string(), name: "app".to_string() }))
}

#[test]
fn first_form_of_registration_stores_the_user() {
    let flow = start_signup(some("12"), some(KEY));
    let (flow, row) = match flow.resume(tenant()) {
        Step::Query(flow, DbRequest::InsertUser(row)) => (flow, row),
        _ => panic!("expected the user to be stored"),
    };
    assert_eq!(row.id.len(), 12);
    assert_eq!(check_pass("password", &row.password, KEY), Ok(true));
    match flow.resume(DbReply::Written(Ok(()))) {
        Step::Respond(r) => assert_eq!(r.action, "User created successfully!"),
        _ => panic!(),
    }
}

#[test]
fn first_form_of_registration_reports_in_the_action() {
    let flow = start_signup(some("12"), some(KEY));
    match flow.resume(DbReply::Tenant(Lookup::NotFound)) {
        Step::Respond(r) => assert_eq!(r.action, "Error: Tenant does not exist: Record not found"),
        _ => panic!(),
    }
    let flow = start_signup(some("12"), some(KEY));
    match flow.resume(DbReply::Tenant(Lookup::Failed("timeout".to_string()))) {
        Step::Respond(r) => assert_eq!(r.action, "Error: Tenant does not exist: timeout"),
        _ => panic!(),
    }
    let flow = start_signup(some("12"), some(KEY));
    let flow = match flow.resume(tenant()) {
        Step::Query(flow, _) => flow,
        _ => panic!(),
    };
    match flow.resume(DbReply::Written(Err("dup".to_string()))) {
        Step::Respond(r) => assert_eq!(r.action, "Error saving new user"),
        _ => panic!(),
    }
    assert!(matches!(start_signup(None, some(KEY)).resume(tenant()), Step::Abort(_)));
    assert!(matches!(start_signup(some("12"), None).resume(tenant()), Step::Abort(_)));
}

fn user() -> User {
    User {
        id: "user-1".to_string(),
        tenant_id: "tenant-1".to_string(),
        user_name: "user".to_string(),
        email: "user@gmail.com".to_string(),
        password: "whatever".to_string(),
    }
}

fn to_access_lookup() -> LegacySignIn {
    let login = SignInUser {
        email: "user@gmail.com".to_string(),
        password: "ignored".to_string(),
        client_id: "client-1".to_string(),
    };
    let flow = match sign_in(login, some(KEY), some("10"), some(SECRET), NOW, 0) {
        Step::Query(flow, DbRequest::FindUserByEmail { .. }) => flow,
        _ => panic!(),
    };
    let flow = match flow.resume(DbReply::User(Lookup::Found(user()))) {
        Step::Query(flow, DbRequest::FindClient { .. }) => flow,
        _ => panic!(),
    };
    let client = Client {
        id: "client-1".to_string(),
        tenant_id: "tenant-1".to_string(),
        name: "c".to_string(),
        client_secret: "s".to_string(),
        redirect_uri: "r".to_string(),
    };
    match flow.resume(DbReply::Client(Lookup::Found(client))) {
        Step::Query(flow, DbRequest::FindAccessToken { .. }) => flow,
        _ => panic!(),
    }
}

#[test]
fn first_form_of_sign_in_issues_tokens_valid_for_an_hour() {
    let (flow, row) = match to_access_lookup().resume(DbReply::AccessToken(Lookup::NotFound)) {
        Step::Query(flow, DbRequest::InsertAccessToken(row)) => (flow, row),
        _ => panic!(),
    };
    assert_eq!(row.expires_at, NOW + 3600);
    assert_eq!(row.id.len(), 10);
    assert_eq!(verify_jwt(SECRET, &row.token).unwrap().exp, (NOW + 3600) as usize);
    let flow = match flow.resume(DbReply::Written(Ok(()))) {
        Step::Query(flow, DbRequest::InsertRefreshToken(_)) => flow,
        _ => panic!(),
    };
    match flow.resume(DbReply::Written(Ok(()))) {
        Step::Respond(r) => {
            assert_eq!(r.action, "Sign In");
            assert_eq!(r.access_token, row.token);
        },
        _ => panic!(),
    }
}

#[test]
fn first_form_of_sign_in_stores_both_tokens_before_reporting() {
    let flow = match to_access_lookup().resume(DbReply::AccessToken(Lookup::Failed("x".to_string()))) {
        Step::Query(flow, DbRequest::InsertAccessToken(_)) => flow,
        _ => panic!(),
    };
    let flow = match flow.resume(DbReply::Written(Err("full".to_string()))) {
        Step::Query(flow, DbRequest::InsertRefreshToken(_)) => flow,
        _ => panic!("the refresh token is stored even when the access token was not"),
    };
    match flow.resume(DbReply::Written(Err("full".to_string()))) {
        Step::Respond(r) => {
            assert_eq!(r.action, "Error saving new access token");
            assert_eq!(r.access_token, "");
        },
        _ => panic!(),
    }
}

#[test]
fn first_form_of_sign_in_renews_existing_tokens() {
    let existing = AccessToken {
        id: "a-1".to_string(),
        user_id: "user-1".to_string(),
        client_id: "client-1".to_string(),
        token: "old".to_string(),
        expires_at: NOW,
        expires_at_nanos: 0,
    };
    let flow = match to_access_lookup().resume(DbReply::AccessToken(Lookup::Found(existing))) {
        Step::Query(flow, DbRequest::FindRefreshToken { .. }) => flow,
        _ => panic!(),
    };
    let refresh = RefreshToken {
        id: "r-1".to_string(),
        user_id: "user-1".to_string(),
        client_id: "client-1".to_string(),
        token: "sealed".to_string(),
        expires_at: NOW + 10 * 86400,
        expires_at_nanos: 0,
    };
    let (flow, token) = match flow.resume(DbReply::RefreshToken(Lookup::Found(refresh))) {
        Step::Query(flow, DbRequest::UpdateAccessToken { id, token, expires_at, expires_at_nanos }) => {
            assert_eq!(id, "a-1");
            assert_eq!(expires_at, NOW + 3600);
            assert_eq!(expires_at_nanos, 0);
            (flow, token)
        },
        _ => panic!("a fresh refresh token is left alone"),
    };
    match flow.resume(DbReply::Written(Err("x".to_string()))) {
        Step::Respond(r) => assert_eq!(r.action, "Error updating access token"),
        _ => panic!(),
    }
    assert_eq!(verify_jwt(SECRET, &token).unwrap().sub, "user-1");
}

#[test]
fn first_form_of_sign_in_reports_lookup_failures() {
    let login = SignInUser {
        email: "nobody@x".to_string(),
        password: "p".to_string(),
        client_id: "c".to_string(),
    };
    let flow = match sign_in(login, some(KEY), some("10"), some(SECRET), NOW, 0) {
        Step::Query(flow, _) => flow,
        _ => panic!(),
    };
    match flow.resume(DbReply::User(Lookup::NotFound)) {
        Step::Respond(r) => {
            assert_eq!(r.action, "Sign In Failed");
            assert_eq!(r.access_token, "");
        },
        _ => panic!(),
    }
}

#[test]
fn first_form_of_sign_in_reports_failures_without_a_token() {
    let to_client_lookup = || {
        let login = SignInUser {
            email: "user@gmail.com".to_string(),
            password: "ignored".to_string(),
            client_id: "client-1".to_string(),
        };
        let flow = match sign_in(login, some(KEY), some("10"), some(SECRET), NOW, 0) {
            Step::Query(flow, _) => flow,
            _ => panic!(),
        };
        match flow.resume(DbReply::User(Lookup::Found(user()))) {
            Step::Query(flow, DbRequest::FindClient { .. }) => flow,
            _ => panic!(),
        }
    };
    for (reply, action) in [
        (DbReply::Client(Lookup::NotFound), "Client does not exist"),
        (DbReply::Client(Lookup::Failed("boom".to_string())), "Error checking client existence"),
    ] {
        match to_client_lookup().resume(reply) {
            Step::Respond(r) => {
                assert_eq!(r.action, action);
                assert_eq!(r.access_token, "");
            },
            _ => panic!(),
        }
    }
}
