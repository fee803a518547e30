use auth_service::controllers::auth::signin::generate_token::generate_token;
use auth_service::controllers::auth::signin::models::SignInUser;
use auth_service::controllers::auth::signin::sign_in::{sign_in, SignIn};
use auth_service::controllers::auth::signup::create_user::{create_user, CreateUser};
use auth_service::controllers::auth::signup::models::NewUserCreate;
use auth_service::controllers::auth::verify::models::VerifyAuthRoles;
use auth_service::controllers::auth::verify::verify::verify;
use auth_service::controllers::flow::{DbReply, DbRequest, ErrorResponse, Lookup, Step};
use auth_service::controllers::hello::hello;
use auth_service::controllers::signin::checks::{
    check_and_update_refresh_token, check_client_exists, check_pass, try_check_pass, RefreshTokenCheck,
};
use auth_service::controllers::tenant::create_tenant::{create_tenant, CreateTenant, NewTenantCreate};
use auth_service::controllers::tenant::refresh_tenant_key::{refresh_tenant, RefreshRequest, RefreshTenant};
use auth_service::middlewares::verify_jwt::authenticate;
use auth_service::models::access_token::AccessToken;
use auth_service::models::client::Client;
use auth_service::models::refresh_token::RefreshToken;
use auth_service::models::tenant::Tenant;
use auth_service::models::user::User;
use auth_service::utils::generate_short_hash::{decrypt, encrypt};
use auth_service::utils::jwt::verify_jwt;

const KEY: &str = "12345678901234567890123456789012";
const SECRET: &str = "rocket-secret";
const NOW: i64 = 1_700_000_000;
const NANOS: u32 = 250_000_000;

fn some(s: &str) -> Option<String> {
    Some(s.to_string())
}

fn client(id: &str, tenant_id: &str) -> Client {
    Client {
        id: id.to_string(),
        tenant_id: tenant_id.to_string(),
        name: "client".to_string(),
        client_secret: "secret".to_string(),
        redirect_uri: "http://localhost:8000".to_string(),
    }
}

fn stored_user(password: &str) -> User {
    User {
        id: "user-1".to_string(),
        tenant_id: "tenant-1".to_string(),
        user_name: "user".to_string(),
        email: "user@gmail.com".to_string(),
        password: encrypt(password, KEY, 16),
    }
}

fn sign_in_request(password: &str) -> SignInUser {
    SignInUser {
        email: "user@gmail.com".to_string(),
        password: password.to_string(),
        client_id: "client-1".to_string(),
    }
}

fn expect_error<F, R>(step: Step<F, Result<R, ErrorResponse>>) -> (u16, String) {
    match step {
        Step::Respond(Err(e)) => (e.status, e.message),
        _ => panic!("expected an error answer"),
    }
}

#[test]
fn hello_answers() {
    assert_eq!(hello(), "Server is running!!!!!");
}

#[test]
fn create_tenant_stores_a_random_id_and_returns_it_sealed() {
    let request = NewTenantCreate { name: "app".to_string() };
    let (flow, row) = match create_tenant(request, some("16"), some(KEY)) {
        Step::Query(flow, DbRequest::InsertTenant(row)) => (flow, row),
        _ => panic!("expected the tenant to be stored"),
    };
    assert_eq!(row.name, "app");
    assert_eq!(row.id.len(), 16);
    match flow.resume(DbReply::Written(Ok(()))) {
        Step::Respond(Ok(r)) => {
            assert_eq!(r.action, "Created Tenant successfully!");
            assert!(r.tenant_key.len() > 0);
            assert_eq!(decrypt(&r.tenant_key, KEY).unwrap(), row.id);
        },
        _ => panic!("expected a tenant key"),
    }
}

#[test]
fn create_tenant_reports_configuration_and_storage_failures() {
    let (status, message) = expect_error(create_tenant(NewTenantCreate { name: "a".to_string() }, None, some(KEY)));
    assert_eq!((status, message.as_str()), (500, "Required environment variable(s) are not set"));
    assert!(matches!(create_tenant(NewTenantCreate { name: "a".to_string() }, some("sixteen"), some(KEY)), Step::Abort(_)));
    assert!(matches!(create_tenant(NewTenantCreate { name: "a".to_string() }, some("65"), some(KEY)), Step::Abort(_)));
    let flow = CreateTenant { encryption_key: KEY.to_string(), tenant_id: "t".to_string() };
    let (status, message) = expect_error(flow.resume(DbReply::Written(Err("duplicate".to_string()))));
    assert_eq!((status, message.as_str()), (500, "Error saving new tenant"));
}

#[test]
fn refresh_tenant_seals_the_clients_tenant_afresh() {
    let request = RefreshRequest { client_key: encrypt("client-1", KEY, 16) };
    let flow = match refresh_tenant(request, some(KEY)) {
        Step::Query(flow, DbRequest::FindClient { id }) => {
            assert_eq!(id, "client-1");
            flow
        },
        _ => panic!("expected a client lookup"),
    };
    match flow.resume(DbReply::Client(Lookup::Found(client("client-1", "tenant-7")))) {
        Step::Respond(Ok(r)) => {
            assert_eq!(r.action, "Tenant key refreshed");
            assert_eq!(decrypt(&r.tenant_key, KEY).unwrap(), "tenant-7");
        },
        _ => panic!("expected a tenant key"),
    }
    let flow = RefreshTenant { encryption_key: KEY.to_string() };
    let (status, message) = expect_error(flow.resume(DbReply::Client(Lookup::NotFound)));
    assert_eq!((status, message.as_str()), (500, "Error saving new client: Error saving new client"));
    assert!(matches!(
        refresh_tenant(RefreshRequest { client_key: "not sealed".to_string() }, some(KEY)),
        Step::Abort(_)
    ));
    let (status, _) = expect_error(refresh_tenant(RefreshRequest { client_key: String::new() }, None));
    assert_eq!(status, 500);
}

fn new_user_request(tenant_id: &str) -> NewUserCreate {
    NewUserCreate {
        tenant_id: tenant_id.to_string(),
        user_name: "user".to_string(),
        email: "user@gmail.com".to_string(),
        password: "password".to_string(),
    }
}

fn to_user_lookup(flow: CreateUser) -> CreateUser {
    match flow.resume(DbReply::Tenant(Lookup::Found(Tenant { id: "tenant-1".to_string(), name: "app".to_string() }))) {
        Step::Query(next, DbRequest::FindUser { tenant_id, user_name, email }) => {
            assert_eq!((tenant_id.as_str(), user_name.as_str(), email.as_str()), ("tenant-1", "user", "user@gmail.com"));
            next
        },
        _ => panic!("expected a user lookup"),
    }
}

#[test]
fn create_user_stores_a_password_that_sign_in_accepts() {
    let flow = match create_user(new_user_request("tenant-1"), some("16"), some(KEY)) {
        Step::Query(flow, DbRequest::FindTenant { id }) => {
            assert_eq!(id, "tenant-1");
            flow
        },
        _ => panic!("expected a tenant lookup"),
    };
    let flow = to_user_lookup(flow);
    let (flow, row) = match flow.resume(DbReply::User(Lookup::NotFound)) {
        Step::Query(flow, DbRequest::InsertUser(row)) => (flow, row),
        _ => panic!("expected the user to be stored"),
    };
    assert_eq!(row.id.len(), 16);
    assert_eq!(row.email, "user@gmail.com");
    assert_ne!(row.password, "password");
    assert_eq!(check_pass("password", &row.password, KEY), Ok(true));
    assert_eq!(check_pass("wrong", &row.password, KEY), Ok(false));
    match flow.resume(DbReply::Written(Ok(()))) {
        Step::Respond(Ok(r)) => assert_eq!(r.action, "User created successfully!"),
        _ => panic!("expected success"),
    }
}

#[test]
fn create_user_answers_for_existing_users_and_missing_tenants() {
    let flow = match create_user(new_user_request("tenant-1"), some("16"), some(KEY)) {
        Step::Query(flow, _) => flow,
        _ => panic!(),
    };
    let flow = to_user_lookup(flow);
    match flow.resume(DbReply::User(Lookup::Found(stored_user("x")))) {
        Step::Respond(Ok(r)) => assert_eq!(r.action, "User already exists!"),
        _ => panic!("expected an answer"),
    }
    let flow = match create_user(new_user_request("tenant-1wrong"), some("16"), some(KEY)) {
        Step::Query(flow, _) => flow,
        _ => panic!(),
    };
    let (status, message) = expect_error(flow.resume(DbReply::Tenant(Lookup::NotFound)));
    assert_eq!((status, message.as_str()), (404, "Error: Tenant does not exist"));
    let (status, _) = expect_error(create_user(new_user_request("t"), some("16"), None));
    assert_eq!(status, 500);
}

fn signed_in_flow(password: &str) -> Step<SignIn, Result<auth_service::controllers::auth::signin::models::SignInResponse, ErrorResponse>> {
    let flow = match sign_in(sign_in_request(password), some(KEY), some("16"), some(SECRET), NOW, NANOS) {
        Step::Query(flow, DbRequest::FindUserByEmail { email }) => {
            assert_eq!(email, "user@gmail.com");
            flow
        },
        _ => panic!("expected a user lookup"),
    };
    flow.resume(DbReply::User(Lookup::Found(stored_user("password"))))
}

#[test]
fn sign_in_issues_and_stores_fresh_tokens() {
    let flow = match signed_in_flow("password") {
        Step::Query(flow, DbRequest::FindClient { id }) => {
            assert_eq!(id, "client-1");
            flow
        },
        _ => panic!("expected a client lookup"),
    };
    let flow = match flow.resume(DbReply::Client(Lookup::Found(client("client-1", "tenant-1")))) {
        Step::Query(flow, DbRequest::FindAccessToken { client_id, user_id }) => {
            assert_eq!((client_id.as_str(), user_id.as_str()), ("client-1", "user-1"));
            flow
        },
        _ => panic!("expected an access token lookup"),
    };
    let (flow, access_row) = match flow.resume(DbReply::AccessToken(Lookup::NotFound)) {
        Step::Query(flow, DbRequest::InsertAccessToken(row)) => (flow, row),
        _ => panic!("expected the access token to be stored"),
    };
    assert_eq!(access_row.id.len(), 16);
    assert_eq!(access_row.expires_at, NOW + 4 * 3600);
    assert_eq!(access_row.expires_at_nanos, NANOS);
    let claims = verify_jwt(SECRET, &access_row.token).unwrap();
    assert_eq!(claims.sub, "user-1");
    assert_eq!(claims.email, "user@gmail.com");
    assert_eq!(claims.tenant_id, "tenant-1");
    assert_eq!(claims.exp, (NOW + 4 * 3600) as usize);
    let (flow, refresh_row) = match flow.resume(DbReply::Written(Ok(()))) {
        Step::Query(flow, DbRequest::InsertRefreshToken(row)) => (flow, row),
        _ => panic!("expected the refresh token to be stored"),
    };
    assert_eq!(refresh_row.expires_at, NOW + 14 * 86400);
    assert_eq!(refresh_row.expires_at_nanos, NANOS);
    let refresh_token = decrypt(&refresh_row.token, KEY).unwrap();
    assert_eq!(verify_jwt(SECRET, &refresh_token).unwrap().exp, (NOW + 14 * 86400) as usize);
    match flow.resume(DbReply::Written(Ok(()))) {
        Step::Respond(Ok(r)) => {
            assert_eq!(r.action, "Sign In");
            assert_eq!(r.access_token, access_row.token);
            let header = format!("Bearer {}", r.access_token);
            let roles = authenticate(Some(&header), Some(SECRET)).unwrap();
            assert!(roles.is_jwt_valid);
            match verify(roles) {
                Ok(v) => {
                    assert_eq!(v.status, 200);
                    assert_eq!(v.message, "verification successfull");
                },
                Err(_) => panic!("expected verification"),
            }
            let wrong = format!("Bearer {}wrong", r.access_token);
            assert_eq!(authenticate(Some(&wrong), Some(SECRET)).err(), Some(401));
        },
        _ => panic!("expected a token"),
    }
}

#[test]
fn sign_in_refuses_a_wrong_password_and_an_unknown_client() {
    let (status, message) = expect_error(signed_in_flow("not the password"));
    assert_eq!((status, message.as_str()), (400, "Password does not match"));
    let flow = match signed_in_flow("password") {
        Step::Query(flow, _) => flow,
        _ => panic!(),
    };
    let (status, message) = expect_error(flow.resume(DbReply::Client(Lookup::NotFound)));
    assert_eq!((status, message.as_str()), (400, "Client does not exist"));
    let (status, _) = expect_error(sign_in(sign_in_request("p"), some(KEY), None, some(SECRET), NOW, 0));
    assert_eq!(status, 500);
}

#[test]
fn sign_in_renews_tokens_the_user_already_holds() {
    let flow = match signed_in_flow("password") {
        Step::Query(flow, _) => flow,
        _ => panic!(),
    };
    let flow = match flow.resume(DbReply::Client(Lookup::Found(client("client-1", "tenant-1")))) {
        Step::Query(flow, _) => flow,
        _ => panic!(),
    };
    let existing = AccessToken {
        id: "access-1".to_string(),
        user_id: "user-1".to_string(),
        client_id: "client-1".to_string(),
        token: "old".to_string(),
        expires_at: NOW,
        expires_at_nanos: 0,
    };
    let flow = match flow.resume(DbReply::AccessToken(Lookup::Found(existing))) {
        Step::Query(flow, DbRequest::FindRefreshToken { .. }) => flow,
        _ => panic!("expected a refresh token lookup"),
    };
    let refresh = RefreshToken {
        id: "refresh-1".to_string(),
        user_id: "user-1".to_string(),
        client_id: "client-1".to_string(),
        token: "sealed".to_string(),
        expires_at: NOW + 3600,
        expires_at_nanos: 0,
    };
    let flow = match flow.resume(DbReply::RefreshToken(Lookup::Found(refresh))) {
        Step::Query(flow, DbRequest::UpdateRefreshToken { id, token, expires_at, expires_at_nanos }) => {
            assert_eq!(id, "refresh-1");
            assert_eq!(expires_at, NOW + 14 * 86400);
            assert_eq!(expires_at_nanos, NANOS);
            let renewed = verify_jwt(SECRET, &decrypt(&token, KEY).unwrap()).unwrap();
            assert_eq!(renewed.sub, "user-1");
            assert_eq!(renewed.email, "tenant-1");
            assert_eq!(renewed.tenant_id, "user@gmail.com");
            flow
        },
        _ => panic!("expected the refresh token to be renewed"),
    };
    let (flow, new_token) = match flow.resume(DbReply::Written(Ok(()))) {
        Step::Query(flow, DbRequest::UpdateAccessToken { id, token, expires_at, expires_at_nanos }) => {
            assert_eq!(id, "access-1");
            assert_eq!(expires_at, NOW + 4 * 3600);
            assert_eq!(expires_at_nanos, NANOS);
            (flow, token)
        },
        _ => panic!("expected the access token to be replaced"),
    };
    match flow.resume(DbReply::Written(Ok(()))) {
        Step::Respond(Ok(r)) => {
            assert_eq!(r.action, "Sign In");
            assert_eq!(r.access_token, new_token);
            assert_eq!(r.access_token, generate_token(SECRET, "user-1", "tenant-1", "user@gmail.com", (NOW + 4 * 3600) as usize));
            let claims = verify_jwt(SECRET, &r.access_token).unwrap();
            assert_eq!((claims.email.as_str(), claims.tenant_id.as_str()), ("tenant-1", "user@gmail.com"));
        },
        _ => panic!("expected a token"),
    }
}

#[test]
fn sign_in_reports_a_failed_refresh_lookup() {
    let flow = match signed_in_flow("password") {
        Step::Query(flow, _) => flow,
        _ => panic!(),
    };
    let flow = match flow.resume(DbReply::Client(Lookup::Found(client("client-1", "tenant-1")))) {
        Step::Query(flow, _) => flow,
        _ => panic!(),
    };
    let existing = AccessToken {
        id: "a".to_string(),
        user_id: "user-1".to_string(),
        client_id: "client-1".to_string(),
        token: "old".to_string(),
        expires_at: NOW,
        expires_at_nanos: 0,
    };
    let flow = match flow.resume(DbReply::AccessToken(Lookup::Found(existing))) {
        Step::Query(flow, _) => flow,
        _ => panic!(),
    };
    let (status, message) = expect_error(flow.resume(DbReply::RefreshToken(Lookup::NotFound)));
    assert_eq!((status, message.as_str()), (500, "Error checking access token existence"));
}

#[test]
fn refresh_token_is_renewed_only_in_its_last_day() {
    let row = |expires_at: i64| RefreshToken {
        id: "r".to_string(),
        user_id: "u".to_string(),
        client_id: "c".to_string(),
        token: "t".to_string(),
        expires_at,
        expires_at_nanos: 0,
    };
    let check = |expires_at: i64| {
        check_and_update_refresh_token(Lookup::Found(row(expires_at)), SECRET, "u", "e", "t", 1, KEY, NOW, 0)
    };
    assert!(matches!(check(NOW + 2 * 86400), RefreshTokenCheck::Fresh));
    assert!(matches!(check(NOW + 86400), RefreshTokenCheck::Fresh));
    let at_the_threshold = |nanos: u32| {
        check_and_update_refresh_token(Lookup::Found(row(NOW + 86400)), SECRET, "u", "e", "t", 1, KEY, NOW, nanos)
    };
    assert!(matches!(at_the_threshold(0), RefreshTokenCheck::Fresh));
    assert!(matches!(at_the_threshold(1), RefreshTokenCheck::Renew(_)));
    assert!(matches!(at_the_threshold(999_999_999), RefreshTokenCheck::Renew(_)));
    let mut late = row(NOW + 86400);
    late.expires_at_nanos = 500;
    let against = |token: RefreshToken, nanos: u32| {
        check_and_update_refresh_token(Lookup::Found(token), SECRET, "u", "e", "t", 1, KEY, NOW, nanos)
    };
    assert!(matches!(against(row(NOW + 86400), 0), RefreshTokenCheck::Fresh));
    let mut early = row(NOW + 86400);
    early.expires_at_nanos = 500;
    assert!(matches!(against(early, 500), RefreshTokenCheck::Fresh));
    match against(late, 501) {
        RefreshTokenCheck::Renew(DbRequest::UpdateRefreshToken { expires_at, expires_at_nanos, .. }) => {
            assert_eq!((expires_at, expires_at_nanos), (NOW + 14 * 86400, 501));
        },
        _ => panic!("expected a renewal"),
    }
    assert!(matches!(check(NOW + 86399), RefreshTokenCheck::Renew(_)));
    assert!(matches!(check(NOW - 5), RefreshTokenCheck::Renew(_)));
    assert!(matches!(check(i64::MIN), RefreshTokenCheck::OutOfRange));
    match check_and_update_refresh_token(Lookup::NotFound, SECRET, "u", "e", "t", 1, KEY, NOW, 0) {
        RefreshTokenCheck::Failed(e) => assert_eq!(e, "Record not found"),
        _ => panic!(),
    }
    match check_and_update_refresh_token(Lookup::Failed("boom".to_string()), SECRET, "u", "e", "t", 1, KEY, NOW, 0) {
        RefreshTokenCheck::Failed(e) => assert_eq!(e, "boom"),
        _ => panic!(),
    }
}

#[test]
fn client_existence_follows_the_lookup() {
    assert_eq!(check_client_exists(Lookup::Found(client("c", "t"))), Ok(true));
    assert_eq!(check_client_exists(Lookup::NotFound), Ok(false));
    assert_eq!(check_client_exists(Lookup::Failed("down".to_string())), Err("down".to_string()));
}

#[test]
fn password_check_needs_a_value_sealed_under_the_key() {
    let stored = encrypt("pw", KEY, 16);
    assert_eq!(try_check_pass("pw", &stored, KEY), Some(true));
    assert_eq!(try_check_pass("pw", &stored, "another key"), None);
    assert_eq!(try_check_pass("pw", "plain", KEY), None);
}

#[test]
fn verify_answers_by_the_jwt_flag() {
    assert!(verify(VerifyAuthRoles { roles: vec![], is_jwt_valid: true }).is_ok());
    match verify(VerifyAuthRoles { roles: vec![], is_jwt_valid: false }) {
        Err(e) => assert_eq!((e.status, e.message.as_str()), (401, "Invalid JWT")),
        Ok(_) => panic!(),
    }
}

#[test]
fn authenticate_needs_a_secret_and_a_bearer_token() {
    let token = generate_token(SECRET, "u", "e", "t", 1);
    let header = format!("Bearer {}", token);
    assert_eq!(authenticate(Some(&header), None).err(), Some(500));
    assert_eq!(authenticate(None, Some(SECRET)).err(), Some(401));
    assert_eq!(authenticate(Some(&token), Some(SECRET)).err(), Some(401));
    assert_eq!(authenticate(Some(&format!("bearer {}", token)), Some(SECRET)).err(), Some(401));
    assert_eq!(authenticate(Some(&header), Some("other")).err(), Some(401));
    let roles = authenticate(Some(&header), Some(SECRET)).unwrap();
    assert!(roles.is_jwt_valid);
    assert!(roles.roles.is_empty());
}

fn to_access_insert() -> SignIn {
    let flow = match signed_in_flow("password") {
        Step::Query(flow, _) => flow,
        _ => panic!(),
    };
    let flow = match flow.resume(DbReply::Client(Lookup::Found(client("client-1", "tenant-1")))) {
        Step::Query(flow, _) => flow,
        _ => panic!(),
    };
    match flow.resume(DbReply::AccessToken(Lookup::NotFound)) {
        Step::Query(flow, DbRequest::InsertAccessToken(row)) => {
            assert!(row.id.bytes().all(|b| b.is_ascii_digit() || (b'a'..=b'f').contains(&b)));
            flow
        },
        _ => panic!("expected the access token to be stored"),
    }
}

#[test]
fn sign_in_reports_which_token_insert_failed() {
    let (status, message) = expect_error(to_access_insert().resume(DbReply::Written(Err("boom".to_string()))));
    assert_eq!((status, message.as_str()), (500, "Error saving new access token"));
    let flow = match to_access_insert().resume(DbReply::Written(Ok(()))) {
        Step::Query(flow, DbRequest::InsertRefreshToken(row)) => {
            assert!(row.id.bytes().all(|b| b.is_ascii_digit() || (b'a'..=b'f').contains(&b)));
            flow
        },
        _ => panic!("expected the refresh token to be stored"),
    };
    let (status, message) = expect_error(flow.resume(DbReply::Written(Err("boom".to_string()))));
    assert_eq!((status, message.as_str()), (500, "Error saving new refresh token"));
}
