use task_service::credentials::{claims_at, hash_password, token_claims, verify_password};
use task_service::errors::{DomainError, RepoError, ServiceError};
use task_service::models::{LoginRequest, RegisterRequest, User};
use task_service::user_role::UserRole;
use task_service::user_service::{UserEvent, UserOutcome, UserQuery, UserService, UserStage, UserStep};

fn user(id: i32, phone: &str, hash: &str) -> User {
    User {
        id,
        name: "Ann".to_string(),
        password_hash: hash.to_string(),
        created_at: 1_700_000_000_000_000,
        role: UserRole::User,
        phone: phone.to_string(),
    }
}

fn register(name: &str, phone: &str, password: &str) -> RegisterRequest {
    RegisterRequest {
        name: name.to_string(),
        phone: phone.to_string(),
        password: password.to_string(),
        role: UserRole::User,
    }
}

fn ask(step: UserStep) -> (UserStage, UserQuery) {
    match step {
        UserStep::Ask(stage, query) => (stage, query),
        UserStep::Finish(r) => panic!("finished early: {:?}", r),
    }
}

fn finish(step: UserStep) -> Result<UserOutcome, ServiceError> {
    match step {
        UserStep::Finish(r) => r,
        UserStep::Ask(stage, query) => panic!("still asking: {:?} {:?}", stage, query),
    }
}

fn refused(step: UserStep) -> DomainError {
    match finish(step) {
        Err(ServiceError::Domain(d)) => d,
        other => panic!("{:?}", other),
    }
}

#[test]
fn registration_rules_in_order() {
    let s = UserService::new();
    assert_eq!(refused(s.create_user(register(" ", " ", "x"))), DomainError::EmptyUserName);
    assert_eq!(refused(s.create_user(register("Ann", "\t", "x"))), DomainError::EmptyPhone);
    assert_eq!(refused(s.create_user(register("Ann", "555", "1234567"))), DomainError::PasswordTooShort);
    // four two-byte characters make eight bytes
    let (_, query) = ask(s.create_user(register("Ann", "555", "ääää")));
    assert!(matches!(query, UserQuery::FindByPhone(p) if p == "555"));
}

#[test]
fn registration_refuses_taken_phone() {
    let s = UserService::new();
    let (stage, _) = ask(s.create_user(register("Ann", "555", "password1")));
    assert_eq!(
        refused(s.resume(stage, UserEvent::Found(Ok(Some(user(1, "555", "h")))))),
        DomainError::PhoneAlreadyExists
    );
}

#[test]
fn registration_stores_hashed_account() {
    let s = UserService::new();
    let (stage, _) = ask(s.create_user(register("Ann", "555", "password1")));
    let (stage, query) = ask(s.resume(stage, UserEvent::Found(Ok(None))));
    let password = match query {
        UserQuery::HashPassword(p) => p,
        other => panic!("{:?}", other),
    };
    assert_eq!(password, "password1");
    let hashed = hash_password(password);
    let (stage, query) = ask(s.resume(stage, UserEvent::Hashed(Some(hashed))));
    match &query {
        UserQuery::Create(new_user) => {
            assert_eq!(new_user.name, "Ann");
            assert_eq!(new_user.phone, "555");
            assert_eq!(new_user.role, UserRole::User);
            assert!(new_user.password_hash.starts_with("$2b$12$"));
        }
        other => panic!("{:?}", other),
    }
    match finish(s.resume(stage, UserEvent::Created(Ok(user(7, "555", "h"))))) {
        Ok(UserOutcome::User(u)) => assert_eq!(u.id, 7),
        other => panic!("{:?}", other),
    }
}

#[test]
fn registration_unique_violation_is_taken_phone() {
    let s = UserService::new();
    let stage = UserStage::Creating;
    let e = RepoError { code: Some("23505".to_string()), message: "duplicate key".to_string() };
    assert_eq!(refused(s.resume(stage, UserEvent::Created(Err(e)))), DomainError::PhoneAlreadyExists);
    let e = RepoError { code: Some("23503".to_string()), message: "foreign key".to_string() };
    assert!(matches!(finish(s.resume(UserStage::Creating, UserEvent::Created(Err(e)))), Err(ServiceError::Repo(_))));
}

#[test]
fn registration_hashing_failure_is_unauthorized() {
    let s = UserService::new();
    let stage = UserStage::Hashing { name: "Ann".to_string(), phone: "5".to_string(), role: UserRole::Admin };
    assert_eq!(refused(s.resume(stage, UserEvent::Hashed(None))), DomainError::Unauthorized);
}

#[test]
fn login_unknown_phone_is_invalid_credentials() {
    let s = UserService::new();
    let (stage, query) = ask(s.login(LoginRequest { phone: "555".to_string(), password: "pw".to_string() }));
    assert!(matches!(query, UserQuery::FindByPhone(p) if p == "555"));
    assert_eq!(refused(s.resume(stage, UserEvent::Found(Ok(None)))), DomainError::InvalidCredentials);
}

#[test]
fn login_with_registered_password_gets_token() {
    let s = UserService::new();
    let hash = hash_password("correct horse".to_string()).unwrap();
    let (stage, _) = ask(s.login(LoginRequest { phone: "555".to_string(), password: "correct horse".to_string() }));
    let (stage, query) = ask(s.resume(stage, UserEvent::Found(Ok(Some(user(3, "555", &hash))))));
    let verdict = match query {
        UserQuery::VerifyPassword { password, password_hash } => {
            assert_eq!(password_hash, hash);
            verify_password(password, password_hash)
        }
        other => panic!("{:?}", other),
    };
    assert!(matches!(verdict, Ok(true)));
    let (stage, query) = ask(s.resume(stage, UserEvent::Verified(Some(verdict))));
    match &query {
        UserQuery::SignToken(c) => {
            assert_eq!(c.sub, 3);
            assert_eq!(c.role, UserRole::User);
        }
        other => panic!("{:?}", other),
    }
    match finish(s.resume(stage, UserEvent::Signed(Ok("tok".to_string())))) {
        Ok(UserOutcome::Token(t)) => assert_eq!(t, "tok"),
        other => panic!("{:?}", other),
    }
}

#[test]
fn login_with_wrong_password_is_refused() {
    let s = UserService::new();
    let hash = hash_password("correct horse".to_string()).unwrap();
    assert!(matches!(verify_password("wrong horse".to_string(), hash.clone()), Ok(false)));
    let stage = UserStage::Verifying { user: user(3, "555", &hash) };
    assert_eq!(refused(s.resume(stage, UserEvent::Verified(Some(Ok(false))))), DomainError::InvalidCredentials);
}

#[test]
fn login_with_unreadable_hash_is_refused() {
    let verdict = verify_password("pw".to_string(), "not a hash".to_string());
    assert!(matches!(verdict, Err(ServiceError::Domain(DomainError::InvalidCredentials))));
    let s = UserService::new();
    let stage = UserStage::Verifying { user: user(3, "555", "not a hash") };
    assert_eq!(refused(s.resume(stage, UserEvent::Verified(Some(verdict)))), DomainError::InvalidCredentials);
}

#[test]
fn signing_failure_is_unauthorized() {
    let s = UserService::new();
    assert_eq!(refused(s.resume(UserStage::Signing, UserEvent::Signed(Err(())))), DomainError::Unauthorized);
}

#[test]
fn hash_is_salted_bcrypt() {
    let a = hash_password("secret-pass".to_string()).unwrap();
    let b = hash_password("secret-pass".to_string()).unwrap();
    assert_eq!(a.len(), 60);
    assert!(a.starts_with("$2b$12$"));
    assert_ne!(a, b);
    assert_ne!(a, "secret-pass");
}

#[test]
fn user_lookups() {
    let s = UserService::new();
    let (stage, _) = ask(s.get_user_by_id(4));
    match finish(s.resume(stage, UserEvent::Found(Ok(None)))) {
        Err(ServiceError::NotFound { resource, id }) => assert_eq!((resource.as_str(), id), ("user", 4)),
        other => panic!("{:?}", other),
    }
    let (stage, _) = ask(s.get_user_by_phone("777".to_string()));
    match finish(s.resume(stage, UserEvent::Found(Ok(None)))) {
        Err(e @ ServiceError::NotFoundPhone { .. }) => assert_eq!(e.message(), "user with phone 777 not found"),
        other => panic!("{:?}", other),
    }
    let (stage, _) = ask(s.get_all_users());
    assert!(matches!(finish(s.resume(stage, UserEvent::Listed(Ok(vec![])))), Ok(UserOutcome::Users(v)) if v.is_empty()));
    let (stage, _) = ask(s.delete_user_by_id(4));
    assert!(matches!(finish(s.resume(stage, UserEvent::Deleted(Ok(false)))), Err(ServiceError::NotFound { id: 4, .. })));
    let (stage, _) = ask(s.delete_user_by_id(4));
    assert!(matches!(finish(s.resume(stage, UserEvent::Deleted(Ok(true)))), Ok(UserOutcome::Done)));
}

#[test]
fn token_expires_a_day_after_issue() {
    let u = user(9, "1", "h");
    let c = claims_at(&u, 1_700_000_000);
    assert_eq!((c.sub, c.role, c.exp), (9, UserRole::User, 1_700_086_400));
    let now = std::time::SystemTime::now()
        .duration_since(std::time::UNIX_EPOCH)
        .unwrap()
        .as_secs() as usize;
    let fresh = token_claims(&u);
    assert!(fresh.exp >= now + 86_400 - 5 && fresh.exp <= now + 86_400 + 5);
    let fresh = UserService::new().create_token(&u);
    assert_eq!(fresh.sub, 9);
}
