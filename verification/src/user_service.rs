use vstd::prelude::*;

use crate::credentials::{expiry_at, token_claims, LATEST_TIME};
use crate::errors::{DomainError, RepoError, ServiceError};
use crate::models::{Claims, LoginRequest, NewUser, RegisterRequest, User};
use crate::task_service::is_not_found;
use crate::text::{byte_len, is_blank, is_blank_text, same_text};
use crate::user_role::UserRole;

verus! {

/// The shortest password accepted, in bytes of its UTF-8 form.
pub const MIN_PASSWORD_BYTES: usize = 8;

/// The error code the database gives when a unique column would hold a value twice.
pub open spec fn is_unique_violation(e: RepoError) -> bool {
    e.code matches Some(code) && code@ == "23505"@
}

/// A request to the account store, or a piece of work the service hands out.
#[derive(Debug)]
pub enum UserQuery {
    Create(NewUser),
    FindById(i32),
    FindByPhone(String),
    GetAll,
    DeleteById(i32),
    /// Run `credentials::hash_password` on the password.
    HashPassword(String),
    /// Run `credentials::verify_password` on the password and the stored hash.
    VerifyPassword { password: String, password_hash: String },
    /// Sign a token that carries these claims.
    SignToken(Claims),
}

/// What came back from a `UserQuery`.
#[derive(Debug)]
pub enum UserEvent {
    /// The stored account, after `Create`.
    Created(Result<User, RepoError>),
    /// The account, if one matched, after `FindById` or `FindByPhone`.
    Found(Result<Option<User>, RepoError>),
    /// The accounts, after `GetAll`.
    Listed(Result<Vec<User>, RepoError>),
    /// Whether an account was removed, after `DeleteById`.
    Deleted(Result<bool, RepoError>),
    /// The result of `hash_password`, or `None` when the worker that ran it failed.
    Hashed(Option<Result<String, ServiceError>>),
    /// The result of `verify_password`, or `None` when the worker that ran it failed.
    Verified(Option<Result<bool, ServiceError>>),
    /// The signed token, or `Err` when signing failed.
    Signed(Result<String, ()>),
}

/// Where an operation of the account service stands while it waits.
#[derive(Debug)]
pub enum UserStage {
    /// Waiting for account `id`.
    FetchingById { id: i32 },
    /// Waiting for the account with this phone.
    FetchingByPhone { phone: String },
    /// Waiting for the list of accounts.
    Listing,
    /// Waiting to learn whether account `id` was removed.
    Deleting { id: i32 },
    /// Registration: waiting to learn whether the phone is taken.
    CheckingPhone { name: String, phone: String, password: String, role: UserRole },
    /// Registration: waiting for the password hash.
    Hashing { name: String, phone: String, role: UserRole },
    /// Registration: waiting for the account to be stored.
    Creating,
    /// Login: waiting for the account with the given phone.
    LoggingIn { password: String },
    /// Login: waiting for the password check of `user`.
    Verifying { user: User },
    /// Login: waiting for the token to be signed.
    Signing,
}

/// What an account operation gives back when it succeeds.
#[derive(Debug)]
pub enum UserOutcome {
    User(User),
    Users(Vec<User>),
    Token(String),
    Done,
}

/// The next move of an account operation: ask, or finish.
#[derive(Debug)]
pub enum UserStep {
    Ask(UserStage, UserQuery),
    Finish(Result<UserOutcome, ServiceError>),
}

/// The step that ends an operation because the store failed.
pub open spec fn user_repo_failure(e: RepoError) -> UserStep {
    UserStep::Finish(Err(ServiceError::Repo(e)))
}

/// The step that ends an operation with a rule violation.
pub open spec fn user_refusal(d: DomainError) -> UserStep {
    UserStep::Finish(Err(ServiceError::Domain(d)))
}

/// Whether `e` says that no account has `phone`.
pub open spec fn is_phone_not_found(e: ServiceError, phone: Seq<char>) -> bool {
    e matches ServiceError::NotFoundPhone { resource, phone: p } && resource@ == "user"@ && p@
        == phone
}

/// Whether `c` holds the claims of a token for `user` issued at a time the clock can report.
pub open spec fn fresh_claims_for(c: Claims, user: User) -> bool {
    &&& c.sub == user.id
    &&& c.role == user.role
    &&& exists|now: int| 0 <= now <= LATEST_TIME && c.exp == expiry_at(now)
}

/// Whether `event` answers what `stage` waits for.
pub open spec fn user_stage_expects(stage: UserStage, event: UserEvent) -> bool {
    match stage {
        UserStage::FetchingById { .. } => event is Found,
        UserStage::FetchingByPhone { .. } => event is Found,
        UserStage::Listing => event is Listed,
        UserStage::Deleting { .. } => event is Deleted,
        UserStage::CheckingPhone { .. } => event is Found,
        UserStage::Hashing { .. } => event is Hashed,
        UserStage::Creating => event is Created,
        UserStage::LoggingIn { .. } => event is Found,
        UserStage::Verifying { .. } => event is Verified,
        UserStage::Signing => event is Signed,
    }
}

/// The transition rule of the account service: from `stage`, on `event`, the next move is `step`.
pub open spec fn user_resumes_to(stage: UserStage, event: UserEvent, step: UserStep) -> bool {
    match stage {
        UserStage::FetchingById { id } => match event {
            UserEvent::Found(Ok(Some(user))) => step == UserStep::Finish(
                Ok(UserOutcome::User(user)),
            ),
            UserEvent::Found(Ok(None)) => step matches UserStep::Finish(Err(err))
                && is_not_found(err, "user"@, id),
            UserEvent::Found(Err(e)) => step == user_repo_failure(e),
            _ => false,
        },
        UserStage::FetchingByPhone { phone } => match event {
            UserEvent::Found(Ok(Some(user))) => step == UserStep::Finish(
                Ok(UserOutcome::User(user)),
            ),
            UserEvent::Found(Ok(None)) => step matches UserStep::Finish(Err(err))
                && is_phone_not_found(err, phone@),
            UserEvent::Found(Err(e)) => step == user_repo_failure(e),
            _ => false,
        },
        UserStage::Listing => match event {
            UserEvent::Listed(Ok(users)) => step == UserStep::Finish(
                Ok(UserOutcome::Users(users)),
            ),
            UserEvent::Listed(Err(e)) => step == user_repo_failure(e),
            _ => false,
        },
        UserStage::Deleting { id } => match event {
            UserEvent::Deleted(Ok(true)) => step == UserStep::Finish(Ok(UserOutcome::Done)),
            UserEvent::Deleted(Ok(false)) => step matches UserStep::Finish(Err(err))
                && is_not_found(err, "user"@, id),
            UserEvent::Deleted(Err(e)) => step == user_repo_failure(e),
            _ => false,
        },
        UserStage::CheckingPhone { name, phone, password, role } => match event {
            UserEvent::Found(Ok(Some(_))) => step == user_refusal(DomainError::PhoneAlreadyExists),
            UserEvent::Found(Ok(None)) => step == UserStep::Ask(
                UserStage::Hashing { name, phone, role },
                UserQuery::HashPassword(password),
            ),
            UserEvent::Found(Err(e)) => step == user_repo_failure(e),
            _ => false,
        },
        UserStage::Hashing { name, phone, role } => match event {
            UserEvent::Hashed(Some(Ok(hash))) => step == UserStep::Ask(
                UserStage::Creating,
                UserQuery::Create(NewUser { name, phone, role, password_hash: hash }),
            ),
            UserEvent::Hashed(Some(Err(e))) => step == UserStep::Finish(Err(e)),
            UserEvent::Hashed(None) => step == user_refusal(DomainError::Unauthorized),
            _ => false,
        },
        UserStage::Creating => match event {
            UserEvent::Created(Ok(user)) => step == UserStep::Finish(Ok(UserOutcome::User(user))),
            UserEvent::Created(Err(e)) => if is_unique_violation(e) {
                step == user_refusal(DomainError::PhoneAlreadyExists)
            } else {
                step == user_repo_failure(e)
            },
            _ => false,
        },
        UserStage::LoggingIn { password } => match event {
            UserEvent::Found(Ok(Some(user))) => step == UserStep::Ask(
                UserStage::Verifying { user },
                UserQuery::VerifyPassword { password, password_hash: user.password_hash },
            ),
            UserEvent::Found(Ok(None)) => step == user_refusal(DomainError::InvalidCredentials),
            UserEvent::Found(Err(e)) => step == user_repo_failure(e),
            _ => false,
        },
        UserStage::Verifying { user } => match event {
            UserEvent::Verified(Some(Ok(true))) => step matches UserStep::Ask(
                UserStage::Signing,
                UserQuery::SignToken(claims),
            ) && fresh_claims_for(claims, user),
            UserEvent::Verified(Some(Ok(false))) => step == user_refusal(
                DomainError::InvalidCredentials,
            ),
            UserEvent::Verified(Some(Err(e))) => step == UserStep::Finish(Err(e)),
            UserEvent::Verified(None) => step == user_refusal(DomainError::InvalidCredentials),
            _ => false,
        },
        UserStage::Signing => match event {
            UserEvent::Signed(Ok(token)) => step == UserStep::Finish(
                Ok(UserOutcome::Token(token)),
            ),
            UserEvent::Signed(Err(_)) => step == user_refusal(DomainError::Unauthorized),
            _ => false,
        },
    }
}

/// How many more answers an operation may wait for, at most.
pub open spec fn user_stage_rank(stage: UserStage) -> nat {
    match stage {
        UserStage::CheckingPhone { .. } => 3,
        UserStage::Hashing { .. } => 2,
        UserStage::LoggingIn { .. } => 3,
        UserStage::Verifying { .. } => 2,
        _ => 1,
    }
}

/// Which rule, if any, a registration breaks; checked in this order.
pub open spec fn registration_refusal(user: RegisterRequest) -> Option<DomainError> {
    if is_blank_text(user.name@) {
        Some(DomainError::EmptyUserName)
    } else if is_blank_text(user.phone@) {
        Some(DomainError::EmptyPhone)
    } else if byte_len(user.password@) < MIN_PASSWORD_BYTES {
        Some(DomainError::PasswordTooShort)
    } else {
        None
    }
}

/// The first move of `create_user(user)`: refuse a request that breaks a rule, else look up its
/// phone, keeping name, phone, password and role for later.
pub open spec fn registration_begins(user: RegisterRequest, step: UserStep) -> bool {
    match registration_refusal(user) {
        Some(d) => step == user_refusal(d),
        None => step matches UserStep::Ask(
            UserStage::CheckingPhone { name, phone, password, role },
            UserQuery::FindByPhone(q),
        ) && name == user.name && phone@ == user.phone@ && password == user.password && role
            == user.role && q == user.phone,
    }
}

impl UserStage {
    /// Decides `user_stage_expects`.
    pub fn expects(&self, event: &UserEvent) -> (r: bool)
        ensures
            r == user_stage_expects(*self, *event),
    {
        match self {
            UserStage::FetchingById { .. } => matches!(event, UserEvent::Found(_)),
            UserStage::FetchingByPhone { .. } => matches!(event, UserEvent::Found(_)),
            UserStage::Listing => matches!(event, UserEvent::Listed(_)),
            UserStage::Deleting { .. } => matches!(event, UserEvent::Deleted(_)),
            UserStage::CheckingPhone { .. } => matches!(event, UserEvent::Found(_)),
            UserStage::Hashing { .. } => matches!(event, UserEvent::Hashed(_)),
            UserStage::Creating => matches!(event, UserEvent::Created(_)),
            UserStage::LoggingIn { .. } => matches!(event, UserEvent::Found(_)),
            UserStage::Verifying { .. } => matches!(event, UserEvent::Verified(_)),
            UserStage::Signing => matches!(event, UserEvent::Signed(_)),
        }
    }
}

fn user_not_found(id: i32) -> (e: ServiceError)
    ensures
        is_not_found(e, "user"@, id),
{
    ServiceError::NotFound { resource: String::from_str("user"), id }
}

fn unique_violation(e: &RepoError) -> (r: bool)
    ensures
        r == is_unique_violation(*e),
{
    match &e.code {
        Some(code) => same_text(code.as_str(), "23505"),
        None => false,
    }
}

/// The rules of the account service, run like those of `TaskService`: a first call,
/// then `resume` with each answer.
pub struct UserService;

impl UserService {
    pub fn new() -> (s: UserService) {
        UserService
    }

    /// Reads account `id`.
    pub fn get_user_by_id(&self, id: i32) -> (step: UserStep)
        ensures
            step == UserStep::Ask(UserStage::FetchingById { id }, UserQuery::FindById(id)),
    {
        UserStep::Ask(UserStage::FetchingById { id }, UserQuery::FindById(id))
    }

    /// Reads the account with this phone.
    pub fn get_user_by_phone(&self, phone: String) -> (step: UserStep)
        ensures
            step matches UserStep::Ask(UserStage::FetchingByPhone { phone: p }, UserQuery::FindByPhone(q))
                && p@ == phone@ && q == phone,
    {
        UserStep::Ask(UserStage::FetchingByPhone { phone: phone.clone() }, UserQuery::FindByPhone(phone))
    }

    /// Registers an account: name and phone may not be blank, the password must have at least
    /// eight bytes, and the phone may not be registered yet.
    pub fn create_user(&self, user: RegisterRequest) -> (step: UserStep)
        ensures
            registration_begins(user, step),
    {
        if is_blank(user.name.as_str()) {
            return UserStep::Finish(Err(ServiceError::Domain(DomainError::EmptyUserName)));
        }
        if is_blank(user.phone.as_str()) {
            return UserStep::Finish(Err(ServiceError::Domain(DomainError::EmptyPhone)));
        }
        if user.password.as_str().len() < MIN_PASSWORD_BYTES {
            return UserStep::Finish(Err(ServiceError::Domain(DomainError::PasswordTooShort)));
        }
        let phone = user.phone.clone();
        UserStep::Ask(
            UserStage::CheckingPhone {
                name: user.name,
                phone,
                password: user.password,
                role: user.role,
            },
            UserQuery::FindByPhone(user.phone),
        )
    }

    /// Logs in: the account is looked up by phone and the password checked against it.
    pub fn login(&self, request: LoginRequest) -> (step: UserStep)
        ensures
            step == UserStep::Ask(
                UserStage::LoggingIn { password: request.password },
                UserQuery::FindByPhone(request.phone),
            ),
    {
        UserStep::Ask(
            UserStage::LoggingIn { password: request.password },
            UserQuery::FindByPhone(request.phone),
        )
    }

    /// Lists every account.
    pub fn get_all_users(&self) -> (step: UserStep)
        ensures
            step == UserStep::Ask(UserStage::Listing, UserQuery::GetAll),
    {
        UserStep::Ask(UserStage::Listing, UserQuery::GetAll)
    }

    /// Removes account `id`.
    pub fn delete_user_by_id(&self, id: i32) -> (step: UserStep)
        ensures
            step == UserStep::Ask(UserStage::Deleting { id }, UserQuery::DeleteById(id)),
    {
        UserStep::Ask(UserStage::Deleting { id }, UserQuery::DeleteById(id))
    }

    /// The claims to sign for `user`, who has just proved their password.
    pub fn create_token(&self, user: &User) -> (c: Claims)
        ensures
            fresh_claims_for(c, *user),
    {
        token_claims(user)
    }

    /// The next move of an operation waiting at `stage`, once `event` has come back.
    pub fn resume(&self, stage: UserStage, event: UserEvent) -> (step: UserStep)
        requires
            user_stage_expects(stage, event),
        ensures
            user_resumes_to(stage, event, step),
    {
        match stage {
            UserStage::FetchingById { id } => match event {
                UserEvent::Found(Ok(Some(user))) => UserStep::Finish(Ok(UserOutcome::User(user))),
                UserEvent::Found(Ok(None)) => UserStep::Finish(Err(user_not_found(id))),
                UserEvent::Found(Err(e)) => UserStep::Finish(Err(ServiceError::Repo(e))),
                _ => vstd::pervasive::unreached(),
            },
            UserStage::FetchingByPhone { phone } => match event {
                UserEvent::Found(Ok(Some(user))) => UserStep::Finish(Ok(UserOutcome::User(user))),
                UserEvent::Found(Ok(None)) => UserStep::Finish(
                    Err(ServiceError::NotFoundPhone { resource: String::from_str("user"), phone }),
                ),
                UserEvent::Found(Err(e)) => UserStep::Finish(Err(ServiceError::Repo(e))),
                _ => vstd::pervasive::unreached(),
            },
            UserStage::Listing => match event {
                UserEvent::Listed(Ok(users)) => UserStep::Finish(Ok(UserOutcome::Users(users))),
                UserEvent::Listed(Err(e)) => UserStep::Finish(Err(ServiceError::Repo(e))),
                _ => vstd::pervasive::unreached(),
            },
            UserStage::Deleting { id } => match event {
                UserEvent::Deleted(Ok(deleted)) => {
                    if deleted {
                        UserStep::Finish(Ok(UserOutcome::Done))
                    } else {
                        UserStep::Finish(Err(user_not_found(id)))
                    }
                },
                UserEvent::Deleted(Err(e)) => UserStep::Finish(Err(ServiceError::Repo(e))),
                _ => vstd::pervasive::unreached(),
            },
            UserStage::CheckingPhone { name, phone, password, role } => match event {
                UserEvent::Found(Ok(Some(_))) => UserStep::Finish(
                    Err(ServiceError::Domain(DomainError::PhoneAlreadyExists)),
                ),
                UserEvent::Found(Ok(None)) => UserStep::Ask(
                    UserStage::Hashing { name, phone, role },
                    UserQuery::HashPassword(password),
                ),
                UserEvent::Found(Err(e)) => UserStep::Finish(Err(ServiceError::Repo(e))),
                _ => vstd::pervasive::unreached(),
            },
            UserStage::Hashing { name, phone, role } => match event {
                UserEvent::Hashed(Some(Ok(hash))) => UserStep::Ask(
                    UserStage::Creating,
                    UserQuery::Create(NewUser { name, phone, role, password_hash: hash }),
                ),
                UserEvent::Hashed(Some(Err(e))) => UserStep::Finish(Err(e)),
                UserEvent::Hashed(None) => UserStep::Finish(
                    Err(ServiceError::Domain(DomainError::Unauthorized)),
                ),
                _ => vstd::pervasive::unreached(),
            },
            UserStage::Creating => match event {
                UserEvent::Created(Ok(user)) => UserStep::Finish(Ok(UserOutcome::User(user))),
                UserEvent::Created(Err(e)) => {
                    if unique_violation(&e) {
                        UserStep::Finish(Err(ServiceError::Domain(DomainError::PhoneAlreadyExists)))
                    } else {
                        UserStep::Finish(Err(ServiceError::Repo(e)))
                    }
                },
                _ => vstd::pervasive::unreached(),
            },
            UserStage::LoggingIn { password } => match event {
                UserEvent::Found(Ok(Some(user))) => {
                    let password_hash = user.password_hash.clone();
                    UserStep::Ask(
                        UserStage::Verifying { user },
                        UserQuery::VerifyPassword { password, password_hash },
                    )
                },
                UserEvent::Found(Ok(None)) => UserStep::Finish(
                    Err(ServiceError::Domain(DomainError::InvalidCredentials)),
                ),
                UserEvent::Found(Err(e)) => UserStep::Finish(Err(ServiceError::Repo(e))),
                _ => vstd::pervasive::unreached(),
            },
            UserStage::Verifying { user } => match event {
                UserEvent::Verified(Some(Ok(valid))) => {
                    if valid {
                        UserStep::Ask(UserStage::Signing, UserQuery::SignToken(self.create_token(&user)))
                    } else {
                        UserStep::Finish(Err(ServiceError::Domain(DomainError::InvalidCredentials)))
                    }
                },
                UserEvent::Verified(Some(Err(e))) => UserStep::Finish(Err(e)),
                UserEvent::Verified(None) => UserStep::Finish(
                    Err(ServiceError::Domain(DomainError::InvalidCredentials)),
                ),
                _ => vstd::pervasive::unreached(),
            },
            UserStage::Signing => match event {
                UserEvent::Signed(Ok(token)) => UserStep::Finish(Ok(UserOutcome::Token(token))),
                UserEvent::Signed(Err(_)) => UserStep::Finish(
                    Err(ServiceError::Domain(DomainError::Unauthorized)),
                ),
                _ => vstd::pervasive::unreached(),
            },
        }
    }
}

/// A token is handed out only after the password checked out: the only step that asks for a
/// signature comes from a password check that answered `true`, and the only step that ends a
/// login with a token comes from a signature.
pub proof fn lemma_token_only_after_password_checks(
    stage: UserStage,
    event: UserEvent,
    step: UserStep,
)
    requires
        user_resumes_to(stage, event, step),
    ensures
        step matches UserStep::Ask(_, UserQuery::SignToken(_)) ==> stage is Verifying && event
            == UserEvent::Verified(Some(Ok::<bool, ServiceError>(true))),
        step matches UserStep::Ask(next, _) && next is Signing ==> stage is Verifying,
        step matches UserStep::Finish(Ok(UserOutcome::Token(t))) ==> stage is Signing && event
            == UserEvent::Signed(Ok::<String, ()>(t)),
{
}

/// No account is stored under a phone that the store already knows: the only step that asks to
/// store an account comes from the hashing stage, which is entered only after the look-up of
/// the phone found nothing.
pub proof fn lemma_taken_phone_never_registered(stage: UserStage, event: UserEvent, step: UserStep)
    requires
        user_resumes_to(stage, event, step),
    ensures
        step matches UserStep::Ask(_, UserQuery::Create(_)) ==> stage is Hashing,
        step matches UserStep::Ask(next, _) && next is Hashing ==> stage is CheckingPhone && event
            == UserEvent::Found(Ok::<Option<User>, RepoError>(None)),
        (stage is CheckingPhone && (event matches UserEvent::Found(Ok(Some(_))))) ==> step
            == user_refusal(DomainError::PhoneAlreadyExists),
{
}

/// Each answer brings an account operation closer to its end: none waits for more than three.
pub proof fn lemma_user_operation_progresses(stage: UserStage, event: UserEvent, step: UserStep)
    requires
        user_resumes_to(stage, event, step),
    ensures
        user_stage_rank(stage) <= 3,
        step matches UserStep::Ask(next, _) ==> user_stage_rank(next) < user_stage_rank(stage),
{
}

/// A registration stores the account that was asked for: when `create_user(user)` accepts the
/// request, the phone is free and the password has been hashed to `hash`, the password handed to
/// hashing is the request's, and the account handed to the store has the request's name, phone
/// and role, with `hash` as its password hash.
pub proof fn lemma_registration_stores_requested_account(
    user: RegisterRequest,
    first: UserStep,
    second: UserStep,
    hash: String,
    third: UserStep,
)
    requires
        registration_refusal(user) is None,
        registration_begins(user, first),
        first matches UserStep::Ask(s1, _) && user_resumes_to(
            s1,
            UserEvent::Found(Ok(None)),
            second,
        ),
        second matches UserStep::Ask(s2, _) && user_resumes_to(
            s2,
            UserEvent::Hashed(Some(Ok(hash))),
            third,
        ),
    ensures
        second matches UserStep::Ask(_, UserQuery::HashPassword(p)) && p == user.password,
        third matches UserStep::Ask(UserStage::Creating, UserQuery::Create(account)) && account.name
            == user.name && account.phone@ == user.phone@ && account.role == user.role
            && account.password_hash == hash,
{
}

/// A look-up returns the account the store found: when the store answers a look-up by id or by
/// phone with an account, the operation ends with that very account, and "not found" comes only
/// when the store found nothing.
pub proof fn lemma_lookup_returns_found_account(stage: UserStage, event: UserEvent, step: UserStep)
    requires
        stage is FetchingById || stage is FetchingByPhone,
        user_resumes_to(stage, event, step),
    ensures
        event matches UserEvent::Found(Ok(Some(u))) ==> step == UserStep::Finish(
            Ok(UserOutcome::User(u)),
        ),
        (step matches UserStep::Finish(Err(e)) && (e is NotFound || e is NotFoundPhone)) ==> event
            == UserEvent::Found(Ok::<Option<User>, RepoError>(None)),
{
}

/// An account is reported missing on removal only when the store removed nothing.
pub proof fn lemma_delete_not_found_only_when_nothing_removed(
    stage: UserStage,
    event: UserEvent,
    step: UserStep,
)
    requires
        stage is Deleting,
        user_resumes_to(stage, event, step),
    ensures
        (step matches UserStep::Finish(Err(e)) && e is NotFound) ==> event == UserEvent::Deleted(
            Ok::<bool, RepoError>(false),
        ),
        event == UserEvent::Deleted(Ok::<bool, RepoError>(true)) ==> step == UserStep::Finish(
            Ok(UserOutcome::Done),
        ),
{
}

} // verus!
