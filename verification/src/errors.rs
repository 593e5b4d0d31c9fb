use vstd::prelude::*;

use crate::reply::{Reply, ReplyBody, BAD_REQUEST, FORBIDDEN, INTERNAL_SERVER_ERROR, NOT_FOUND};
use crate::text::{append_decimal, decimal};

verus! {

/// A request that breaks one of the service's rules.
#[derive(Debug, Clone, Copy, PartialEq, Eq, Structural)]
pub enum DomainError {
    EmptyName,
    ReopenCancelledTask,
    UserCanUpdateOnlyStatus,
    EmptyUserName,
    EmptyPhone,
    PasswordTooShort,
    PhoneAlreadyExists,
    InvalidCredentials,
    Unauthorized,
}

/// The text that describes a rule violation.
pub open spec fn domain_message(e: DomainError) -> Seq<char> {
    match e {
        DomainError::EmptyName => "Task name can't be empy"@,
        DomainError::ReopenCancelledTask => "Can not reopen cancelled task"@,
        DomainError::UserCanUpdateOnlyStatus => "User can update only task status"@,
        DomainError::EmptyUserName => "User name can't be empty"@,
        DomainError::EmptyPhone => "Phone can't be empty"@,
        DomainError::PasswordTooShort => "Password must be at least 8 bytes long"@,
        DomainError::PhoneAlreadyExists => "Phone is already registered"@,
        DomainError::InvalidCredentials => "Invalid credentials"@,
        DomainError::Unauthorized => "Unauthorized"@,
    }
}

impl DomainError {
    /// The text that describes the violation.
    pub fn message(&self) -> (m: String)
        ensures
            m@ == domain_message(*self),
    {
        match self {
            DomainError::EmptyName => String::from_str("Task name can't be empy"),
            DomainError::ReopenCancelledTask => String::from_str("Can not reopen cancelled task"),
            DomainError::UserCanUpdateOnlyStatus => String::from_str(
                "User can update only task status",
            ),
            DomainError::EmptyUserName => String::from_str("User name can't be empty"),
            DomainError::EmptyPhone => String::from_str("Phone can't be empty"),
            DomainError::PasswordTooShort => String::from_str(
                "Password must be at least 8 bytes long",
            ),
            DomainError::PhoneAlreadyExists => String::from_str("Phone is already registered"),
            DomainError::InvalidCredentials => String::from_str("Invalid credentials"),
            DomainError::Unauthorized => String::from_str("Unauthorized"),
        }
    }
}

/// A failure reported by the store. `code` is the database's own error code, where
/// the failure came from the database and it gave one; `message` describes the failure.
#[derive(Debug, Clone)]
pub struct RepoError {
    pub code: Option<String>,
    pub message: String,
}

/// Why a service operation failed.
#[derive(Debug)]
pub enum ServiceError {
    NotFound { resource: String, id: i32 },
    NotFoundPhone { resource: String, phone: String },
    Forbidden(String),
    Domain(DomainError),
    Repo(RepoError),
}

/// `"<resource> with id <id> not found"`.
pub open spec fn not_found_message(resource: Seq<char>, id: int) -> Seq<char> {
    resource + " with id "@ + decimal(id) + " not found"@
}

/// `"<resource> with phone <phone> not found"`.
pub open spec fn not_found_phone_message(resource: Seq<char>, phone: Seq<char>) -> Seq<char> {
    resource + " with phone "@ + phone + " not found"@
}

/// The text that describes a service failure.
pub open spec fn service_message(e: ServiceError) -> Seq<char> {
    match e {
        ServiceError::NotFound { resource, id } => not_found_message(resource@, id as int),
        ServiceError::NotFoundPhone { resource, phone } => not_found_phone_message(
            resource@,
            phone@,
        ),
        ServiceError::Forbidden(reason) => "forbidden: "@ + reason@,
        ServiceError::Domain(d) => domain_message(d),
        ServiceError::Repo(r) => "database error: "@ + r.message@,
    }
}

fn not_found_text(resource: &String, id: i32) -> (m: String)
    ensures
        m@ == not_found_message(resource@, id as int),
{
    let mut m = resource.clone();
    m.append(" with id ");
    append_decimal(&mut m, id);
    m.append(" not found");
    m
}

fn not_found_phone_text(resource: &String, phone: &String) -> (m: String)
    ensures
        m@ == not_found_phone_message(resource@, phone@),
{
    let mut m = resource.clone();
    m.append(" with phone ");
    m.append(phone.as_str());
    m.append(" not found");
    m
}

impl ServiceError {
    /// The text that describes the failure.
    pub fn message(&self) -> (m: String)
        ensures
            m@ == service_message(*self),
    {
        match self {
            ServiceError::NotFound { resource, id } => not_found_text(resource, *id),
            ServiceError::NotFoundPhone { resource, phone } => not_found_phone_text(
                resource,
                phone,
            ),
            ServiceError::Forbidden(reason) => String::from_str("forbidden: ").concat(
                reason.as_str(),
            ),
            ServiceError::Domain(d) => d.message(),
            ServiceError::Repo(r) => String::from_str("database error: ").concat(
                r.message.as_str(),
            ),
        }
    }
}

/// A service failure on its way back to the client.
pub struct ApiError(pub ServiceError);

impl From<ServiceError> for ApiError {
    fn from(err: ServiceError) -> (api: ApiError)
        ensures
            api == ApiError(err),
    {
        ApiError(err)
    }
}

impl vstd::std_specs::convert::FromSpecImpl<ServiceError> for ApiError {
    open spec fn obeys_from_spec() -> bool {
        true
    }

    open spec fn from_spec(v: ServiceError) -> ApiError {
        ApiError(v)
    }
}

/// The status code that answers a failure.
pub open spec fn error_status(e: ServiceError) -> u16 {
    match e {
        ServiceError::NotFound { .. } => NOT_FOUND,
        ServiceError::NotFoundPhone { .. } => NOT_FOUND,
        ServiceError::Forbidden(_) => FORBIDDEN,
        ServiceError::Domain(_) => BAD_REQUEST,
        ServiceError::Repo(_) => INTERNAL_SERVER_ERROR,
    }
}

/// The message sent to the client for a failure; store failures are not disclosed.
pub open spec fn error_reply_message(e: ServiceError) -> Seq<char> {
    match e {
        ServiceError::Forbidden(reason) => reason@,
        ServiceError::Repo(_) => "internal server error"@,
        _ => service_message(e),
    }
}

impl ApiError {
    /// The reply that reports the failure: a status code and a JSON `message`.
    pub fn into_response(self) -> (r: Reply)
        ensures
            r.status == error_status(self.0),
            r.body matches ReplyBody::ErrorMessage(m) && m@ == error_reply_message(self.0),
    {
        let status: u16 = match &self.0 {
            ServiceError::NotFound { .. } => NOT_FOUND,
            ServiceError::NotFoundPhone { .. } => NOT_FOUND,
            ServiceError::Forbidden(_) => FORBIDDEN,
            ServiceError::Domain(_) => BAD_REQUEST,
            ServiceError::Repo(_) => INTERNAL_SERVER_ERROR,
        };
        let message = match self.0 {
            ServiceError::Forbidden(reason) => reason,
            ServiceError::Repo(_) => String::from_str("internal server error"),
            other => other.message(),
        };
        Reply { status, body: ReplyBody::ErrorMessage(message) }
    }
}

} // verus!
