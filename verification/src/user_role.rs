use vstd::prelude::*;

use crate::text::same_text;

verus! {

/// What an account may do: plain users see their own tasks, admins see everything.
#[derive(Debug, Clone, Copy, PartialEq, Eq, Structural)]
pub enum UserRole {
    User,
    Admin,
}

/// The text under which a role is stored and sent.
pub open spec fn role_text(role: UserRole) -> Seq<char> {
    match role {
        UserRole::Admin => "admin"@,
        UserRole::User => "user"@,
    }
}

/// The role stored under `text`, if any.
pub open spec fn role_named(text: Seq<char>) -> Option<UserRole> {
    if text == "admin"@ {
        Some(UserRole::Admin)
    } else if text == "user"@ {
        Some(UserRole::User)
    } else {
        None
    }
}

/// The message given for a text that names no role.
pub open spec fn unknown_role_message(text: Seq<char>) -> Seq<char> {
    "Unknown user role: "@ + text
}

impl From<UserRole> for String {
    fn from(value: UserRole) -> (text: String)
        ensures
            text@ == role_text(value),
    {
        match value {
            UserRole::Admin => String::from_str("admin"),
            UserRole::User => String::from_str("user"),
        }
    }
}

impl vstd::std_specs::convert::FromSpecImpl<UserRole> for String {
    open spec fn obeys_from_spec() -> bool {
        false
    }

    open spec fn from_spec(v: UserRole) -> String {
        arbitrary()
    }
}

impl TryFrom<String> for UserRole {
    type Error = String;

    fn try_from(value: String) -> (parsed: Result<UserRole, String>)
        ensures
            match role_named(value@) {
                Some(role) => parsed == Ok::<UserRole, String>(role),
                None => parsed matches Err(message) && message@ == unknown_role_message(value@),
            },
    {
        let text = value.as_str();
        if same_text(text, "admin") {
            Ok(UserRole::Admin)
        } else if same_text(text, "user") {
            Ok(UserRole::User)
        } else {
            Err(String::from_str("Unknown user role: ").concat(text))
        }
    }
}

impl vstd::std_specs::convert::TryFromSpecImpl<String> for UserRole {
    open spec fn obeys_try_from_spec() -> bool {
        false
    }

    open spec fn try_from_spec(v: String) -> Result<UserRole, String> {
        arbitrary()
    }
}

/// Whether the role is the administrator's.
pub fn is_admin(role: UserRole) -> (r: bool)
    ensures
        r == (role == UserRole::Admin),
{
    match role {
        UserRole::Admin => true,
        UserRole::User => false,
    }
}

/// Reading back the text of a role gives that role.
pub proof fn lemma_role_text_round_trip(role: UserRole)
    ensures
        role_named(role_text(role)) == Some(role),
{
    reveal_strlit("admin");
    reveal_strlit("user");
    assert("admin"@.len() == 5 && "user"@.len() == 4);
}

/// A text that names a role is exactly the text of that role.
pub proof fn lemma_role_named_is_text(text: Seq<char>)
    ensures
        role_named(text) matches Some(role) ==> role_text(role) == text,
{
}

/// Distinct roles are stored under distinct texts.
pub proof fn lemma_role_text_injective(a: UserRole, b: UserRole)
    ensures
        role_text(a) == role_text(b) ==> a == b,
{
    lemma_role_text_round_trip(a);
    lemma_role_text_round_trip(b);
}

} // verus!
