use vstd::prelude::*;

use crate::errors::{AppError, ErrorKind};
use crate::ids::{ascii_prefix, lemma_uuid_ascii, new_uuid_text, uuid_text_shape};
use crate::models::{auth, user};
use crate::modules::user::schemas::UpdateUserRequest;
use crate::infra::sessions::{ended_by, ids_view, revoked_users, AccountChange};
use crate::text::{chars_of, concat3, copy_range, string_of};

verus! {

broadcast use vstd::string::group_string_axioms;

/// Manages users and their credentials.
pub struct UserModuleService;

/// The e-mail that replaces a deleted user's: built from the first eight
/// characters of a fresh UUID.
pub open spec fn spec_anonymized_email(uuid: Seq<char>) -> Seq<char> {
    "deleted-anonymized-"@ + uuid.take(8) + "@deleted.com"@
}

/// What stands in place of a deleted user's phone and document.
pub open spec fn blank_number() -> Seq<char> {
    "00000000000"@
}

/// Credentials as a user's deletion leaves them: inactive, marked deleted
/// now, without password.
pub open spec fn revoked(a: auth::Model, now: i64) -> auth::Model {
    auth::Model { active: false, is_deleted: Some(true), deleted_at: Some(now), password: None, ..a }
}

impl UserModuleService {
    /// A user may only be given a role that exists.
    pub fn check_role_exists(found: bool) -> (r: Result<(), AppError>)
        ensures
            found ==> r is Ok,
            !found ==> (r matches Err(e) && e@ == (ErrorKind::BadRequest,
                "ID de perfil (role) fornecido inválido"@)),
    {
        if !found {
            return Err(
                AppError::with_text(ErrorKind::BadRequest, "ID de perfil (role) fornecido inválido"),
            );
        }
        Ok(())
    }

    /// The credentials of a new user: the password hash, active, not
    /// deleted, no password request pending, no retries, first access to
    /// come.
    pub fn new_credentials(id: String, password_hash: String, now: i64) -> (r: auth::Model)
        ensures
            r.id == id,
            r.password == Some(password_hash),
            r.request_password_token is None,
            r.request_password_expiration is None,
            r.retries == 0,
            r.first_access,
            r.active,
            r.is_deleted == Some(false),
            r.deleted_at is None,
            r.created_at == now,
            r.updated_at == now,
    {
        auth::Model {
            id,
            password: Some(password_hash),
            request_password_token: None,
            request_password_expiration: None,
            retries: 0,
            first_access: true,
            active: true,
            is_deleted: Some(false),
            deleted_at: None,
            created_at: now,
            updated_at: now,
        }
    }

    /// A user with the details of an update; the active status changes only
    /// where the update gives one.
    pub fn apply_update(u: user::Model, payload: UpdateUserRequest) -> (r: user::Model)
        ensures
            r.id == u.id,
            r.name == payload.name,
            r.email == payload.email,
            r.id_role == payload.id_role,
            r.phone == payload.phone,
            r.document == payload.document,
            r.active == match payload.active {
                Some(a) => a,
                None => u.active,
            },
            r.cognito_id == u.cognito_id,
            r.created_at == u.created_at,
            r.updated_at == u.updated_at,
            r.is_deleted == u.is_deleted,
            r.deleted_at == u.deleted_at,
            r.avatar == u.avatar,
            r.id_auth == u.id_auth,
    {
        let active = match payload.active {
            Some(a) => a,
            None => u.active,
        };
        user::Model {
            name: payload.name,
            email: payload.email,
            id_role: payload.id_role,
            phone: payload.phone,
            document: payload.document,
            active,
            ..u
        }
    }

    /// Revokes the credentials of a deleted user.
    pub fn revoke_credentials(a: auth::Model, now: i64) -> (r: auth::Model)
        ensures
            r == revoked(a, now),
    {
        auth::Model { active: false, is_deleted: Some(true), deleted_at: Some(now), password: None, ..a }
    }

    /// The e-mail that replaces a deleted user's, from a UUID in text form.
    pub fn anonymized_email(uuid: &str) -> (r: String)
        requires
            ascii_prefix(uuid@, 8),
        ensures
            r@ == spec_anonymized_email(uuid@),
    {
        let u = chars_of(uuid);
        let head = string_of(&copy_range(&u, 0, 8));
        assert(u@.subrange(0, 8) =~= uuid@.take(8));
        concat3("deleted-anonymized-", head.as_str(), "@deleted.com")
    }

    /// A user as its deletion leaves it, given a UUID in text form: name,
    /// e-mail, phone, document and avatar replaced, inactive, marked deleted
    /// now; id, role, credentials link and creation kept.
    pub fn anonymize(u: user::Model, uuid: &str, now: i64) -> (r: user::Model)
        requires
            ascii_prefix(uuid@, 8),
        ensures
            r.id == u.id,
            r.name@ == "Deleted User"@,
            r.email@ == spec_anonymized_email(uuid@),
            r.phone matches Some(p) && p@ == blank_number(),
            r.document matches Some(d) && d@ == blank_number(),
            !r.active,
            r.is_deleted == Some(true),
            r.deleted_at == Some(now),
            r.avatar is None,
            r.cognito_id == u.cognito_id,
            r.created_at == u.created_at,
            r.updated_at == u.updated_at,
            r.id_auth == u.id_auth,
            r.id_role == u.id_role,
    {
        let email = Self::anonymized_email(uuid);
        user::Model {
            name: String::from_str("Deleted User"),
            email,
            phone: Some(String::from_str("00000000000")),
            document: Some(String::from_str("00000000000")),
            active: false,
            is_deleted: Some(true),
            deleted_at: Some(now),
            avatar: None,
            ..u
        }
    }

    /// Anonymizes a deleted user with a fresh random UUID.
    pub fn anonymize_now(u: user::Model, now: i64) -> (r: user::Model)
        ensures
            r.id == u.id,
            r.name@ == "Deleted User"@,
            exists|x: Seq<char>| uuid_text_shape(x) && r.email@ == spec_anonymized_email(x),
            r.phone matches Some(p) && p@ == blank_number(),
            r.document matches Some(d) && d@ == blank_number(),
            !r.active,
            r.is_deleted == Some(true),
            r.deleted_at == Some(now),
            r.avatar is None,
            r.cognito_id == u.cognito_id,
            r.created_at == u.created_at,
            r.updated_at == u.updated_at,
            r.id_auth == u.id_auth,
            r.id_role == u.id_role,
    {
        let x = new_uuid_text();
        proof {
            lemma_uuid_ascii(x@, 8);
        }
        Self::anonymize(u, x.as_str(), now)
    }

    /// A user's status change: the user with its new active status, updated
    /// now, and the users whose sessions it ends, which is that user alone.
    pub fn toggle_user_status(u: user::Model, active: bool, now: i64) -> (r: (user::Model, Vec<String>))
        ensures
            r.0 == (user::Model { active: active, updated_at: now, ..u }),
            ids_view(r.1@) == seq![u.id@],
            ids_view(r.1@) == ended_by(AccountChange::UserStatusChanged, u.id@, Seq::empty()),
    {
        let no_members: Vec<String> = Vec::new();
        let ended = revoked_users(AccountChange::UserStatusChanged, u.id.as_str(), &no_members);
        proof {
            assert(ids_view(no_members@) =~= Seq::<Seq<char>>::empty());
        }
        (user::Model { active, updated_at: now, ..u }, ended)
    }
}

} // verus!
