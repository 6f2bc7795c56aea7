//! Users, their roles, their credentials and what is shown of them.

use vstd::prelude::*;
use crate::error::AppError;
use crate::helpers::password::{
    accepts,
    all_upper_hex,
    check_password,
    encrypt_password,
    hex_decoded,
    within_limits,
    CREDENTIAL_LEN,
};
use crate::helpers::uuid::{generate_uuid, is_simple_uuid};

verus! {

/// What a caller supplies to register.
#[derive(Debug)]
pub struct CreateUserInput {
    pub email: String,
    pub name: String,
    pub password: String,
}

/// What a caller supplies to log in.
#[derive(Debug)]
pub struct LoginInput {
    pub email: String,
    pub password: String,
}

/// What a bearer token states: the user's e-mail address and id, when the
/// token was issued and when it expires, both in seconds since the epoch.
#[derive(Debug)]
pub struct Claims {
    pub sub: String,
    pub user_id: String,
    pub iat: i64,
    pub exp: i64,
}

/// What a user may do.
#[derive(Debug, Clone, Copy, PartialEq, Eq, Structural)]
pub enum UserRole {
    User,
    Manager,
    Admin,
}

/// A user as stored. The password is kept as a salted hash, hash and salt
/// both in upper-case hexadecimal.
#[derive(Debug)]
pub struct User {
    pub id: String,
    pub name: String,
    pub email: String,
    pub role: UserRole,
    pub favorite_projects: Vec<String>,
    pub password: String,
    pub salt: String,
}

/// What is shown of a user.
#[derive(Debug)]
pub struct UserOutput {
    pub name: String,
    pub favorite_projects: Vec<String>,
}

/// The project whose place among a user's favourites is to change.
#[derive(Debug)]
pub struct UpdateFavoriteProjectsInput {
    pub project_id: String,
}

/// What becomes of a project among a user's favourites.
#[derive(Debug, Clone, Copy, PartialEq, Eq, Structural)]
pub enum FavoriteChange {
    /// The project is no favourite yet, and becomes one.
    Insert,
    /// The project is a favourite, and ceases to be one.
    Remove,
}

/// The texts of a list, in order.
pub open spec fn texts(list: Seq<String>) -> Seq<Seq<char>> {
    list.map_values(|s: String| s@)
}

/// How long a token is valid, in seconds: forty days.
pub const TOKEN_LIFETIME: i64 = 3_456_000;

/// When a token issued at `now` expires: forty days later, or at the
/// latest time that can be told where that is earlier.
pub open spec fn expiry(now: i64) -> i64 {
    if now <= i64::MAX - TOKEN_LIFETIME {
        (now + TOKEN_LIFETIME) as i64
    } else {
        i64::MAX
    }
}

/// Reads the clock with `chrono::Utc::now` and gives the seconds since the
/// epoch.
///
/// Trusted, and nothing is claimed: the reading depends on the clock. The
/// call panics where the clock is set before the epoch; no argument could
/// keep it from that.
#[verifier::external_body]
fn current_timestamp() -> (r: i64) {
    chrono::Utc::now().timestamp()
}

impl Claims {
    /// The claims of a token issued to the user at `now`.
    pub fn issued_at(user_email: String, user_id: String, now: i64) -> (r: Claims)
        ensures
            r.sub@ == user_email@,
            r.user_id@ == user_id@,
            r.iat == now,
            r.exp == expiry(now),
    {
        let exp = if now <= i64::MAX - TOKEN_LIFETIME {
            now + TOKEN_LIFETIME
        } else {
            i64::MAX
        };
        Claims { user_id, sub: user_email, iat: now, exp }
    }

    /// The claims of a token issued to the user now. Panics where the clock
    /// is set before the epoch.
    pub fn new(user_email: String, user_id: String) -> (r: Claims)
        ensures
            r.sub@ == user_email@,
            r.user_id@ == user_id@,
            r.exp == expiry(r.iat),
    {
        Claims::issued_at(user_email, user_id, current_timestamp())
    }
}

impl User {
    /// Registers a user: the supplied name and e-mail address, the role of
    /// a plain user, no favourite projects, a fresh random id, and the
    /// password as a salted hash. Hash and salt are 128 upper-case
    /// hexadecimal digits each, and `validate_password` succeeds on the
    /// password that was supplied.
    ///
    /// Fails with `Unspecified` where no random salt can be had, and with
    /// `InvalidCredentials` exactly where the password is longer than the
    /// key derivation takes.
    pub fn new(new_user: CreateUserInput) -> (r: Result<User, AppError>)
        ensures
            match r {
                Ok(user) => {
                    &&& user.name@ == new_user.name@
                    &&& user.email@ == new_user.email@
                    &&& user.role == UserRole::User
                    &&& user.favorite_projects@.len() == 0
                    &&& is_simple_uuid(user.id@)
                    &&& user.password@.len() == 2 * CREDENTIAL_LEN
                    &&& user.salt@.len() == 2 * CREDENTIAL_LEN
                    &&& all_upper_hex(user.password@)
                    &&& all_upper_hex(user.salt@)
                    &&& accepts(user.salt@, user.password@, new_user.password@)
                    &&& within_limits(user.salt@, user.password@, new_user.password@)
                },
                Err(AppError::InvalidCredentials) => vstd::utf8::encode_utf8(
                    new_user.password@,
                ).len() > crate::helpers::password::MAX_INPUT_LEN,
                Err(AppError::Unspecified(_)) => vstd::utf8::encode_utf8(
                    new_user.password@,
                ).len() <= crate::helpers::password::MAX_INPUT_LEN,
                Err(_) => false,
            },
    {
        let (password, salt) = match User::encrypt_password(new_user.password) {
            Ok(pair) => pair,
            Err(e) => {
                return Err(e);
            },
        };
        Ok(
            User {
                id: generate_uuid(true),
                name: new_user.name,
                email: new_user.email,
                role: UserRole::User,
                favorite_projects: Vec::new(),
                password,
                salt,
            },
        )
    }

    /// Hashes `password` under a fresh random salt; gives the hash and the
    /// salt.
    pub fn encrypt_password(password: String) -> (r: Result<(String, String), AppError>)
        ensures
            match r {
                Ok((hash, salt)) => {
                    &&& hash@.len() == 2 * CREDENTIAL_LEN
                    &&& salt@.len() == 2 * CREDENTIAL_LEN
                    &&& all_upper_hex(hash@)
                    &&& all_upper_hex(salt@)
                    &&& accepts(salt@, hash@, password@)
                    &&& within_limits(salt@, hash@, password@)
                },
                Err(AppError::InvalidCredentials) => vstd::utf8::encode_utf8(password@).len()
                    > crate::helpers::password::MAX_INPUT_LEN,
                Err(AppError::Unspecified(_)) => vstd::utf8::encode_utf8(password@).len()
                    <= crate::helpers::password::MAX_INPUT_LEN,
                Err(_) => false,
            },
    {
        encrypt_password(password)
    }

    /// Checks `password` against the stored salt and hash.
    ///
    /// Where the three texts are within the limits of the key derivation:
    /// `Decode` exactly where the stored salt or hash is no upper-case
    /// hexadecimal text, `InvalidCredentials` exactly where both are and the
    /// password is not the one they were made from, and success exactly
    /// where it is. Texts beyond the limits are `InvalidCredentials`.
    pub fn validate_password(&self, password: String) -> (r: Result<(), AppError>)
        ensures
            (within_limits(self.salt@, self.password@, password@) && accepts(
                self.salt@,
                self.password@,
                password@,
            )) ==> r is Ok,
            match r {
                Ok(_) => accepts(self.salt@, self.password@, password@) && within_limits(
                    self.salt@,
                    self.password@,
                    password@,
                ),
                Err(AppError::Decode(_)) => {
                    &&& within_limits(self.salt@, self.password@, password@)
                    &&& hex_decoded(self.salt@) is None || hex_decoded(self.password@) is None
                },
                Err(AppError::InvalidCredentials) => {
                    ||| !within_limits(self.salt@, self.password@, password@)
                    ||| (hex_decoded(self.salt@) is Some && hex_decoded(self.password@) is Some
                        && !accepts(self.salt@, self.password@, password@))
                },
                Err(_) => false,
            },
    {
        check_password(self.salt.as_str(), self.password.as_str(), password.as_str())
    }

    /// What a request to change the place of `project_id` among the user's
    /// favourites does: it removes a project that is one, and inserts one
    /// that is not.
    pub fn favorite_change(&self, project_id: &String) -> (r: FavoriteChange)
        ensures
            r == FavoriteChange::Remove <==> texts(self.favorite_projects@).contains(project_id@),
    {
        let ghost all = texts(self.favorite_projects@);
        let mut i: usize = 0;
        while i < self.favorite_projects.len()
            invariant
                i <= self.favorite_projects.len(),
                all == texts(self.favorite_projects@),
                forall|j: int| 0 <= j < i ==> #[trigger] all[j] != project_id@,
            decreases self.favorite_projects.len() - i,
        {
            if self.favorite_projects[i] == *project_id {
                proof {
                    assert(all[i as int] == project_id@);
                }
                return FavoriteChange::Remove;
            }
            i = i + 1;
        }
        FavoriteChange::Insert
    }
}

impl UserOutput {
    /// The name and the favourite projects of `user`, and nothing else.
    pub fn new(user: User) -> (r: UserOutput)
        ensures
            r.name@ == user.name@,
            texts(r.favorite_projects@) == texts(user.favorite_projects@),
    {
        UserOutput { name: user.name, favorite_projects: user.favorite_projects }
    }
}

} // verus!
