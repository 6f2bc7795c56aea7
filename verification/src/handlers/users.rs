//! The user requests: what is shown of a user, logging in, favourite
//! projects, and how a failed registration is reported.

use vstd::prelude::*;
use crate::error::AppError;
use crate::helpers::password::{accepts, hex_decoded, within_limits};
use crate::helpers::text::{contains_text, has_text};
use crate::schemas::user::{
    expiry,
    texts,
    Claims,
    FavoriteChange,
    LoginInput,
    UpdateFavoriteProjectsInput,
    User,
    UserOutput,
};

verus! {

/// What is shown of the found user; `Forbidden` exactly where none was
/// found.
pub fn get_user_data(found: Option<User>) -> (r: Result<UserOutput, AppError>)
    ensures
        match r {
            Ok(out) => {
                &&& found matches Some(user)
                &&& out.name@ == user.name@
                &&& texts(out.favorite_projects@) == texts(user.favorite_projects@)
            },
            Err(AppError::Forbidden) => found is None,
            Err(_) => false,
        },
{
    match found {
        Some(user) => Ok(UserOutput::new(user)),
        None => Err(AppError::Forbidden),
    }
}

/// Logs in the user found under the e-mail address of `payload` with the
/// password of `payload`, and gives the claims of the token to issue: the
/// user's e-mail address and id, issued now.
///
/// `InvalidCredentials` where no user was found or the password is not
/// accepted; `Decode` where the stored salt or hash is no upper-case
/// hexadecimal text.
pub fn login_user(found: Option<User>, payload: LoginInput) -> (r: Result<Claims, AppError>)
    ensures
        match r {
            Ok(claims) => {
                &&& found matches Some(user)
                &&& accepts(user.salt@, user.password@, payload.password@)
                &&& claims.sub@ == user.email@
                &&& claims.user_id@ == user.id@
                &&& claims.exp == expiry(claims.iat)
            },
            Err(AppError::Decode(_)) => {
                &&& found matches Some(user)
                &&& within_limits(user.salt@, user.password@, payload.password@)
                &&& hex_decoded(user.salt@) is None || hex_decoded(user.password@) is None
            },
            Err(AppError::InvalidCredentials) => found matches Some(user) ==> !accepts(
                user.salt@,
                user.password@,
                payload.password@,
            ) || !within_limits(user.salt@, user.password@, payload.password@),
            Err(_) => false,
        },
{
    let user = match found {
        Some(user) => user,
        None => {
            return Err(AppError::InvalidCredentials);
        },
    };
    match user.validate_password(payload.password) {
        Ok(_) => Ok(Claims::new(user.email, user.id)),
        Err(e) => Err(e),
    }
}

/// What becomes of the project of `payload` among the found user's
/// favourites; `Forbidden` exactly where no user was found.
pub fn edit_favorite_projects(found: &Option<User>, payload: &UpdateFavoriteProjectsInput) -> (r:
    Result<FavoriteChange, AppError>)
    ensures
        match r {
            Ok(change) => {
                &&& *found matches Some(user)
                &&& (change == FavoriteChange::Remove <==> texts(user.favorite_projects@).contains(
                    payload.project_id@,
                ))
            },
            Err(AppError::Forbidden) => *found is None,
            Err(_) => false,
        },
{
    match found {
        Some(user) => Ok(user.favorite_change(&payload.project_id)),
        None => Err(AppError::Forbidden),
    }
}

/// The name of the index that keeps e-mail addresses unique.
pub const EMAIL_INDEX: &'static str = "userEmailIndex";

/// How a failure to store a new user is reported: a failure that names the
/// index of e-mail addresses means that the address is taken; any other is a
/// failure of the database, reported with its cause.
pub fn registration_error(cause: String) -> (r: AppError)
    ensures
        match r {
            AppError::UserAlreadyRegistered => contains_text(cause@, EMAIL_INDEX@),
            AppError::SurrealError(text) => !contains_text(cause@, EMAIL_INDEX@) && text@
                == cause@,
            _ => false,
        },
{
    if has_text(cause.as_str(), EMAIL_INDEX) {
        AppError::UserAlreadyRegistered
    } else {
        AppError::SurrealError(cause)
    }
}

} // verus!
