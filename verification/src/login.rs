use vstd::prelude::*;

use crate::auth::{generate_token, token_issued_at};
use crate::config::AppConfig;
use crate::crypto::{bcrypt_verification, bcrypt_verify};
use crate::error::{AppError, InternalError};
use crate::text::same_text;
use crate::user::{updated_record, user_of_record, PersonRecord, Role, UpdateUser, User};

verus! {

/// Whether a request carries the terminal secret of the configuration.
pub open spec fn carries_terminal_secret(rv_terminal_secret: Option<&str>, config: &AppConfig) -> bool {
    rv_terminal_secret matches Some(s) && s@ == config.rv_terminal_secret@
}

/// Whether a login comes from the terminal: it carries the terminal secret
/// of the configuration.
pub fn terminal_login(rv_terminal_secret: Option<&str>, config: &AppConfig) -> (r: bool)
    ensures
        r == carries_terminal_secret(rv_terminal_secret, config),
{
    match rv_terminal_secret {
        Some(s) => same_text(s, config.rv_terminal_secret.as_str()),
        None => false,
    }
}

/// Whether an error is a refusal of credentials with the given message.
pub open spec fn is_invalid_credentials(e: AppError, message: Seq<char>) -> bool {
    e matches AppError::InvalidCredentials(m) && m@ == message
}

/// Decides a login by password for the stored account `user`: a
/// deactivated account is refused, and otherwise the password must check
/// against the stored hash.
pub fn check_password_login(password: &str, user: &User) -> (r: Result<(), AppError>)
    ensures
        user.role == Role::Inactive ==> r == Err::<(), AppError>(AppError::NotAuthorized),
        user.role != Role::Inactive ==> (r is Ok <==> bcrypt_verification(password@, user.password_hash@) == Some(true)),
        user.role != Role::Inactive && r is Err ==> is_invalid_credentials(r->Err_0, "Invalid username or password"@),
{
    if user.role == Role::Inactive {
        return Err(AppError::NotAuthorized);
    }
    match bcrypt_verify(password, user.password_hash.as_str()) {
        Ok(true) => Ok(()),
        _ => Err(AppError::InvalidCredentials(String::from_str("Invalid username or password"))),
    }
}

/// Logs a user in by password and issues its access token, marked as
/// coming from the terminal where the request carries the terminal secret.
pub fn login(password: &str, rv_terminal_secret: Option<&str>, user: &User, config: &AppConfig) -> (r: Result<String, AppError>)
    ensures
        user.role == Role::Inactive ==> r == Err::<String, AppError>(AppError::NotAuthorized),
        user.role != Role::Inactive && bcrypt_verification(password@, user.password_hash@) != Some(true)
            ==> is_invalid_credentials(r->Err_0, "Invalid username or password"@) && r is Err,
        r matches Ok(t) ==> {
            &&& user.role != Role::Inactive
            &&& bcrypt_verification(password@, user.password_hash@) == Some(true)
            &&& exists|now: i64| #[trigger] token_issued_at(
                t@,
                user.id,
                carries_terminal_secret(rv_terminal_secret, config),
                config.jwt_secret@,
                config.jwt_expiry,
                now,
            )
        },
        user.role != Role::Inactive && bcrypt_verification(password@, user.password_hash@) == Some(true)
            ==> r is Ok || r->Err_0 == AppError::Internal(InternalError::TokenTimeOutOfRange)
                || r->Err_0 == AppError::Internal(InternalError::ClockOutOfRange),
        r matches Err(e) ==> e == AppError::NotAuthorized || e is InvalidCredentials
            || e == AppError::Internal(InternalError::TokenTimeOutOfRange)
            || e == AppError::Internal(InternalError::ClockOutOfRange),
{
    let from_terminal = terminal_login(rv_terminal_secret, config);
    match check_password_login(password, user) {
        Ok(()) => {},
        Err(e) => return Err(e),
    }
    generate_token(user.id, from_terminal, config.jwt_secret.as_str(), config.jwt_expiry)
}

/// Admits an RFID login only where the request carries the terminal
/// secret.
pub fn check_rfid_terminal(rv_terminal_secret: Option<&str>, config: &AppConfig) -> (r: Result<(), AppError>)
    ensures
        r is Ok <==> carries_terminal_secret(rv_terminal_secret, config),
        r matches Err(e) ==> e == AppError::NotAuthorized,
{
    if terminal_login(rv_terminal_secret, config) {
        Ok(())
    } else {
        Err(AppError::NotAuthorized)
    }
}

/// Logs in the account that an RFID tag was found to belong to (if any)
/// and issues its access token, which is marked as coming from the
/// terminal.
pub fn rfid_login(user: Option<User>, config: &AppConfig) -> (r: Result<String, AppError>)
    ensures
        user is None ==> r is Err && is_invalid_credentials(r->Err_0, "Invalid rfid"@),
        user matches Some(u) && u.role == Role::Inactive ==> r == Err::<String, AppError>(AppError::NotAuthorized),
        r matches Ok(t) ==> user matches Some(u) && u.role != Role::Inactive && exists|now: i64|
            #[trigger] token_issued_at(t@, u.id, true, config.jwt_secret@, config.jwt_expiry, now),
        user matches Some(u) && u.role != Role::Inactive && r is Err ==> r->Err_0
            == AppError::Internal(InternalError::TokenTimeOutOfRange) || r->Err_0
            == AppError::Internal(InternalError::ClockOutOfRange),
{
    let user = match user {
        Some(u) => u,
        None => return Err(AppError::InvalidCredentials(String::from_str("Invalid rfid"))),
    };
    if user.role == Role::Inactive {
        return Err(AppError::NotAuthorized);
    }
    generate_token(user.id, true, config.jwt_secret.as_str(), config.jwt_expiry)
}

/// Whether an error reports a taken identifier with the given message.
pub open spec fn is_identifier_taken(e: AppError, message: Seq<char>) -> bool {
    e matches AppError::IdentifierTaken(m) && m@ == message
}

/// Refuses a registration whose user name or email address is taken, the
/// user name being checked first.
pub fn check_registration(username_taken: bool, email_taken: bool) -> (r: Result<(), AppError>)
    ensures
        r is Ok <==> !username_taken && !email_taken,
        username_taken ==> r is Err && is_identifier_taken(r->Err_0, "Username is already in use."@),
        !username_taken && email_taken ==> r is Err && is_identifier_taken(r->Err_0, "Email is already in use."@),
{
    if username_taken {
        return Err(AppError::IdentifierTaken(String::from_str("Username is already in use.")));
    }
    if email_taken {
        return Err(AppError::IdentifierTaken(String::from_str("Email is already in use.")));
    }
    Ok(())
}

/// After a password change, the new password checks against the stored
/// hash, so a password login of the changed account succeeds unless the
/// account is deactivated.
pub proof fn lemma_changed_password_logs_in(
    old: PersonRecord,
    data: UpdateUser,
    salt: Seq<u8>,
    new: PersonRecord,
    temp_password_hash: Option<String>,
    user: User,
    password: String,
)
    requires
        data.password == Some(password),
        updated_record(old, data, salt, new),
        user_of_record(user, new, temp_password_hash),
    ensures
        bcrypt_verification(password@, user.password_hash@) == Some(true),
{
}

} // verus!
