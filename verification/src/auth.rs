//! Signing in through the identity provider, signing out, and resolving the
//! user of a session.

use vstd::prelude::*;
use vstd::string::*;

use crate::audit::{AuditEntry, AuditEvent};
use crate::codec::{percent_decoded, percent_encoded, urlencoding_decode, urlencoding_encode};
use crate::error::AppError;
use crate::primitives::Uuid;
use crate::structs::{
    says, user_response_of, ApiResponse, GoogleUserInfo, User, UserResponse, UserRole, UserStatus,
};
use crate::text::{ends_with, has_suffix};

verus! {

/// The key under which a session keeps the identifier of its user.
pub const SESSION_USER_ID_KEY: &'static str = "user_id";

/// What the identity provider hands back to the callback address.
#[derive(Clone, Debug, PartialEq, Eq)]
pub struct GoogleCallbackQuery {
    pub code: String,
    pub state: Option<String>,
}

/// The registration of this backend with the identity provider, and the
/// address of the frontend where one is configured.
#[derive(Clone, Debug, PartialEq, Eq)]
pub struct OAuthConfig {
    pub client_id: String,
    pub client_secret: String,
    pub redirect_uri: String,
    pub frontend_url: Option<String>,
}

/// The request that exchanges an authorization code for an access token.
#[derive(Clone, Debug, PartialEq, Eq)]
pub struct GoogleTokenRequest {
    pub code: String,
    pub client_id: String,
    pub client_secret: String,
    pub redirect_uri: String,
    pub grant_type: String,
}

/// The frontend to fall back on: the configured one, or the local
/// development server.
pub open spec fn fallback_frontend(configured: Option<String>) -> Seq<char> {
    match configured {
        Some(url) => url@,
        None => "http://localhost:4173"@,
    }
}

/// The frontend a request came from: the one named, or the fallback.
pub open spec fn frontend_origin(named: Option<String>, configured: Option<String>) -> Seq<char> {
    match named {
        Some(origin) => origin@,
        None => fallback_frontend(configured),
    }
}

/// The frontend that the `state` of a callback names: what the state
/// decodes to, or the fallback where there is no state or none that decodes.
pub open spec fn frontend_of(state: Option<String>, configured: Option<String>) -> Seq<char> {
    match state {
        Some(s) => match percent_decoded(s@) {
            Some(url) => url,
            None => fallback_frontend(configured),
        },
        None => fallback_frontend(configured),
    }
}

fn fallback(configured: &Option<String>) -> (url: String)
    ensures
        url@ == fallback_frontend(*configured),
{
    match configured {
        Some(url) => url.clone(),
        None => String::from_str("http://localhost:4173"),
    }
}

fn resolve_frontend(state: &Option<String>, configured: &Option<String>) -> (url: String)
    ensures
        url@ == frontend_of(*state, *configured),
{
    match state {
        Some(s) => match urlencoding_decode(s.as_str()) {
            Some(url) => url,
            None => fallback(configured),
        },
        None => fallback(configured),
    }
}

/// The address at the identity provider to which a user is sent to sign in.
/// The frontend they came from travels along as the state.
pub open spec fn login_url(config: OAuthConfig, origin: Option<String>) -> Seq<char> {
    "https://accounts.google.com/o/oauth2/v2/auth?client_id="@ + config.client_id@
        + "&redirect_uri="@ + config.redirect_uri@
        + "&response_type=code&scope=openid%20email%20profile&state="@ + percent_encoded(
        vstd::utf8::encode_utf8(frontend_origin(origin, config.frontend_url)),
    )
}

/// Where to send a user who wants to sign in.
pub fn google_login_initiate(config: &OAuthConfig, origin: &Option<String>) -> (url: String)
    ensures
        url@ == login_url(*config, *origin),
{
    let frontend = match origin {
        Some(o) => o.clone(),
        None => fallback(&config.frontend_url),
    };
    let mut url = String::from_str("https://accounts.google.com/o/oauth2/v2/auth?client_id=");
    url.append(config.client_id.as_str());
    url.append("&redirect_uri=");
    url.append(config.redirect_uri.as_str());
    url.append("&response_type=code&scope=openid%20email%20profile&state=");
    url.append(urlencoding_encode(frontend.as_str()).as_str());
    url
}

/// The request that exchanges `code` for an access token.
pub fn token_request(config: &OAuthConfig, code: &str) -> (r: GoogleTokenRequest)
    ensures
        r.code@ == code@,
        r.client_id == config.client_id,
        r.client_secret == config.client_secret,
        r.redirect_uri == config.redirect_uri,
        r.grant_type@ == "authorization_code"@,
{
    GoogleTokenRequest {
        code: String::from_str(code),
        client_id: config.client_id.clone(),
        client_secret: config.client_secret.clone(),
        redirect_uri: config.redirect_uri.clone(),
        grant_type: String::from_str("authorization_code"),
    }
}

/// How a failure of the identity provider is reported: as a failure of the
/// server, with the reason.
pub fn provider_failure(reason: String) -> (e: AppError)
    ensures
        e == AppError::HttpError(500, reason),
{
    AppError::HttpError(500, reason)
}

/// Whether an address belongs to the institute: staff addresses and student
/// addresses do, no other.
pub open spec fn is_institute_email(email: Seq<char>) -> bool {
    has_suffix(email, "@iitmandi.ac.in"@) || has_suffix(email, "@students.iitmandi.ac.in"@)
}

/// The role a new user starts with: student for a student address, faculty
/// for any other.
pub open spec fn default_role(email: Seq<char>) -> UserRole {
    if has_suffix(email, "@students.iitmandi.ac.in"@) {
        UserRole::Student
    } else {
        UserRole::Faculty
    }
}

/// The page of the frontend that tells a user that only institute addresses
/// may sign in.
pub open spec fn rejection_url(frontend: Seq<char>) -> Seq<char> {
    frontend + "/auth-error?error="@ + percent_encoded(
        vstd::utf8::encode_utf8("Only IIT Mandi email addresses are allowed"@),
    ) + "&details="@ + percent_encoded(
        vstd::utf8::encode_utf8(
            "Please use your @iitmandi.ac.in or @students.iitmandi.ac.in email address"@,
        ),
    )
}

/// Whether a user who comes back from the identity provider is let in.
#[derive(Clone, Debug, PartialEq, Eq)]
pub enum Admission {
    /// The address belongs to the institute; the sign-in goes on.
    Admitted,
    /// The address does not; the user is sent to `redirect_url` and no
    /// account is made or touched.
    Rejected { redirect_url: String },
}

/// Decides whether the user with the claims `info` is let in.
pub fn google_callback(
    state: &Option<String>,
    info: &GoogleUserInfo,
    frontend_url: &Option<String>,
) -> (r: Admission)
    ensures
        is_institute_email(info.email@) ==> r == Admission::Admitted,
        !is_institute_email(info.email@) ==> (r matches Admission::Rejected { redirect_url }
            && redirect_url@ == rejection_url(frontend_of(*state, *frontend_url))),
{
    let staff = ends_with(info.email.as_str(), "@iitmandi.ac.in");
    let student = ends_with(info.email.as_str(), "@students.iitmandi.ac.in");
    if staff || student {
        return Admission::Admitted;
    }
    let mut url = resolve_frontend(state, frontend_url);
    url.append("/auth-error?error=");
    url.append(urlencoding_encode("Only IIT Mandi email addresses are allowed").as_str());
    url.append("&details=");
    url.append(
        urlencoding_encode(
            "Please use your @iitmandi.ac.in or @students.iitmandi.ac.in email address",
        ).as_str(),
    );
    Admission::Rejected { redirect_url: url }
}

/// A user about to be stored for the first time.
#[derive(Clone, Debug, PartialEq, Eq)]
pub struct NewUser {
    pub email: String,
    pub google_id: String,
    pub role: UserRole,
    pub status: UserStatus,
    pub first_name: String,
    pub last_name: String,
    pub profile_picture: Option<String>,
}

/// What a sign-in writes.
#[derive(Clone, Debug, PartialEq, Eq)]
pub enum LoginWrite {
    /// The user is known: their last sign-in is set to now.
    Touch(Uuid),
    /// The user is new: they are stored, their last sign-in being now.
    Create(NewUser),
}

/// Whether `w` is what the sign-in of the user with the claims `info` writes,
/// `existing` being the user already stored under the provider's identifier.
pub open spec fn is_login_write(
    w: LoginWrite,
    info: GoogleUserInfo,
    existing: Option<User>,
) -> bool {
    match existing {
        Some(user) => w == LoginWrite::Touch(user.id),
        None => w matches LoginWrite::Create(new) && {
            &&& new.email == info.email
            &&& new.google_id == info.sub
            &&& new.role == default_role(info.email@)
            &&& new.status == UserStatus::Active
            &&& new.first_name == info.given_name
            &&& new.last_name@ == (match info.family_name {
                Some(name) => name@,
                None => Seq::empty(),
            })
            &&& new.profile_picture == info.picture
        },
    }
}

/// Decides what the sign-in of an admitted user writes.
pub fn login_user(info: GoogleUserInfo, existing: &Option<User>) -> (w: LoginWrite)
    ensures
        is_login_write(w, info, *existing),
{
    match existing {
        Some(user) => LoginWrite::Touch(user.id),
        None => {
            let role = if ends_with(info.email.as_str(), "@students.iitmandi.ac.in") {
                UserRole::Student
            } else {
                UserRole::Faculty
            };
            let last_name = match info.family_name {
                Some(name) => name,
                None => String::new(),
            };
            LoginWrite::Create(
                NewUser {
                    email: info.email,
                    google_id: info.sub,
                    role,
                    status: UserStatus::Active,
                    first_name: info.given_name,
                    last_name,
                    profile_picture: info.picture,
                },
            )
        },
    }
}

/// What ends a sign-in: the user to keep in the session, the audit entry,
/// and the page of the frontend to send the user to.
#[derive(Clone, Debug, PartialEq, Eq)]
pub struct LoginCompletion {
    pub session_user_id: Uuid,
    pub audit: AuditEntry,
    pub redirect_url: String,
}

/// Ends the sign-in of the user `user_id`.
pub fn login_completed(user_id: Uuid, state: &Option<String>, frontend_url: &Option<String>) -> (r:
    LoginCompletion)
    ensures
        r.session_user_id == user_id,
        r.audit == (AuditEntry { user_id, event: AuditEvent::Login }),
        r.redirect_url@ == frontend_of(*state, *frontend_url) + "/dashboard"@,
{
    let mut url = resolve_frontend(state, frontend_url);
    url.append("/dashboard");
    LoginCompletion {
        session_user_id: user_id,
        audit: AuditEntry { user_id, event: AuditEvent::Login },
        redirect_url: url,
    }
}

/// Resolves the user of a session: a session without a user is not
/// authenticated.
pub fn get_session_user(session_user: Option<Uuid>) -> (r: Result<Uuid, AppError>)
    ensures
        r == (match session_user {
            Some(id) => Ok::<Uuid, AppError>(id),
            None => Err::<Uuid, AppError>(AppError::Unauthorized),
        }),
{
    match session_user {
        Some(id) => Ok(id),
        None => Err(AppError::Unauthorized),
    }
}

/// What signing out writes and answers. The audit entry is written only
/// where the session had a user; the session is deleted either way.
pub fn logout(session_user: Option<Uuid>) -> (r: (Option<AuditEntry>, ApiResponse<()>))
    ensures
        r.0 == (match session_user {
            Some(id) => Some(AuditEntry { user_id: id, event: AuditEvent::Logout }),
            None => None,
        }),
        r.1.success,
        r.1.data is None,
        says(r.1.message, "Logged out successfully"@),
{
    let audit = match session_user {
        Some(id) => Some(AuditEntry { user_id: id, event: AuditEvent::Logout }),
        None => None,
    };
    (
        audit,
        ApiResponse {
            success: true,
            data: None,
            message: Some(String::from_str("Logged out successfully")),
        },
    )
}

/// Resolves the user of a session for the question "who am I".
pub fn get_current_user(session_user: Option<Uuid>) -> (r: Result<Uuid, AppError>)
    ensures
        match session_user {
            Some(id) => r == Ok::<Uuid, AppError>(id),
            None => r matches Err(AppError::HttpError(code, detail)) && code == 401 && detail@
                == "Not authenticated"@,
        },
{
    match session_user {
        Some(id) => Ok(id),
        None => Err(AppError::HttpError(401, String::from_str("Not authenticated"))),
    }
}

/// The answer to "who am I".
pub fn current_user(user: User) -> (r: ApiResponse<UserResponse>)
    ensures
        r.success,
        r.data == Some(user_response_of(user)),
        r.message is None,
{
    ApiResponse { success: true, data: Some(UserResponse::from(user)), message: None }
}

} // verus!
