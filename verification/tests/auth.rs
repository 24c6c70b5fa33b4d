use aegis_backend::audit::{AuditEntry, AuditEvent};
use aegis_backend::auth::{
    current_user, get_current_user, get_session_user, google_callback, google_login_initiate,
    login_completed, login_user, logout, provider_failure, token_request, Admission, LoginWrite,
    OAuthConfig, SESSION_USER_ID_KEY,
};
use aegis_backend::error::AppError;
use aegis_backend::primitives::{Timestamp, Uuid};
use aegis_backend::structs::{GoogleUserInfo, User, UserRole, UserStatus};

fn oauth(frontend: Option<&str>) -> OAuthConfig {
    OAuthConfig {
        client_id: "client-1".to_string(),
        client_secret: "hidden".to_string(),
        redirect_uri: "https://api.example.com/auth/google/callback".to_string(),
        frontend_url: frontend.map(|f| f.to_string()),
    }
}

fn claims(email: &str) -> GoogleUserInfo {
    GoogleUserInfo {
        sub: "sub-42".to_string(),
        email: email.to_string(),
        given_name: "Asha".to_string(),
        family_name: Some("Verma".to_string()),
        picture: Some("https://pic".to_string()),
    }
}

fn stored_user(id: u128) -> User {
    User {
        id: Uuid(id),
        email: "asha@iitmandi.ac.in".to_string(),
        google_id: "sub-42".to_string(),
        role: UserRole::Faculty,
        status: UserStatus::Suspended,
        first_name: "Asha".to_string(),
        last_name: "Verma".to_string(),
        profile_picture: None,
        roll_number: None,
        batch_year: None,
        program: None,
        department: None,
        employee_id: None,
        designation: None,
        last_login_at: None,
        created_at: Timestamp(0),
        updated_at: Timestamp(0),
    }
}

#[test]
fn session_key_is_user_id() {
    assert_eq!(SESSION_USER_ID_KEY, "user_id");
}

#[test]
fn login_url_carries_the_escaped_origin() {
    let url = google_login_initiate(&oauth(None), &Some("https://aegis.example.com".to_string()));
    assert_eq!(
        url,
        "https://accounts.google.com/o/oauth2/v2/auth?client_id=client-1\
         &redirect_uri=https://api.example.com/auth/google/callback\
         &response_type=code&scope=openid%20email%20profile&state=https%3A%2F%2Faegis.example.com"
    );
}

#[test]
fn login_url_falls_back_on_the_configured_frontend() {
    let url = google_login_initiate(&oauth(Some("https://front.example.com")), &None);
    assert!(url.ends_with("&state=https%3A%2F%2Ffront.example.com"));
    let url = google_login_initiate(&oauth(None), &None);
    assert!(url.ends_with("&state=http%3A%2F%2Flocalhost%3A4173"));
}

#[test]
fn token_request_names_the_grant() {
    let r = token_request(&oauth(None), "code-9");
    assert_eq!(r.code, "code-9");
    assert_eq!(r.client_id, "client-1");
    assert_eq!(r.client_secret, "hidden");
    assert_eq!(r.redirect_uri, "https://api.example.com/auth/google/callback");
    assert_eq!(r.grant_type, "authorization_code");
}

#[test]
fn institute_addresses_are_admitted() {
    assert_eq!(google_callback(&None, &claims("asha@iitmandi.ac.in"), &None), Admission::Admitted);
    assert_eq!(
        google_callback(&None, &claims("b21001@students.iitmandi.ac.in"), &None),
        Admission::Admitted
    );
}

#[test]
fn other_addresses_are_sent_to_the_error_page() {
    let state = Some("https%3A%2F%2Faegis.example.com".to_string());
    let expected_tail = "/auth-error?error=Only%20IIT%20Mandi%20email%20addresses%20are%20allowed\
                         &details=Please%20use%20your%20%40iitmandi.ac.in%20or%20\
                         %40students.iitmandi.ac.in%20email%20address";
    assert_eq!(
        google_callback(&state, &claims("asha@gmail.com"), &None),
        Admission::Rejected { redirect_url: format!("https://aegis.example.com{}", expected_tail) }
    );
    assert_eq!(
        google_callback(&None, &claims("asha@iitmandi.ac.in.evil.com"), &Some("https://f".to_string())),
        Admission::Rejected { redirect_url: format!("https://f{}", expected_tail) }
    );
    assert_eq!(
        google_callback(&None, &claims("iitmandi.ac.in"), &None),
        Admission::Rejected { redirect_url: format!("http://localhost:4173{}", expected_tail) }
    );
    assert_eq!(
        google_callback(&Some("%ff".to_string()), &claims(""), &None),
        Admission::Rejected { redirect_url: format!("http://localhost:4173{}", expected_tail) }
    );
}

#[test]
fn known_users_are_touched() {
    assert_eq!(
        login_user(claims("asha@iitmandi.ac.in"), &Some(stored_user(5))),
        LoginWrite::Touch(Uuid(5))
    );
}

#[test]
fn new_users_get_a_role_by_address() {
    match login_user(claims("b21001@students.iitmandi.ac.in"), &None) {
        LoginWrite::Create(new) => {
            assert_eq!(new.role, UserRole::Student);
            assert_eq!(new.status, UserStatus::Active);
            assert_eq!(new.email, "b21001@students.iitmandi.ac.in");
            assert_eq!(new.google_id, "sub-42");
            assert_eq!(new.first_name, "Asha");
            assert_eq!(new.last_name, "Verma");
            assert_eq!(new.profile_picture, Some("https://pic".to_string()));
        }
        other => panic!("unexpected {:?}", other),
    }
    let mut nameless = claims("asha@iitmandi.ac.in");
    nameless.family_name = None;
    match login_user(nameless, &None) {
        LoginWrite::Create(new) => {
            assert_eq!(new.role, UserRole::Faculty);
            assert_eq!(new.last_name, "");
        }
        other => panic!("unexpected {:?}", other),
    }
}

#[test]
fn login_ends_on_the_dashboard() {
    let done = login_completed(Uuid(5), &Some("https%3A%2F%2Faegis.example.com".to_string()), &None);
    assert_eq!(done.session_user_id, Uuid(5));
    assert_eq!(done.audit, AuditEntry { user_id: Uuid(5), event: AuditEvent::Login });
    assert_eq!(done.audit.event.action(), "login");
    assert_eq!(done.redirect_url, "https://aegis.example.com/dashboard");
    let done = login_completed(Uuid(5), &None, &Some("https://front".to_string()));
    assert_eq!(done.redirect_url, "https://front/dashboard");
    let done = login_completed(Uuid(5), &Some("plain+text".to_string()), &None);
    assert_eq!(done.redirect_url, "plain+text/dashboard");
}

#[test]
fn sessions_without_a_user_are_unauthorized() {
    assert_eq!(get_session_user(Some(Uuid(3))), Ok(Uuid(3)));
    assert_eq!(get_session_user(None), Err(AppError::Unauthorized));
    assert_eq!(get_current_user(Some(Uuid(3))), Ok(Uuid(3)));
    assert_eq!(
        get_current_user(None),
        Err(AppError::HttpError(401, "Not authenticated".to_string()))
    );
}

#[test]
fn logout_files_an_entry_for_a_known_user() {
    let (audit, answer) = logout(Some(Uuid(3)));
    assert_eq!(audit, Some(AuditEntry { user_id: Uuid(3), event: AuditEvent::Logout }));
    assert_eq!(audit.unwrap().event.action(), "logout");
    assert!(answer.success);
    assert_eq!(answer.message, Some("Logged out successfully".to_string()));
    let (audit, answer) = logout(None);
    assert_eq!(audit, None);
    assert_eq!(answer.message, Some("Logged out successfully".to_string()));
}

#[test]
fn current_user_shows_the_public_face() {
    let answer = current_user(stored_user(5));
    assert!(answer.success);
    assert_eq!(answer.message, None);
    let shown = answer.data.unwrap();
    assert_eq!(shown.id, Uuid(5));
    assert_eq!(shown.email, "asha@iitmandi.ac.in");
    assert_eq!(shown.role, UserRole::Faculty);
}

#[test]
fn provider_failures_are_server_failures() {
    assert_eq!(
        provider_failure("timed out".to_string()),
        AppError::HttpError(500, "timed out".to_string())
    );
    assert_eq!(
        provider_failure("timed out".to_string()).into_response(),
        (500, "Error: timed out".to_string())
    );
}
