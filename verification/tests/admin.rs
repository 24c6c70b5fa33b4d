use aegis_backend::admin::{
    audit_log_response, audit_logs_query, get_all_users, get_audit_logs, get_system_stats,
    get_user_by_id, own_role_updated, require_admin, seed_dummy_user, seed_dummy_users,
    seed_user_with, seed_users, update_own_role, update_user_role, update_user_status,
    user_role_updated, user_status_updated, users_listed, RoleCount,
};
use aegis_backend::audit::{AuditEntry, AuditEvent};
use aegis_backend::error::AppError;
use aegis_backend::primitives::{Timestamp, Uuid};
use aegis_backend::query::SqlValue;
use aegis_backend::structs::{
    AuditLog, UpdateUserRoleRequest, UpdateUserStatusRequest, User, UserFilters, UserRole,
    UserStatus,
};

fn person(id: u128, role: UserRole) -> User {
    User {
        id: Uuid(id),
        email: format!("p{}@iitmandi.ac.in", id),
        google_id: format!("g-{}", id),
        role,
        status: UserStatus::Active,
        first_name: "P".to_string(),
        last_name: format!("{}", id),
        profile_picture: None,
        roll_number: None,
        batch_year: None,
        program: None,
        department: None,
        employee_id: None,
        designation: None,
        last_login_at: Some(Timestamp(77)),
        created_at: Timestamp(1),
        updated_at: Timestamp(2),
    }
}

fn no_user_filters() -> UserFilters {
    UserFilters { role: None, status: None, search: None, page: None, limit: None }
}

#[test]
fn admin_gate() {
    assert_eq!(require_admin(&person(1, UserRole::Admin)), Ok(()));
    assert_eq!(require_admin(&person(1, UserRole::Authority)), Err(AppError::Forbidden));
    assert_eq!(require_admin(&person(1, UserRole::Faculty)), Err(AppError::Forbidden));
    assert_eq!(require_admin(&person(1, UserRole::Student)), Err(AppError::Forbidden));
}

#[test]
fn user_list_query_defaults() {
    let q = get_all_users(&person(1, UserRole::Admin), no_user_filters()).unwrap();
    assert_eq!(q.text, "SELECT * FROM users WHERE 1=1 ORDER BY created_at DESC LIMIT $1 OFFSET $2");
    assert_eq!(q.params, vec![SqlValue::Int(50), SqlValue::Int(0)]);
    assert_eq!(
        get_all_users(&person(1, UserRole::Faculty), no_user_filters()),
        Err(AppError::Forbidden)
    );
}

#[test]
fn user_list_query_with_filters() {
    let filters = UserFilters {
        role: Some(UserRole::Student),
        status: Some(UserStatus::Suspended),
        search: Some("ash".to_string()),
        page: Some(2),
        limit: Some(500),
    };
    let q = get_all_users(&person(1, UserRole::Admin), filters).unwrap();
    assert_eq!(
        q.text,
        "SELECT * FROM users WHERE 1=1 AND role = $1 AND status = $2 \
         AND (first_name ILIKE $3 OR last_name ILIKE $4 OR email ILIKE $5) \
         ORDER BY created_at DESC LIMIT $6 OFFSET $7"
    );
    assert_eq!(
        q.params,
        vec![
            SqlValue::Role(UserRole::Student),
            SqlValue::AccountStatus(UserStatus::Suspended),
            SqlValue::Text("%ash%".to_string()),
            SqlValue::Text("%ash%".to_string()),
            SqlValue::Text("%ash%".to_string()),
            SqlValue::Int(100),
            SqlValue::Int(100),
        ]
    );
}

#[test]
fn users_are_listed_in_order() {
    let answer = users_listed(vec![person(3, UserRole::Student), person(4, UserRole::Faculty)]);
    assert!(answer.success);
    let shown = answer.data.unwrap();
    assert_eq!(shown.len(), 2);
    assert_eq!(shown[0].id, Uuid(3));
    assert_eq!(shown[0].status, UserStatus::Active);
    assert_eq!(shown[0].last_login_at, Some(Timestamp(77)));
    assert_eq!(shown[1].role, UserRole::Faculty);
    assert_eq!(users_listed(vec![]).data, Some(vec![]));
}

#[test]
fn one_user_by_id() {
    let admin = person(1, UserRole::Admin);
    assert_eq!(get_user_by_id(&admin, None), Err(AppError::NotFound));
    assert_eq!(
        get_user_by_id(&person(2, UserRole::Authority), Some(person(3, UserRole::Student))),
        Err(AppError::Forbidden)
    );
    let answer = get_user_by_id(&admin, Some(person(3, UserRole::Student))).unwrap();
    assert_eq!(answer.data.unwrap().email, "p3@iitmandi.ac.in");
}

#[test]
fn admins_cannot_change_their_own_role() {
    let admin = person(1, UserRole::Admin);
    let payload = UpdateUserRoleRequest { role: UserRole::Student };
    assert_eq!(
        update_user_role(&admin, Uuid(1), &Some(admin.clone()), &payload),
        Err(AppError::BadRequest("Cannot change your own role".to_string()))
    );
    let change = update_user_role(&admin, Uuid(3), &Some(person(3, UserRole::Faculty)), &payload).unwrap();
    assert_eq!(change.user_id, Uuid(3));
    assert_eq!(change.new_role, UserRole::Student);
    assert_eq!(
        change.audit,
        AuditEntry {
            user_id: Uuid(1),
            event: AuditEvent::UserRoleUpdated {
                target_user_id: Uuid(3),
                old_role: UserRole::Faculty,
                new_role: UserRole::Student,
            },
        }
    );
    assert_eq!(change.audit.event.action(), "UPDATE_USER_ROLE");
    let mut trail: Vec<AuditEntry> = Vec::new();
    if let Ok(c) = update_user_role(&admin, Uuid(1), &Some(admin.clone()), &payload) {
        trail.push(c.audit);
    }
    assert_eq!(trail.len(), 0);
    if let Ok(c) = update_user_role(&admin, Uuid(3), &Some(person(3, UserRole::Faculty)), &payload) {
        trail.push(c.audit);
    }
    assert_eq!(trail.len(), 1);
}

#[test]
fn role_change_needs_an_admin_and_a_target() {
    let payload = UpdateUserRoleRequest { role: UserRole::Authority };
    assert_eq!(
        update_user_role(&person(2, UserRole::Authority), Uuid(3), &Some(person(3, UserRole::Student)), &payload),
        Err(AppError::Forbidden)
    );
    assert_eq!(
        update_user_role(&person(2, UserRole::Faculty), Uuid(2), &None, &payload),
        Err(AppError::Forbidden)
    );
    assert_eq!(
        update_user_role(&person(1, UserRole::Admin), Uuid(3), &None, &payload),
        Err(AppError::NotFound)
    );
    assert_eq!(
        user_role_updated(person(3, UserRole::Authority)).message,
        Some("User role updated successfully".to_string())
    );
}

#[test]
fn admins_cannot_change_their_own_status() {
    let admin = person(1, UserRole::Admin);
    let payload = UpdateUserStatusRequest { status: UserStatus::Suspended };
    assert_eq!(
        update_user_status(&admin, Uuid(1), &Some(admin.clone()), &payload),
        Err(AppError::BadRequest("Cannot change your own status".to_string()))
    );
    let change = update_user_status(&admin, Uuid(3), &Some(person(3, UserRole::Student)), &payload).unwrap();
    assert_eq!(change.new_status, UserStatus::Suspended);
    assert_eq!(
        change.audit.event,
        AuditEvent::UserStatusUpdated {
            target_user_id: Uuid(3),
            old_status: UserStatus::Active,
            new_status: UserStatus::Suspended,
        }
    );
    assert_eq!(change.audit.event.action(), "UPDATE_USER_STATUS");
    assert_eq!(update_user_status(&admin, Uuid(3), &None, &payload), Err(AppError::NotFound));
    assert_eq!(
        update_user_status(&person(3, UserRole::Student), Uuid(4), &None, &payload),
        Err(AppError::Forbidden)
    );
    assert_eq!(
        user_status_updated(person(3, UserRole::Student)).message,
        Some("User status updated successfully".to_string())
    );
}

#[test]
fn anyone_changes_their_own_role() {
    let student = person(3, UserRole::Student);
    let change = update_own_role(&student, &UpdateUserRoleRequest { role: UserRole::Admin });
    assert_eq!(change.user_id, Uuid(3));
    assert_eq!(change.new_role, UserRole::Admin);
    assert_eq!(
        change.audit.event,
        AuditEvent::OwnRoleUpdated { old_role: UserRole::Student, new_role: UserRole::Admin }
    );
    assert_eq!(change.audit.event.action(), "UPDATE_OWN_ROLE");
    let answer = own_role_updated(person(3, UserRole::Admin));
    assert_eq!(answer.message, Some("Your role has been updated".to_string()));
    assert_eq!(answer.data.unwrap().role, UserRole::Admin);
}

#[test]
fn audit_window_is_clamped() {
    let q = audit_logs_query(None, None);
    assert_eq!(q.text, "SELECT * FROM audit_logs ORDER BY created_at DESC LIMIT $1 OFFSET $2");
    assert_eq!(q.params, vec![SqlValue::Int(100), SqlValue::Int(0)]);
    assert_eq!(audit_logs_query(Some(0), Some(30)).params, vec![SqlValue::Int(1), SqlValue::Int(30)]);
    assert_eq!(audit_logs_query(Some(501), Some(-1)).params, vec![SqlValue::Int(500), SqlValue::Int(-1)]);
    assert_eq!(audit_logs_query(Some(500), None).params, vec![SqlValue::Int(500), SqlValue::Int(0)]);
}

#[test]
fn audit_parameters_are_read_as_numbers() {
    let admin = person(1, UserRole::Admin);
    let q = get_audit_logs(&admin, &Some("250".to_string()), &Some("40".to_string())).unwrap();
    assert_eq!(q.params, vec![SqlValue::Int(250), SqlValue::Int(40)]);
    let q = get_audit_logs(&admin, &Some("many".to_string()), &Some("4 0".to_string())).unwrap();
    assert_eq!(q.params, vec![SqlValue::Int(100), SqlValue::Int(0)]);
    let q = get_audit_logs(&admin, &Some("-3".to_string()), &None).unwrap();
    assert_eq!(q.params, vec![SqlValue::Int(1), SqlValue::Int(0)]);
    assert_eq!(
        get_audit_logs(&person(2, UserRole::Authority), &None, &None),
        Err(AppError::Forbidden)
    );
}

#[test]
fn audit_entries_show_their_user() {
    let log = AuditLog {
        id: Uuid(9),
        user_id: Some(Uuid(3)),
        action: "login".to_string(),
        metadata: Some(serde_json::Value::Bool(true)),
        created_at: Timestamp(4),
    };
    let shown = audit_log_response(log.clone(), Some(person(3, UserRole::Student)));
    assert_eq!(shown.user.unwrap().id, Uuid(3));
    assert_eq!(shown.action, "login");
    assert_eq!(shown.metadata, Some(serde_json::Value::Bool(true)));
    let unnamed = AuditLog { user_id: None, ..log };
    assert_eq!(audit_log_response(unnamed, Some(person(3, UserRole::Student))).user, None);
}

#[test]
fn system_counts() {
    let counts = vec![
        RoleCount { role: UserRole::Student, count: 120 },
        RoleCount { role: UserRole::Admin, count: 2 },
    ];
    let answer =
        get_system_stats(&person(1, UserRole::Admin), 130, 125, Some(40), None, Some(7), &counts).unwrap();
    let stats = answer.data.unwrap();
    assert_eq!(stats.total_users, 130);
    assert_eq!(stats.active_users, 125);
    assert_eq!(stats.total_grievances, 40);
    assert_eq!(stats.pending_grievances, 0);
    assert_eq!(stats.resolved_grievances, 7);
    assert_eq!(stats.users_by_role, vec![("student".to_string(), 120), ("admin".to_string(), 2)]);
    assert_eq!(
        get_system_stats(&person(1, UserRole::Student), 1, 1, None, None, None, &counts),
        Err(AppError::Forbidden)
    );
}

#[test]
fn seeding_skips_users_that_exist() {
    let seeds = seed_users();
    assert_eq!(seeds.len(), 3);
    assert_eq!(seeds[0].first_name, "Dr.");
    assert_eq!(seeds[0].last_name, "Strange");
    assert_eq!(seeds[1].email, "stark@iitmandi.ac.in");
    assert_eq!(seeds[2].role, UserRole::Student);
    assert_eq!(seed_user_with(&seeds[0], true, Uuid(1)), None);
    assert_eq!(seed_dummy_user(&seeds[0], true), None);
    let new = seed_user_with(&seeds[1], false, Uuid(0xabc)).unwrap();
    assert_eq!(new.email, "stark@iitmandi.ac.in");
    assert_eq!(new.google_id, "00000000-0000-0000-0000-000000000abc");
    assert_eq!(new.role, UserRole::Authority);
    assert_eq!(new.status, UserStatus::Active);
    assert_eq!(new.first_name, "Tony");
    assert_eq!(new.last_name, "Stark");
    assert_eq!(new.profile_picture, Some(String::new()));
    let fresh = seed_dummy_user(&seeds[2], false).unwrap();
    assert_eq!(fresh.google_id.len(), 36);
    assert_eq!(
        seed_dummy_users().data,
        Some("Dummy users created. You can now assign them tasks.".to_string())
    );
}
