//! What administrators do: list and inspect users, change roles and account
//! statuses, read the audit trail and the system counts.

use vstd::prelude::*;
use vstd::string::*;

use crate::audit::{AuditEntry, AuditEvent};
use crate::auth::NewUser;
use crate::error::{bad_request, AppError};
use crate::primitives::{uuid_text, Uuid};
use crate::query::{
    arg_of, binds, clause, page_number, page_offset, page_size, paginate, render, search_clause,
    shape_of_both_joined, shape_of_clause, shape_of_search, shape_of_window, text_ignores_values,
    window, Piece, QueryBuilder, SqlQuery, SqlValue,
};
use crate::structs::{
    public_face, says, to_public_face, user_list_response_of, user_response_of, ApiResponse,
    AuditLog, AuditLogResponse, UpdateUserRoleRequest, UpdateUserStatusRequest, User, UserFilters,
    UserListResponse, UserResponse, UserRole, UserStatus,
};
use crate::text::{parse_i64, parsed_i64};

verus! {

/// Decides whether `user` is an administrator.
pub fn require_admin(user: &User) -> (r: Result<(), AppError>)
    ensures
        r == (if user.role == UserRole::Admin {
            Ok::<(), AppError>(())
        } else {
            Err::<(), AppError>(AppError::Forbidden)
        }),
{
    if user.role != UserRole::Admin {
        return Err(AppError::Forbidden);
    }
    Ok(())
}

/// The query of the user list. Role and status are matched exactly, a
/// search matches first name, last name and address as a substring without
/// regard to case. Newest first; pages of 50 unless asked otherwise, of 100
/// at most.
pub open spec fn user_list(filters: UserFilters) -> Seq<Piece> {
    let limit = page_size(filters.limit, 50, 100);
    let offset = page_offset(page_number(filters.page), limit);
    seq![Piece::Sql("SELECT * FROM users WHERE 1=1"@)] + clause(
        " AND role = "@,
        arg_of(
            match filters.role {
                Some(v) => Some(SqlValue::Role(v)),
                None => None,
            },
        ),
    ) + clause(
        " AND status = "@,
        arg_of(
            match filters.status {
                Some(v) => Some(SqlValue::AccountStatus(v)),
                None => None,
            },
        ),
    ) + search_clause(
        " AND (first_name ILIKE "@,
        seq![" OR last_name ILIKE "@, " OR email ILIKE "@, ")"@],
        filters.search,
    ) + window(" ORDER BY created_at DESC LIMIT "@, limit, offset)
}

/// The text of the query of the user list depends on which filters are
/// named only, never on the values they are given.
pub proof fn user_list_text_ignores_values(a: UserFilters, b: UserFilters)
    requires
        a.role is Some == b.role is Some,
        a.status is Some == b.status is Some,
        a.search is Some == b.search is Some,
    ensures
        render(user_list(a)) == render(user_list(b)),
        binds(user_list(a)).len() == binds(user_list(b)).len(),
{
    let base = seq![Piece::Sql("SELECT * FROM users WHERE 1=1"@)];
    let role = |f: UserFilters|
        arg_of(
            match f.role {
                Some(v) => Some(SqlValue::Role(v)),
                None => None,
            },
        );
    let status = |f: UserFilters|
        arg_of(
            match f.status {
                Some(v) => Some(SqlValue::AccountStatus(v)),
                None => None,
            },
        );
    let limit = |f: UserFilters| page_size(f.limit, 50, 100);
    let offset = |f: UserFilters| page_offset(page_number(f.page), limit(f));
    let tails = seq![" OR last_name ILIKE "@, " OR email ILIKE "@, ")"@];

    let a1 = base + clause(" AND role = "@, role(a));
    let b1 = base + clause(" AND role = "@, role(b));
    shape_of_clause(" AND role = "@, role(a), role(b));
    shape_of_both_joined(
        base,
        clause(" AND role = "@, role(a)),
        base,
        clause(" AND role = "@, role(b)),
    );
    let a2 = a1 + clause(" AND status = "@, status(a));
    let b2 = b1 + clause(" AND status = "@, status(b));
    shape_of_clause(" AND status = "@, status(a), status(b));
    shape_of_both_joined(
        a1,
        clause(" AND status = "@, status(a)),
        b1,
        clause(" AND status = "@, status(b)),
    );
    let a3 = a2 + search_clause(" AND (first_name ILIKE "@, tails, a.search);
    let b3 = b2 + search_clause(" AND (first_name ILIKE "@, tails, b.search);
    shape_of_search(" AND (first_name ILIKE "@, tails, a.search, b.search);
    shape_of_both_joined(
        a2,
        search_clause(" AND (first_name ILIKE "@, tails, a.search),
        b2,
        search_clause(" AND (first_name ILIKE "@, tails, b.search),
    );
    let order = " ORDER BY created_at DESC LIMIT "@;
    shape_of_window(order, limit(a), offset(a), limit(b), offset(b));
    shape_of_both_joined(
        a3,
        window(order, limit(a), offset(a)),
        b3,
        window(order, limit(b), offset(b)),
    );
    assert(user_list(a) == a3 + window(order, limit(a), offset(a)));
    assert(user_list(b) == b3 + window(order, limit(b), offset(b)));
    text_ignores_values(user_list(a), user_list(b));
}

/// Builds the query of the user list, for administrators only.
pub fn get_all_users(user: &User, filters: UserFilters) -> (r: Result<SqlQuery, AppError>)
    ensures
        user.role != UserRole::Admin ==> r == Err::<SqlQuery, AppError>(AppError::Forbidden),
        user.role == UserRole::Admin ==> (r matches Ok(q) && q.spells(user_list(filters))),
{
    if user.role != UserRole::Admin {
        return Err(AppError::Forbidden);
    }
    let page = paginate(filters.page, filters.limit, 50, 100);
    let mut b = QueryBuilder::new("SELECT * FROM users WHERE 1=1");
    b.push_clause(
        " AND role = ",
        match filters.role {
            Some(v) => Some(SqlValue::Role(v)),
            None => None,
        },
    );
    b.push_clause(
        " AND status = ",
        match filters.status {
            Some(v) => Some(SqlValue::AccountStatus(v)),
            None => None,
        },
    );
    let tails = vec![" OR last_name ILIKE ", " OR email ILIKE ", ")"];
    assert(tails@.map_values(|t: &str| t@) =~= seq![
        " OR last_name ILIKE "@,
        " OR email ILIKE "@,
        ")"@,
    ]);
    b.push_search(" AND (first_name ILIKE ", &tails, &filters.search);
    b.push_window(" ORDER BY created_at DESC LIMIT ", page.limit, page.offset);
    Ok(b.finish())
}

/// Shows the users of a list to an administrator.
pub fn users_listed(users: Vec<User>) -> (r: ApiResponse<Vec<UserListResponse>>)
    ensures
        r.success,
        r.message is None,
        r.data matches Some(shown) && shown@ == users@.map_values(
            |u: User| user_list_response_of(u),
        ),
{
    let mut shown: Vec<UserListResponse> = Vec::new();
    for user in it: users
        invariant
            it.seq() == users@,
            shown@ == users@.take(it.index() as int).map_values(
                |u: User| user_list_response_of(u),
            ),
    {
        shown.push(UserListResponse::from(user));
        assert(users@.take(it.index() + 1).map_values(|u: User| user_list_response_of(u))
            =~= users@.take(it.index() as int).map_values(
            |u: User| user_list_response_of(u),
        ).push(user_list_response_of(users@[it.index() as int])));
    }
    assert(users@.take(users@.len() as int) =~= users@);
    ApiResponse { success: true, data: Some(shown), message: None }
}

/// Decides the reading of one user by an administrator.
pub fn get_user_by_id(admin: &User, found: Option<User>) -> (r: Result<
    ApiResponse<UserListResponse>,
    AppError,
>)
    ensures
        admin.role != UserRole::Admin ==> r == Err::<ApiResponse<UserListResponse>, AppError>(
            AppError::Forbidden,
        ),
        admin.role == UserRole::Admin ==> match found {
            None => r == Err::<ApiResponse<UserListResponse>, AppError>(AppError::NotFound),
            Some(user) => r == Ok::<ApiResponse<UserListResponse>, AppError>(
                ApiResponse {
                    success: true,
                    data: Some(user_list_response_of(user)),
                    message: None,
                },
            ),
        },
{
    if admin.role != UserRole::Admin {
        return Err(AppError::Forbidden);
    }
    match found {
        None => Err(AppError::NotFound),
        Some(user) => Ok(
            ApiResponse { success: true, data: Some(UserListResponse::from(user)), message: None },
        ),
    }
}

/// A change of role: the role to store on the user, and the audit entry.
#[derive(Clone, Debug, PartialEq, Eq)]
pub struct RoleChange {
    pub user_id: Uuid,
    pub new_role: UserRole,
    pub audit: AuditEntry,
}

/// Whether `r` is the outcome of `admin` asking to give the user
/// `target_id` the role in `payload`, `target` being the user stored under
/// that identifier. Only administrators may ask; none may change their own
/// role this way; the user must exist. The change is filed with the old role
/// and the new.
pub open spec fn is_role_change(
    r: Result<RoleChange, AppError>,
    admin: User,
    target_id: Uuid,
    target: Option<User>,
    payload: UpdateUserRoleRequest,
) -> bool {
    if admin.role != UserRole::Admin {
        r == Err::<RoleChange, AppError>(AppError::Forbidden)
    } else if admin.id == target_id {
        r matches Err(e) && e.is_bad_request("Cannot change your own role"@)
    } else {
        match target {
            None => r == Err::<RoleChange, AppError>(AppError::NotFound),
            Some(user) => r == Ok::<RoleChange, AppError>(
                RoleChange {
                    user_id: target_id,
                    new_role: payload.role,
                    audit: AuditEntry {
                        user_id: admin.id,
                        event: AuditEvent::UserRoleUpdated {
                            target_user_id: target_id,
                            old_role: user.role,
                            new_role: payload.role,
                        },
                    },
                },
            ),
        }
    }
}

/// Decides a change of role by an administrator.
pub fn update_user_role(
    admin: &User,
    target_id: Uuid,
    target: &Option<User>,
    payload: &UpdateUserRoleRequest,
) -> (r: Result<RoleChange, AppError>)
    ensures
        is_role_change(r, *admin, target_id, *target, *payload),
{
    if admin.role != UserRole::Admin {
        return Err(AppError::Forbidden);
    }
    if admin.id == target_id {
        return Err(bad_request("Cannot change your own role"));
    }
    match target {
        None => Err(AppError::NotFound),
        Some(user) => Ok(
            RoleChange {
                user_id: target_id,
                new_role: payload.role,
                audit: AuditEntry {
                    user_id: admin.id,
                    event: AuditEvent::UserRoleUpdated {
                        target_user_id: target_id,
                        old_role: user.role,
                        new_role: payload.role,
                    },
                },
            },
        ),
    }
}

/// The answer after a change of role, showing the user as stored.
pub fn user_role_updated(updated: User) -> (r: ApiResponse<UserListResponse>)
    ensures
        r.success,
        r.data == Some(user_list_response_of(updated)),
        says(r.message, "User role updated successfully"@),
{
    ApiResponse {
        success: true,
        data: Some(UserListResponse::from(updated)),
        message: Some(String::from_str("User role updated successfully")),
    }
}

/// A change of account status: the status to store on the user, and the
/// audit entry.
#[derive(Clone, Debug, PartialEq, Eq)]
pub struct StatusUpdate {
    pub user_id: Uuid,
    pub new_status: UserStatus,
    pub audit: AuditEntry,
}

/// Whether `r` is the outcome of `admin` asking to give the user
/// `target_id` the account status in `payload`. The rules are those of a
/// change of role.
pub open spec fn is_status_update(
    r: Result<StatusUpdate, AppError>,
    admin: User,
    target_id: Uuid,
    target: Option<User>,
    payload: UpdateUserStatusRequest,
) -> bool {
    if admin.role != UserRole::Admin {
        r == Err::<StatusUpdate, AppError>(AppError::Forbidden)
    } else if admin.id == target_id {
        r matches Err(e) && e.is_bad_request("Cannot change your own status"@)
    } else {
        match target {
            None => r == Err::<StatusUpdate, AppError>(AppError::NotFound),
            Some(user) => r == Ok::<StatusUpdate, AppError>(
                StatusUpdate {
                    user_id: target_id,
                    new_status: payload.status,
                    audit: AuditEntry {
                        user_id: admin.id,
                        event: AuditEvent::UserStatusUpdated {
                            target_user_id: target_id,
                            old_status: user.status,
                            new_status: payload.status,
                        },
                    },
                },
            ),
        }
    }
}

/// Decides a change of account status by an administrator.
pub fn update_user_status(
    admin: &User,
    target_id: Uuid,
    target: &Option<User>,
    payload: &UpdateUserStatusRequest,
) -> (r: Result<StatusUpdate, AppError>)
    ensures
        is_status_update(r, *admin, target_id, *target, *payload),
{
    if admin.role != UserRole::Admin {
        return Err(AppError::Forbidden);
    }
    if admin.id == target_id {
        return Err(bad_request("Cannot change your own status"));
    }
    match target {
        None => Err(AppError::NotFound),
        Some(user) => Ok(
            StatusUpdate {
                user_id: target_id,
                new_status: payload.status,
                audit: AuditEntry {
                    user_id: admin.id,
                    event: AuditEvent::UserStatusUpdated {
                        target_user_id: target_id,
                        old_status: user.status,
                        new_status: payload.status,
                    },
                },
            },
        ),
    }
}

/// The answer after a change of account status, showing the user as stored.
pub fn user_status_updated(updated: User) -> (r: ApiResponse<UserListResponse>)
    ensures
        r.success,
        r.data == Some(user_list_response_of(updated)),
        says(r.message, "User status updated successfully"@),
{
    ApiResponse {
        success: true,
        data: Some(UserListResponse::from(updated)),
        message: Some(String::from_str("User status updated successfully")),
    }
}

/// The audit trail once the outcome of a request is carried out: one entry
/// longer where the request succeeded, unchanged where it was refused.
pub open spec fn trail_after<T>(
    trail: Seq<AuditEntry>,
    outcome: Result<T, AppError>,
    entry: spec_fn(T) -> AuditEntry,
) -> Seq<AuditEntry> {
    match outcome {
        Ok(change) => trail.push(entry(change)),
        Err(_) => trail,
    }
}

/// An administrator who asks to change their own role or account status is
/// refused with a bad request and nothing is filed; the same request for
/// another user, who exists, succeeds and files exactly one entry.
pub proof fn self_change_is_refused(
    trail: Seq<AuditEntry>,
    admin: User,
    other: User,
    role: UpdateUserRoleRequest,
    status: UpdateUserStatusRequest,
    own_role: Result<RoleChange, AppError>,
    others_role: Result<RoleChange, AppError>,
    own_status: Result<StatusUpdate, AppError>,
    others_status: Result<StatusUpdate, AppError>,
)
    requires
        admin.role == UserRole::Admin,
        other.id != admin.id,
        is_role_change(own_role, admin, admin.id, Some(admin), role),
        is_role_change(others_role, admin, other.id, Some(other), role),
        is_status_update(own_status, admin, admin.id, Some(admin), status),
        is_status_update(others_status, admin, other.id, Some(other), status),
    ensures
        own_role matches Err(AppError::BadRequest(_)),
        own_status matches Err(AppError::BadRequest(_)),
        trail_after(trail, own_role, |c: RoleChange| c.audit) == trail,
        trail_after(trail, own_status, |c: StatusUpdate| c.audit) == trail,
        others_role is Ok,
        others_status is Ok,
        trail_after(trail, others_role, |c: RoleChange| c.audit).len() == trail.len() + 1,
        trail_after(trail, others_status, |c: StatusUpdate| c.audit).len() == trail.len() + 1,
        trail_after(trail, others_role, |c: RoleChange| c.audit).drop_last() == trail,
        trail_after(trail, others_status, |c: StatusUpdate| c.audit).drop_last() == trail,
        trail_after(trail, others_role, |c: RoleChange| c.audit).last().user_id == admin.id,
        trail_after(trail, others_status, |c: StatusUpdate| c.audit).last().user_id == admin.id,
{
    assert(trail.push(others_role->Ok_0.audit).drop_last() =~= trail);
    assert(trail.push(others_status->Ok_0.audit).drop_last() =~= trail);
}

/// A change of one's own role: the role to store, and the audit entry.
#[derive(Clone, Debug, PartialEq, Eq)]
pub struct OwnRoleChange {
    pub user_id: Uuid,
    pub new_role: UserRole,
    pub audit: AuditEntry,
}

/// Decides the change of one's own role, which is open to every user who is
/// signed in.
pub fn update_own_role(user: &User, payload: &UpdateUserRoleRequest) -> (r: OwnRoleChange)
    ensures
        r == (OwnRoleChange {
            user_id: user.id,
            new_role: payload.role,
            audit: AuditEntry {
                user_id: user.id,
                event: AuditEvent::OwnRoleUpdated { old_role: user.role, new_role: payload.role },
            },
        }),
{
    OwnRoleChange {
        user_id: user.id,
        new_role: payload.role,
        audit: AuditEntry {
            user_id: user.id,
            event: AuditEvent::OwnRoleUpdated { old_role: user.role, new_role: payload.role },
        },
    }
}

/// The answer after a change of one's own role, showing the user as stored.
pub fn own_role_updated(updated: User) -> (r: ApiResponse<UserResponse>)
    ensures
        r.success,
        r.data == Some(user_response_of(updated)),
        says(r.message, "Your role has been updated"@),
{
    ApiResponse {
        success: true,
        data: Some(UserResponse::from(updated)),
        message: Some(String::from_str("Your role has been updated")),
    }
}

/// The stretch of the audit trail that is asked for: as many entries as
/// `limit` says, 100 where it says nothing, between 1 and 500 in any case,
/// after skipping as many as `offset` says, none where it says nothing.
pub open spec fn audit_window(limit: Option<i64>, offset: Option<i64>) -> Seq<Piece> {
    seq![Piece::Sql("SELECT * FROM audit_logs"@)] + window(
        " ORDER BY created_at DESC LIMIT "@,
        page_size(limit, 100, 500),
        match offset {
            Some(o) => o as int,
            None => 0,
        },
    )
}

/// The text of the query for the audit trail is the same for every stretch.
pub proof fn audit_text_ignores_values(
    limit: Option<i64>,
    offset: Option<i64>,
    other_limit: Option<i64>,
    other_offset: Option<i64>,
)
    ensures
        render(audit_window(limit, offset)) == render(audit_window(other_limit, other_offset)),
{
    let base = seq![Piece::Sql("SELECT * FROM audit_logs"@)];
    let order = " ORDER BY created_at DESC LIMIT "@;
    let skip = |o: Option<i64>|
        match o {
            Some(n) => n as int,
            None => 0,
        };
    shape_of_window(
        order,
        page_size(limit, 100, 500),
        skip(offset),
        page_size(other_limit, 100, 500),
        skip(other_offset),
    );
    shape_of_both_joined(
        base,
        window(order, page_size(limit, 100, 500), skip(offset)),
        base,
        window(order, page_size(other_limit, 100, 500), skip(other_offset)),
    );
    text_ignores_values(audit_window(limit, offset), audit_window(other_limit, other_offset));
}

/// Builds the query for a stretch of the audit trail, newest entry first.
pub fn audit_logs_query(limit: Option<i64>, offset: Option<i64>) -> (q: SqlQuery)
    ensures
        q.spells(audit_window(limit, offset)),
{
    let asked: i64 = match limit {
        Some(l) => l,
        None => 100,
    };
    let limit: i64 = if asked < 1 {
        1
    } else if asked > 500 {
        500
    } else {
        asked
    };
    let offset: i64 = match offset {
        Some(o) => o,
        None => 0,
    };
    let mut b = QueryBuilder::new("SELECT * FROM audit_logs");
    b.push_window(" ORDER BY created_at DESC LIMIT ", limit, offset);
    b.finish()
}

/// What a parameter of the request says as a number: nothing where it is
/// absent or spells no number.
pub open spec fn number_in(text: Option<String>) -> Option<i64> {
    match text {
        Some(t) => parsed_i64(t@),
        None => None,
    }
}

fn read_number(text: &Option<String>) -> (n: Option<i64>)
    ensures
        n == number_in(*text),
{
    match text {
        Some(t) => parse_i64(t.as_str()),
        None => None,
    }
}

/// Builds the query for the stretch of the audit trail that the parameters
/// `limit` and `offset` of a request name, for administrators only. A
/// parameter that spells no number counts as absent.
pub fn get_audit_logs(user: &User, limit: &Option<String>, offset: &Option<String>) -> (r: Result<
    SqlQuery,
    AppError,
>)
    ensures
        user.role != UserRole::Admin ==> r == Err::<SqlQuery, AppError>(AppError::Forbidden),
        user.role == UserRole::Admin ==> (r matches Ok(q) && q.spells(
            audit_window(number_in(*limit), number_in(*offset)),
        )),
{
    if user.role != UserRole::Admin {
        return Err(AppError::Forbidden);
    }
    Ok(audit_logs_query(read_number(limit), read_number(offset)))
}

/// Shows one entry of the audit trail, with the user who acted where the
/// entry names one.
pub fn audit_log_response(log: AuditLog, user: Option<User>) -> (r: AuditLogResponse)
    ensures
        r == (AuditLogResponse {
            id: log.id,
            user: if log.user_id is Some {
                public_face(user)
            } else {
                None
            },
            action: log.action,
            metadata: log.metadata,
            created_at: log.created_at,
        }),
{
    let user = if log.user_id.is_some() {
        to_public_face(user)
    } else {
        None
    };
    AuditLogResponse {
        id: log.id,
        user,
        action: log.action,
        metadata: log.metadata,
        created_at: log.created_at,
    }
}

/// How many users hold a role.
#[derive(Clone, Copy, Debug, PartialEq, Eq, Structural)]
pub struct RoleCount {
    pub role: UserRole,
    pub count: i64,
}

/// The counts an administrator is shown.
#[derive(Clone, Debug, PartialEq, Eq)]
pub struct SystemStats {
    pub total_users: i64,
    pub active_users: i64,
    pub total_grievances: i64,
    pub pending_grievances: i64,
    pub resolved_grievances: i64,
    /// For each role its lower-case name and the number of users holding it.
    pub users_by_role: Vec<(String, i64)>,
}

/// A count as it is shown: zero where the store gave none.
pub open spec fn count_or_zero(count: Option<i64>) -> i64 {
    match count {
        Some(n) => n,
        None => 0,
    }
}

/// Puts the system counts together, for administrators only.
pub fn get_system_stats(
    user: &User,
    total_users: i64,
    active_users: i64,
    total_grievances: Option<i64>,
    pending_grievances: Option<i64>,
    resolved_grievances: Option<i64>,
    role_counts: &Vec<RoleCount>,
) -> (r: Result<ApiResponse<SystemStats>, AppError>)
    ensures
        user.role != UserRole::Admin ==> r == Err::<ApiResponse<SystemStats>, AppError>(
            AppError::Forbidden,
        ),
        user.role == UserRole::Admin ==> (r matches Ok(answer) && {
            &&& answer.success
            &&& answer.message is None
            &&& answer.data matches Some(stats)
            &&& stats.total_users == total_users
            &&& stats.active_users == active_users
            &&& stats.total_grievances == count_or_zero(total_grievances)
            &&& stats.pending_grievances == count_or_zero(pending_grievances)
            &&& stats.resolved_grievances == count_or_zero(resolved_grievances)
            &&& stats.users_by_role@.map_values(|e: (String, i64)| (e.0@, e.1))
                == role_counts@.map_values(|c: RoleCount| (c.role.name(), c.count))
        }),
{
    if user.role != UserRole::Admin {
        return Err(AppError::Forbidden);
    }
    let mut users_by_role: Vec<(String, i64)> = Vec::new();
    let mut i: usize = 0;
    while i < role_counts.len()
        invariant
            i <= role_counts.len(),
            users_by_role@.map_values(|e: (String, i64)| (e.0@, e.1)) == role_counts@.take(
                i as int,
            ).map_values(|c: RoleCount| (c.role.name(), c.count)),
        decreases role_counts.len() - i,
    {
        let ghost before = users_by_role@;
        users_by_role.push((String::from_str(role_counts[i].role.as_str()), role_counts[i].count));
        assert(users_by_role@.map_values(|e: (String, i64)| (e.0@, e.1)) =~= before.map_values(
            |e: (String, i64)| (e.0@, e.1),
        ).push((role_counts@[i as int].role.name(), role_counts@[i as int].count)));
        assert(role_counts@.take(i + 1).map_values(|c: RoleCount| (c.role.name(), c.count))
            =~= role_counts@.take(i as int).map_values(
            |c: RoleCount| (c.role.name(), c.count),
        ).push((role_counts@[i as int].role.name(), role_counts@[i as int].count)));
        i = i + 1;
    }
    assert(role_counts@.take(role_counts.len() as int) =~= role_counts@);
    let stats = SystemStats {
        total_users,
        active_users,
        total_grievances: match total_grievances {
            Some(n) => n,
            None => 0,
        },
        pending_grievances: match pending_grievances {
            Some(n) => n,
            None => 0,
        },
        resolved_grievances: match resolved_grievances {
            Some(n) => n,
            None => 0,
        },
        users_by_role,
    };
    Ok(ApiResponse { success: true, data: Some(stats), message: None })
}

/// A user that development setups are seeded with.
#[derive(Clone, Copy, Debug, PartialEq, Eq)]
pub struct SeedUser {
    pub first_name: &'static str,
    pub last_name: &'static str,
    pub email: &'static str,
    pub role: UserRole,
}

/// Whether `seed` has the given names, address and role.
pub open spec fn is_seed(
    seed: SeedUser,
    first_name: Seq<char>,
    last_name: Seq<char>,
    email: Seq<char>,
    role: UserRole,
) -> bool {
    &&& seed.first_name@ == first_name
    &&& seed.last_name@ == last_name
    &&& seed.email@ == email
    &&& seed.role == role
}

/// The users that development setups are seeded with: one member of the
/// faculty, one authority and one student.
pub fn seed_users() -> (seeds: Vec<SeedUser>)
    ensures
        seeds@.len() == 3,
        is_seed(seeds@[0], "Dr."@, "Strange"@, "strange@iitmandi.ac.in"@, UserRole::Faculty),
        is_seed(seeds@[1], "Tony"@, "Stark"@, "stark@iitmandi.ac.in"@, UserRole::Authority),
        is_seed(
            seeds@[2],
            "Steve"@,
            "Rogers"@,
            "rogers@students.iitmandi.ac.in"@,
            UserRole::Student,
        ),
{
    let mut seeds: Vec<SeedUser> = Vec::new();
    seeds.push(
        SeedUser {
            first_name: "Dr.",
            last_name: "Strange",
            email: "strange@iitmandi.ac.in",
            role: UserRole::Faculty,
        },
    );
    seeds.push(
        SeedUser {
            first_name: "Tony",
            last_name: "Stark",
            email: "stark@iitmandi.ac.in",
            role: UserRole::Authority,
        },
    );
    seeds.push(
        SeedUser {
            first_name: "Steve",
            last_name: "Rogers",
            email: "rogers@students.iitmandi.ac.in",
            role: UserRole::Student,
        },
    );
    seeds
}

/// Whether `r` is what seeding `seed` stores: nothing where a user with
/// that address exists, otherwise an active user with an empty picture,
/// known to the provider under the text of `token`.
pub open spec fn is_seeding(r: Option<NewUser>, seed: SeedUser, exists: bool, token: Uuid) -> bool {
    if exists {
        r is None
    } else {
        r matches Some(new) && {
            &&& new.email@ == seed.email@
            &&& new.google_id@ == uuid_text(token.0)
            &&& new.role == seed.role
            &&& new.status == UserStatus::Active
            &&& new.first_name@ == seed.first_name@
            &&& new.last_name@ == seed.last_name@
            &&& new.profile_picture matches Some(p)
            &&& p@ == Seq::<char>::empty()
        }
    }
}

/// Decides the seeding of one user, given the token that stands in for the
/// provider's identifier.
pub fn seed_user_with(seed: &SeedUser, exists: bool, token: Uuid) -> (r: Option<NewUser>)
    ensures
        is_seeding(r, *seed, exists, token),
{
    if exists {
        return None;
    }
    Some(
        NewUser {
            email: String::from_str(seed.email),
            google_id: token.to_text(),
            role: seed.role,
            status: UserStatus::Active,
            first_name: String::from_str(seed.first_name),
            last_name: String::from_str(seed.last_name),
            profile_picture: Some(String::new()),
        },
    )
}

/// Decides the seeding of one user, drawing a fresh token.
pub fn seed_dummy_user(seed: &SeedUser, exists: bool) -> (r: Option<NewUser>)
    ensures
        exists|token: Uuid| is_seeding(r, *seed, exists, token),
{
    let token = Uuid::new_v4();
    let r = seed_user_with(seed, exists, token);
    assert(is_seeding(r, *seed, exists, token));
    r
}

/// The answer after seeding.
pub fn seed_dummy_users() -> (r: ApiResponse<String>)
    ensures
        r.success,
        r.data matches Some(text) && text@
            == "Dummy users created. You can now assign them tasks."@,
        r.message is None,
{
    ApiResponse {
        success: true,
        data: Some(String::from_str("Dummy users created. You can now assign them tasks.")),
        message: None,
    }
}

} // verus!
