//! Grievances: who may see and change them, how they are created, listed,
//! moved through their life cycle, upvoted, commented on and given photos.
//!
//! Every operation is a decision over values the caller has already read from
//! storage; what it returns says what to write and what to answer.

use vstd::prelude::*;
use vstd::string::*;

use crate::audit::{AuditEntry, AuditEvent};
use crate::codec::{base64_encoded, base64_fits, base64_standard_encode};
use crate::error::{bad_request, AppError};
use crate::primitives::{hex_digit, uuid_text, Timestamp, Uuid};
use crate::query::{
    arg_of, binds, clause, page_number, page_offset, page_size, paginate, render, search_clause,
    shape_of_both_joined, shape_of_clause, shape_of_search, shape_of_window, text_ignores_values,
    window, Piece, QueryBuilder, SqlArg, SqlQuery, SqlValue,
};
use crate::structs::{
    list_response, public_face, says, to_public_face, user_response_of, ApiResponse,
    AssignGrievanceRequest, CreateCommentRequest, CreateGrievanceRequest, Department, Grievance,
    GrievanceCategory, GrievanceComment, GrievanceCommentResponse, GrievanceFilters,
    GrievancePriority, GrievanceResponse, GrievanceStatus, GrievanceStatusHistory,
    GrievanceStatusHistoryResponse, ResolveGrievanceRequest, UpdateGrievanceStatusRequest, User,
    UserResponse, UserRole,
};
use crate::text::{
    chars_of, hex_lower_char, hex_upper_char, lemma_upper_hex_digit, str_eq, to_ascii_upper,
};

verus! {

/// Whether `id` names the user `user`.
pub fn names_user(id: Option<Uuid>, user: Uuid) -> (r: bool)
    ensures
        r == (id == Some(user)),
{
    match id {
        Some(x) => x == user,
        None => false,
    }
}

/// Who may read a grievance in full: administrators and authorities any,
/// faculty those assigned to them, students their own and every one that was
/// not submitted anonymously.
pub open spec fn may_view(user: User, grievance: Grievance) -> bool {
    match user.role {
        UserRole::Admin | UserRole::Authority => true,
        UserRole::Faculty => grievance.assigned_to == Some(user.id),
        UserRole::Student => grievance.submitted_by == Some(user.id) || !grievance.is_anonymous,
    }
}

/// Who may change a grievance: whoever submitted it, whatever their role;
/// administrators any; authorities those assigned to them or to nobody.
pub open spec fn may_modify(user: User, grievance: Grievance) -> bool {
    ||| grievance.submitted_by == Some(user.id)
    ||| user.role == UserRole::Admin
    ||| (user.role == UserRole::Authority && (grievance.assigned_to is None
        || grievance.assigned_to == Some(user.id)))
}

/// Who may delete a grievance: administrators any, students their own.
pub open spec fn may_delete(user: User, grievance: Grievance) -> bool {
    match user.role {
        UserRole::Admin => true,
        UserRole::Student => grievance.submitted_by == Some(user.id),
        _ => false,
    }
}

/// Who may submit grievances: students and faculty.
pub open spec fn may_submit(role: UserRole) -> bool {
    role == UserRole::Student || role == UserRole::Faculty
}

/// Who handles grievances, that is sets their status, assigns and resolves
/// them, and reads and writes internal remarks: authorities and
/// administrators.
pub open spec fn handles_grievances(role: UserRole) -> bool {
    role == UserRole::Authority || role == UserRole::Admin
}

/// Decides `may_view`.
pub fn can_view_grievance(user: &User, grievance: &Grievance) -> (r: bool)
    ensures
        r == may_view(*user, *grievance),
{
    match user.role {
        UserRole::Admin | UserRole::Authority => true,
        UserRole::Faculty => names_user(grievance.assigned_to, user.id),
        UserRole::Student => names_user(grievance.submitted_by, user.id)
            || !grievance.is_anonymous,
    }
}

/// Decides `may_modify`.
pub fn can_modify_grievance(user: &User, grievance: &Grievance) -> (r: bool)
    ensures
        r == may_modify(*user, *grievance),
{
    if names_user(grievance.submitted_by, user.id) {
        return true;
    }
    match user.role {
        UserRole::Admin => true,
        UserRole::Authority => grievance.assigned_to.is_none() || names_user(
            grievance.assigned_to,
            user.id,
        ),
        _ => false,
    }
}

/// Decides `may_delete`.
pub fn can_delete_grievance(user: &User, grievance: &Grievance) -> (r: bool)
    ensures
        r == may_delete(*user, *grievance),
{
    match user.role {
        UserRole::Admin => true,
        UserRole::Student => names_user(grievance.submitted_by, user.id),
        _ => false,
    }
}

/// Decides `may_submit`.
pub fn can_submit_grievance(role: UserRole) -> (r: bool)
    ensures
        r == may_submit(role),
{
    matches!(role, UserRole::Student | UserRole::Faculty)
}

/// Decides `handles_grievances`.
pub fn can_handle_grievances(role: UserRole) -> (r: bool)
    ensures
        r == handles_grievances(role),
{
    matches!(role, UserRole::Authority | UserRole::Admin)
}

/// Refuses whoever does not handle grievances.
pub fn require_grievance_handler(user: &User) -> (r: Result<(), AppError>)
    ensures
        r == (if handles_grievances(user.role) {
            Ok::<(), AppError>(())
        } else {
            Err::<(), AppError>(AppError::Forbidden)
        }),
{
    if can_handle_grievances(user.role) {
        Ok(())
    } else {
        Err(AppError::Forbidden)
    }
}

/// The label that stands in for the submitter of an anonymous grievance:
/// `ANON-` and the first eight hexadecimal digits of `token` in upper case.
pub open spec fn anonymous_label(token: u128) -> Seq<char> {
    "ANON-"@ + Seq::new(8, |k: int| hex_upper_char(hex_digit(token, k)))
}

/// Whether `label` is an anonymous label: `ANON-` followed by eight
/// upper-case hexadecimal digits.
pub open spec fn is_anonymous_label(label: Seq<char>) -> bool {
    exists|token: u128| label == anonymous_label(token)
}

/// The anonymous label made from `token`.
pub fn anonymous_identifier(token: Uuid) -> (label: String)
    ensures
        label@ == anonymous_label(token.0),
{
    let text = token.to_text();
    let chars = chars_of(text.as_str());
    let mut label = String::from_str("ANON-");
    let mut k: usize = 0;
    while k < 8
        invariant
            k <= 8,
            chars@ == uuid_text(token.0),
            label@ == "ANON-"@ + Seq::new(k as nat, |j: int| hex_upper_char(hex_digit(token.0, j))),
        decreases 8 - k,
    {
        let c = chars[k];
        proof {
            assert(c == hex_lower_char(hex_digit(token.0, k as int)));
            lemma_upper_hex_digit(hex_digit(token.0, k as int));
        }
        label.push(to_ascii_upper(c));
        k = k + 1;
    }
    label
}

/// A fresh anonymous label.
pub fn generate_anonymous_identifier() -> (label: String)
    ensures
        is_anonymous_label(label@),
{
    let token = Uuid::new_v4();
    anonymous_identifier(token)
}

/// A grievance about to be stored for the first time.
#[derive(Clone, Debug, PartialEq, Eq)]
pub struct NewGrievance {
    pub submitted_by: Option<Uuid>,
    pub is_anonymous: bool,
    pub anonymous_identifier: Option<String>,
    pub title: String,
    pub description: String,
    pub category: GrievanceCategory,
    pub priority: GrievancePriority,
    pub status: GrievanceStatus,
    pub location_type: Option<String>,
    pub location_details: Option<String>,
    pub view_count: i32,
    pub upvote_count: i32,
}

/// Whether `row` is the grievance that `user` submits with `payload`, the
/// anonymous label, where one is needed, being made from `token`. An
/// anonymous grievance keeps no trace of its submitter; any other names them
/// and carries no label. Every grievance starts as submitted, unseen and
/// without upvotes.
pub open spec fn is_submission(
    row: NewGrievance,
    user: User,
    payload: CreateGrievanceRequest,
    token: u128,
) -> bool {
    &&& row.is_anonymous == payload.is_anonymous
    &&& if payload.is_anonymous {
        &&& row.submitted_by is None
        &&& row.anonymous_identifier matches Some(label)
        &&& label@ == anonymous_label(token)
    } else {
        &&& row.submitted_by == Some(user.id)
        &&& row.anonymous_identifier is None
    }
    &&& row.title == payload.title
    &&& row.description == payload.description
    &&& row.category == payload.category
    &&& row.priority == payload.priority
    &&& row.status == GrievanceStatus::Submitted
    &&& row.location_type == payload.location_type
    &&& row.location_details == payload.location_details
    &&& row.view_count == 0
    &&& row.upvote_count == 0
}

/// Decides a submission, given the token to make an anonymous label from.
/// Only students and faculty may submit.
pub fn create_grievance_with(user: &User, payload: CreateGrievanceRequest, token: Uuid) -> (r:
    Result<NewGrievance, AppError>)
    ensures
        !may_submit(user.role) ==> r == Err::<NewGrievance, AppError>(AppError::Forbidden),
        may_submit(user.role) ==> (r matches Ok(row) && is_submission(
            row,
            *user,
            payload,
            token.0,
        )),
{
    if !can_submit_grievance(user.role) {
        return Err(AppError::Forbidden);
    }
    let submitted_by = if payload.is_anonymous {
        None
    } else {
        Some(user.id)
    };
    let anonymous_identifier = if payload.is_anonymous {
        Some(anonymous_identifier(token))
    } else {
        None
    };
    Ok(
        NewGrievance {
            submitted_by,
            is_anonymous: payload.is_anonymous,
            anonymous_identifier,
            title: payload.title,
            description: payload.description,
            category: payload.category,
            priority: payload.priority,
            status: GrievanceStatus::Submitted,
            location_type: payload.location_type,
            location_details: payload.location_details,
            view_count: 0,
            upvote_count: 0,
        },
    )
}

/// Decides a submission, drawing a fresh token for the anonymous label.
pub fn create_grievance(user: &User, payload: CreateGrievanceRequest) -> (r: Result<
    NewGrievance,
    AppError,
>)
    ensures
        !may_submit(user.role) ==> r == Err::<NewGrievance, AppError>(AppError::Forbidden),
        may_submit(user.role) ==> (r matches Ok(row) && exists|token: u128|
            is_submission(row, *user, payload, token)),
        r matches Ok(row) ==> (payload.is_anonymous ==> {
            &&& row.submitted_by is None
            &&& row.anonymous_identifier matches Some(label)
            &&& is_anonymous_label(label@)
        }),
{
    let token = Uuid::new_v4();
    let r = create_grievance_with(user, payload, token);
    proof {
        if r is Ok {
            assert(is_submission(r->Ok_0, *user, payload, token.0));
        }
    }
    r
}

/// Whether `r` shows `grievance` with the given people and upvote mark. The
/// submitter is shown only where the grievance names one.
pub open spec fn shows(
    r: GrievanceResponse,
    grievance: Grievance,
    submitter: Option<User>,
    assignee: Option<User>,
    user_has_upvoted: bool,
) -> bool {
    &&& r.id == grievance.id
    &&& r.submitter == (if grievance.submitted_by is Some {
        public_face(submitter)
    } else {
        None
    })
    &&& r.is_anonymous == grievance.is_anonymous
    &&& r.title == grievance.title
    &&& r.description == grievance.description
    &&& r.category == grievance.category
    &&& r.priority == grievance.priority
    &&& r.status == grievance.status
    &&& r.location_type == grievance.location_type
    &&& r.location_details == grievance.location_details
    &&& r.photo_urls@ == (match grievance.photo_urls {
        Some(urls) => urls@,
        None => Seq::empty(),
    })
    &&& r.assigned_to == (if grievance.assigned_to is Some {
        public_face(assignee)
    } else {
        None
    })
    &&& r.assigned_department == grievance.assigned_department
    &&& r.resolution_notes == grievance.resolution_notes
    &&& r.resolved_at == grievance.resolved_at
    &&& r.view_count == grievance.view_count
    &&& r.upvote_count == grievance.upvote_count
    &&& r.user_has_upvoted == user_has_upvoted
    &&& r.created_at == grievance.created_at
    &&& r.updated_at == grievance.updated_at
}

/// Shows a grievance together with its submitter and assignee, as far as it
/// names them, and with the reader's upvote mark.
pub fn grievance_response(
    grievance: Grievance,
    submitter: Option<User>,
    assignee: Option<User>,
    user_has_upvoted: bool,
) -> (r: GrievanceResponse)
    ensures
        shows(r, grievance, submitter, assignee, user_has_upvoted),
{
    let submitter = if grievance.submitted_by.is_some() {
        to_public_face(submitter)
    } else {
        None
    };
    let assigned_to = if grievance.assigned_to.is_some() {
        to_public_face(assignee)
    } else {
        None
    };
    let photo_urls = match grievance.photo_urls {
        Some(urls) => urls,
        None => Vec::new(),
    };
    GrievanceResponse {
        id: grievance.id,
        submitter,
        is_anonymous: grievance.is_anonymous,
        title: grievance.title,
        description: grievance.description,
        category: grievance.category,
        priority: grievance.priority,
        status: grievance.status,
        location_type: grievance.location_type,
        location_details: grievance.location_details,
        photo_urls,
        assigned_to,
        assigned_department: grievance.assigned_department,
        resolution_notes: grievance.resolution_notes,
        resolved_at: grievance.resolved_at,
        view_count: grievance.view_count,
        upvote_count: grievance.upvote_count,
        user_has_upvoted,
        created_at: grievance.created_at,
        updated_at: grievance.updated_at,
    }
}

/// Whether `r` reports success with `message`, showing `grievance` without
/// any person and without an upvote mark.
pub open spec fn confirms(
    r: ApiResponse<GrievanceResponse>,
    grievance: Grievance,
    message: Seq<char>,
) -> bool {
    &&& r.success
    &&& r.data matches Some(shown)
    &&& shows(shown, grievance, None, None, false)
    &&& shown.submitter is None
    &&& shown.assigned_to is None
    &&& says(r.message, message)
}

fn confirmation(grievance: Grievance, message: &str) -> (r: ApiResponse<GrievanceResponse>)
    ensures
        confirms(r, grievance, message@),
{
    ApiResponse {
        success: true,
        data: Some(grievance_response(grievance, None, None, false)),
        message: Some(String::from_str(message)),
    }
}

/// What follows the storing of a new grievance: the audit entry to append and
/// the answer, which never names the submitter.
pub fn grievance_created(user: &User, stored: Grievance) -> (r: (
    AuditEntry,
    ApiResponse<GrievanceResponse>,
))
    ensures
        r.0 == (AuditEntry {
            user_id: user.id,
            event: AuditEvent::GrievanceCreated {
                grievance_id: stored.id,
                category: stored.category,
                priority: stored.priority,
            },
        }),
        confirms(r.1, stored, "Grievance created successfully"@),
{
    let entry = AuditEntry {
        user_id: user.id,
        event: AuditEvent::GrievanceCreated {
            grievance_id: stored.id,
            category: stored.category,
            priority: stored.priority,
        },
    };
    (entry, confirmation(stored, "Grievance created successfully"))
}

/// The query of the grievance feed. Every filter that is present adds one
/// condition of equality, a search adds a substring match on title and
/// description without regard to case, an absent filter adds nothing. Newest
/// first; pages of 20 unless asked otherwise, of 100 at most.
pub open spec fn grievance_feed(filters: GrievanceFilters) -> Seq<Piece> {
    let limit = page_size(filters.limit, 20, 100);
    let offset = page_offset(page_number(filters.page), limit);
    seq![Piece::Sql("SELECT g.* FROM grievances g WHERE 1=1"@)] + clause(
        " AND g.status = "@,
        arg_of(
            match filters.status {
                Some(v) => Some(SqlValue::Status(v)),
                None => None,
            },
        ),
    ) + clause(
        " AND g.category = "@,
        arg_of(
            match filters.category {
                Some(v) => Some(SqlValue::Category(v)),
                None => None,
            },
        ),
    ) + clause(
        " AND g.priority = "@,
        arg_of(
            match filters.priority {
                Some(v) => Some(SqlValue::Priority(v)),
                None => None,
            },
        ),
    ) + clause(
        " AND g.assigned_to = "@,
        arg_of(
            match filters.assigned_to {
                Some(v) => Some(SqlValue::Id(v)),
                None => None,
            },
        ),
    ) + clause(
        " AND g.assigned_department = "@,
        arg_of(
            match filters.assigned_department {
                Some(v) => Some(SqlValue::Text(v)),
                None => None,
            },
        ),
    ) + search_clause(
        " AND (g.title ILIKE "@,
        seq![" OR g.description ILIKE "@, ")"@],
        filters.search,
    ) + window(" ORDER BY g.created_at DESC LIMIT "@, limit, offset)
}

/// Whether two sets of filters name the same filters, whatever values they
/// give them.
pub open spec fn same_filters_named(a: GrievanceFilters, b: GrievanceFilters) -> bool {
    &&& a.status is Some == b.status is Some
    &&& a.category is Some == b.category is Some
    &&& a.priority is Some == b.priority is Some
    &&& a.assigned_to is Some == b.assigned_to is Some
    &&& a.assigned_department is Some == b.assigned_department is Some
    &&& a.search is Some == b.search is Some
}

/// The text of the feed query depends on which filters are named only: no
/// value that a caller supplies ever becomes part of the SQL.
pub proof fn feed_text_ignores_values(a: GrievanceFilters, b: GrievanceFilters)
    requires
        same_filters_named(a, b),
    ensures
        render(grievance_feed(a)) == render(grievance_feed(b)),
        binds(grievance_feed(a)).len() == binds(grievance_feed(b)).len(),
{
    let base = seq![Piece::Sql("SELECT g.* FROM grievances g WHERE 1=1"@)];
    let status = |f: GrievanceFilters|
        arg_of(
            match f.status {
                Some(v) => Some(SqlValue::Status(v)),
                None => None,
            },
        );
    let category = |f: GrievanceFilters|
        arg_of(
            match f.category {
                Some(v) => Some(SqlValue::Category(v)),
                None => None,
            },
        );
    let priority = |f: GrievanceFilters|
        arg_of(
            match f.priority {
                Some(v) => Some(SqlValue::Priority(v)),
                None => None,
            },
        );
    let assignee = |f: GrievanceFilters|
        arg_of(
            match f.assigned_to {
                Some(v) => Some(SqlValue::Id(v)),
                None => None,
            },
        );
    let department = |f: GrievanceFilters|
        arg_of(
            match f.assigned_department {
                Some(v) => Some(SqlValue::Text(v)),
                None => None,
            },
        );
    let limit = |f: GrievanceFilters| page_size(f.limit, 20, 100);
    let offset = |f: GrievanceFilters| page_offset(page_number(f.page), limit(f));
    let tails = seq![" OR g.description ILIKE "@, ")"@];

    let a1 = base + clause(" AND g.status = "@, status(a));
    let b1 = base + clause(" AND g.status = "@, status(b));
    shape_of_clause(" AND g.status = "@, status(a), status(b));
    shape_of_both_joined(
        base,
        clause(" AND g.status = "@, status(a)),
        base,
        clause(" AND g.status = "@, status(b)),
    );
    let a2 = a1 + clause(" AND g.category = "@, category(a));
    let b2 = b1 + clause(" AND g.category = "@, category(b));
    shape_of_clause(" AND g.category = "@, category(a), category(b));
    shape_of_both_joined(
        a1,
        clause(" AND g.category = "@, category(a)),
        b1,
        clause(" AND g.category = "@, category(b)),
    );
    let a3 = a2 + clause(" AND g.priority = "@, priority(a));
    let b3 = b2 + clause(" AND g.priority = "@, priority(b));
    shape_of_clause(" AND g.priority = "@, priority(a), priority(b));
    shape_of_both_joined(
        a2,
        clause(" AND g.priority = "@, priority(a)),
        b2,
        clause(" AND g.priority = "@, priority(b)),
    );
    let a4 = a3 + clause(" AND g.assigned_to = "@, assignee(a));
    let b4 = b3 + clause(" AND g.assigned_to = "@, assignee(b));
    shape_of_clause(" AND g.assigned_to = "@, assignee(a), assignee(b));
    shape_of_both_joined(
        a3,
        clause(" AND g.assigned_to = "@, assignee(a)),
        b3,
        clause(" AND g.assigned_to = "@, assignee(b)),
    );
    let a5 = a4 + clause(" AND g.assigned_department = "@, department(a));
    let b5 = b4 + clause(" AND g.assigned_department = "@, department(b));
    shape_of_clause(" AND g.assigned_department = "@, department(a), department(b));
    shape_of_both_joined(
        a4,
        clause(" AND g.assigned_department = "@, department(a)),
        b4,
        clause(" AND g.assigned_department = "@, department(b)),
    );
    let a6 = a5 + search_clause(" AND (g.title ILIKE "@, tails, a.search);
    let b6 = b5 + search_clause(" AND (g.title ILIKE "@, tails, b.search);
    shape_of_search(" AND (g.title ILIKE "@, tails, a.search, b.search);
    shape_of_both_joined(
        a5,
        search_clause(" AND (g.title ILIKE "@, tails, a.search),
        b5,
        search_clause(" AND (g.title ILIKE "@, tails, b.search),
    );
    let order = " ORDER BY g.created_at DESC LIMIT "@;
    shape_of_window(order, limit(a), offset(a), limit(b), offset(b));
    shape_of_both_joined(
        a6,
        window(order, limit(a), offset(a)),
        b6,
        window(order, limit(b), offset(b)),
    );
    assert(grievance_feed(a) == a6 + window(order, limit(a), offset(a)));
    assert(grievance_feed(b) == b6 + window(order, limit(b), offset(b)));
    text_ignores_values(grievance_feed(a), grievance_feed(b));
}

/// Builds the query of the grievance feed. The feed is open to every user
/// who is signed in, whatever their role.
pub fn get_grievances(filters: GrievanceFilters) -> (q: SqlQuery)
    ensures
        q.spells(grievance_feed(filters)),
{
    let page = paginate(filters.page, filters.limit, 20, 100);
    let mut b = QueryBuilder::new("SELECT g.* FROM grievances g WHERE 1=1");
    b.push_clause(
        " AND g.status = ",
        match filters.status {
            Some(v) => Some(SqlValue::Status(v)),
            None => None,
        },
    );
    b.push_clause(
        " AND g.category = ",
        match filters.category {
            Some(v) => Some(SqlValue::Category(v)),
            None => None,
        },
    );
    b.push_clause(
        " AND g.priority = ",
        match filters.priority {
            Some(v) => Some(SqlValue::Priority(v)),
            None => None,
        },
    );
    b.push_clause(
        " AND g.assigned_to = ",
        match filters.assigned_to {
            Some(v) => Some(SqlValue::Id(v)),
            None => None,
        },
    );
    b.push_clause(
        " AND g.assigned_department = ",
        match filters.assigned_department {
            Some(v) => Some(SqlValue::Text(v)),
            None => None,
        },
    );
    let tails = vec![" OR g.description ILIKE ", ")"];
    assert(tails@.map_values(|t: &str| t@) =~= seq![" OR g.description ILIKE "@, ")"@]);
    b.push_search(" AND (g.title ILIKE ", &tails, &filters.search);
    b.push_window(" ORDER BY g.created_at DESC LIMIT ", page.limit, page.offset);
    b.finish()
}

/// Whether `r` is the outcome of a read of `found` by `user` that counts as
/// a view: the grievance must exist, the user must be allowed to see it, and
/// what is handed back is the grievance with the view counted.
pub open spec fn is_viewing(
    r: Result<Grievance, AppError>,
    user: User,
    found: Option<Grievance>,
) -> bool {
    match found {
        None => r == Err::<Grievance, AppError>(AppError::NotFound),
        Some(g) => if !may_view(user, g) {
            r == Err::<Grievance, AppError>(AppError::Forbidden)
        } else if g.view_count == i32::MAX {
            r matches Err(AppError::Internal(detail)) && detail@ == "view count out of range"@
        } else {
            r == Ok::<Grievance, AppError>(Grievance { view_count: (g.view_count + 1) as i32, ..g })
        },
    }
}

/// Decides the reading of one grievance. On success the caller adds one to
/// the stored view count and answers with the grievance as returned here,
/// which already shows the new count. A count that cannot grow any further is
/// reported as an internal failure.
pub fn get_grievance_by_id(user: &User, found: Option<Grievance>) -> (r: Result<
    Grievance,
    AppError,
>)
    ensures
        is_viewing(r, *user, found),
{
    match found {
        None => Err(AppError::NotFound),
        Some(g) => {
            if !can_view_grievance(user, &g) {
                return Err(AppError::Forbidden);
            }
            match g.view_count.checked_add(1) {
                None => Err(AppError::Internal(String::from_str("view count out of range"))),
                Some(n) => {
                    let mut seen = g;
                    seen.view_count = n;
                    Ok(seen)
                },
            }
        },
    }
}

/// The answer that shows one grievance and carries no message.
pub fn grievance_shown(
    grievance: Grievance,
    submitter: Option<User>,
    assignee: Option<User>,
    user_has_upvoted: bool,
) -> (r: ApiResponse<GrievanceResponse>)
    ensures
        r.success,
        r.data matches Some(shown) && shows(
            shown,
            grievance,
            submitter,
            assignee,
            user_has_upvoted,
        ),
        r.message is None,
{
    ApiResponse {
        success: true,
        data: Some(grievance_response(grievance, submitter, assignee, user_has_upvoted)),
        message: None,
    }
}

/// One entry about to be appended to the record of status changes.
#[derive(Clone, Debug, PartialEq, Eq)]
pub struct NewStatusHistory {
    pub grievance_id: Uuid,
    pub old_status: Option<GrievanceStatus>,
    pub new_status: GrievanceStatus,
    pub remarks: Option<String>,
    pub updated_by: Option<Uuid>,
    pub updated_by_role: Option<UserRole>,
}

/// A change of status: the status to store on the grievance, and the entry
/// that records the change.
#[derive(Clone, Debug, PartialEq, Eq)]
pub struct StatusChange {
    pub grievance_id: Uuid,
    pub new_status: GrievanceStatus,
    pub history: NewStatusHistory,
}

/// The change of status that `user` asks for with `payload`. Only those who
/// handle grievances may set a status; any status may follow any other. The
/// change is recorded with the status before and after it, who made it, in
/// which role, and their remarks.
pub open spec fn status_change(
    user: User,
    found: Option<Grievance>,
    payload: UpdateGrievanceStatusRequest,
) -> Result<StatusChange, AppError> {
    if !handles_grievances(user.role) {
        Err(AppError::Forbidden)
    } else {
        match found {
            None => Err(AppError::NotFound),
            Some(g) => Ok(
                StatusChange {
                    grievance_id: g.id,
                    new_status: payload.status,
                    history: NewStatusHistory {
                        grievance_id: g.id,
                        old_status: Some(g.status),
                        new_status: payload.status,
                        remarks: payload.remarks,
                        updated_by: Some(user.id),
                        updated_by_role: Some(user.role),
                    },
                },
            ),
        }
    }
}

/// Decides a change of status.
pub fn update_grievance_status(
    user: &User,
    found: Option<Grievance>,
    payload: UpdateGrievanceStatusRequest,
) -> (r: Result<StatusChange, AppError>)
    ensures
        r == status_change(*user, found, payload),
{
    if !can_handle_grievances(user.role) {
        return Err(AppError::Forbidden);
    }
    match found {
        None => Err(AppError::NotFound),
        Some(g) => Ok(
            StatusChange {
                grievance_id: g.id,
                new_status: payload.status,
                history: NewStatusHistory {
                    grievance_id: g.id,
                    old_status: Some(g.status),
                    new_status: payload.status,
                    remarks: payload.remarks,
                    updated_by: Some(user.id),
                    updated_by_role: Some(user.role),
                },
            },
        ),
    }
}

/// The answer after a change of status, showing the grievance as stored.
pub fn status_updated(updated: Grievance) -> (r: ApiResponse<GrievanceResponse>)
    ensures
        confirms(r, updated, "Status updated successfully"@),
{
    confirmation(updated, "Status updated successfully")
}

/// Who a grievance can be assigned to: authorities, administrators and
/// faculty.
pub open spec fn may_be_assigned(role: UserRole) -> bool {
    role == UserRole::Authority || role == UserRole::Admin || role == UserRole::Faculty
}

/// An assignment: what to store on the grievance, and the audit entry.
#[derive(Clone, Debug, PartialEq, Eq)]
pub struct Assignment {
    pub grievance_id: Uuid,
    pub assigned_to: Option<Uuid>,
    pub assigned_department: Option<String>,
    pub audit: AuditEntry,
}

/// Whether `r` is the outcome of `user` assigning the grievance `found` as
/// `payload` says, `assignee` being the user that `payload.assigned_to`
/// resolves to, if it names one and resolves. Only those who handle
/// grievances assign. An assignee, where one is named, must exist and be an
/// authority, an administrator or faculty; that is settled before the
/// grievance is looked at, which must exist.
pub open spec fn is_assignment(
    r: Result<Assignment, AppError>,
    user: User,
    found: Option<Grievance>,
    payload: AssignGrievanceRequest,
    assignee: Option<User>,
) -> bool {
    if !handles_grievances(user.role) {
        r == Err::<Assignment, AppError>(AppError::Forbidden)
    } else if payload.assigned_to is Some && assignee is None {
        r == Err::<Assignment, AppError>(AppError::NotFound)
    } else if payload.assigned_to is Some && !may_be_assigned(assignee->0.role) {
        r matches Err(e) && e.is_bad_request("Can only assign to Authority, Admin, or Faculty"@)
    } else if found is None {
        r == Err::<Assignment, AppError>(AppError::NotFound)
    } else {
        r == Ok::<Assignment, AppError>(
            Assignment {
                grievance_id: found->0.id,
                assigned_to: payload.assigned_to,
                assigned_department: payload.assigned_department,
                audit: AuditEntry {
                    user_id: user.id,
                    event: AuditEvent::GrievanceAssigned {
                        grievance_id: found->0.id,
                        assigned_to: payload.assigned_to,
                        assigned_department: payload.assigned_department,
                    },
                },
            },
        )
    }
}

/// Decides an assignment. `found` is the grievance as it was read;
/// `assignee` is what looking up `payload.assigned_to` gave, and is not
/// looked at where the request names nobody.
pub fn assign_grievance(
    user: &User,
    found: &Option<Grievance>,
    payload: AssignGrievanceRequest,
    assignee: Option<User>,
) -> (r: Result<Assignment, AppError>)
    ensures
        is_assignment(r, *user, *found, payload, assignee),
{
    if !can_handle_grievances(user.role) {
        return Err(AppError::Forbidden);
    }
    if payload.assigned_to.is_some() {
        match assignee {
            None => {
                return Err(AppError::NotFound);
            },
            Some(a) => {
                if !matches!(a.role, UserRole::Authority | UserRole::Admin | UserRole::Faculty) {
                    return Err(bad_request("Can only assign to Authority, Admin, or Faculty"));
                }
            },
        }
    }
    let grievance_id = match found {
        Some(grievance) => grievance.id,
        None => {
            return Err(AppError::NotFound);
        },
    };
    let department = payload.assigned_department;
    Ok(
        Assignment {
            grievance_id,
            assigned_to: payload.assigned_to,
            assigned_department: department.clone(),
            audit: AuditEntry {
                user_id: user.id,
                event: AuditEvent::GrievanceAssigned {
                    grievance_id,
                    assigned_to: payload.assigned_to,
                    assigned_department: department,
                },
            },
        },
    )
}

/// The answer after an assignment, showing the grievance as stored.
pub fn grievance_assigned(updated: Grievance) -> (r: ApiResponse<GrievanceResponse>)
    ensures
        confirms(r, updated, "Grievance assigned successfully"@),
{
    confirmation(updated, "Grievance assigned successfully")
}

/// A resolution: the grievance becomes resolved, with notes, by the one who
/// resolved it. The time of resolution is the time of storing.
#[derive(Clone, Debug, PartialEq, Eq)]
pub struct Resolution {
    pub grievance_id: Uuid,
    pub status: GrievanceStatus,
    pub resolution_notes: String,
    pub resolved_by: Uuid,
}

/// The resolution that `user` asks for of the grievance `found`. Only those
/// who handle grievances may resolve one, and only one that exists.
/// Resolving writes nothing to the record of status changes.
pub open spec fn resolution(
    user: User,
    found: Option<Grievance>,
    payload: ResolveGrievanceRequest,
) -> Result<Resolution, AppError> {
    if !handles_grievances(user.role) {
        Err(AppError::Forbidden)
    } else {
        match found {
            None => Err(AppError::NotFound),
            Some(grievance) => Ok(
                Resolution {
                    grievance_id: grievance.id,
                    status: GrievanceStatus::Resolved,
                    resolution_notes: payload.resolution_notes,
                    resolved_by: user.id,
                },
            ),
        }
    }
}

/// Decides a resolution. `found` is the grievance as it was read.
pub fn resolve_grievance(
    user: &User,
    found: &Option<Grievance>,
    payload: ResolveGrievanceRequest,
) -> (r: Result<Resolution, AppError>)
    ensures
        r == resolution(*user, *found, payload),
{
    if !can_handle_grievances(user.role) {
        return Err(AppError::Forbidden);
    }
    match found {
        None => Err(AppError::NotFound),
        Some(grievance) => Ok(
            Resolution {
                grievance_id: grievance.id,
                status: GrievanceStatus::Resolved,
                resolution_notes: payload.resolution_notes,
                resolved_by: user.id,
            },
        ),
    }
}

/// The answer after a resolution, showing the grievance as stored.
pub fn grievance_resolved(updated: Grievance) -> (r: ApiResponse<GrievanceResponse>)
    ensures
        confirms(r, updated, "Grievance resolved successfully"@),
{
    confirmation(updated, "Grievance resolved successfully")
}

/// Whether `r` is the outcome of a read of `found` by `user`: the grievance
/// itself where it exists and the user may see it.
pub open spec fn is_access(
    r: Result<Grievance, AppError>,
    user: User,
    found: Option<Grievance>,
) -> bool {
    match found {
        None => r == Err::<Grievance, AppError>(AppError::NotFound),
        Some(g) => if may_view(user, g) {
            r == Ok::<Grievance, AppError>(g)
        } else {
            r == Err::<Grievance, AppError>(AppError::Forbidden)
        },
    }
}

/// Decides whether `user` may read what hangs on a grievance: its record of
/// status changes and its remarks.
pub fn readable_grievance(user: &User, found: Option<Grievance>) -> (r: Result<Grievance, AppError>)
    ensures
        is_access(r, *user, found),
{
    match found {
        None => Err(AppError::NotFound),
        Some(g) => {
            if can_view_grievance(user, &g) {
                Ok(g)
            } else {
                Err(AppError::Forbidden)
            }
        },
    }
}

/// What a toggle does to the upvotes of a grievance.
#[derive(Clone, Copy, Debug, PartialEq, Eq, Structural)]
pub enum UpvoteChange {
    /// The user's upvote is stored and the count goes up by one.
    Added,
    /// The user's upvote is deleted and the count goes down by one.
    Removed,
}

/// What a toggle does: nothing on a grievance that does not exist; otherwise
/// it removes the upvote of a user who has upvoted and adds one for a user
/// who has not.
pub open spec fn upvote_toggle(exists: bool, has_upvoted: bool) -> Result<UpvoteChange, AppError> {
    if !exists {
        Err(AppError::NotFound)
    } else if has_upvoted {
        Ok(UpvoteChange::Removed)
    } else {
        Ok(UpvoteChange::Added)
    }
}

/// Decides a toggle of the user's upvote on a grievance.
pub fn toggle_upvote(found: &Option<Grievance>, has_upvoted: bool) -> (r: Result<
    UpvoteChange,
    AppError,
>)
    ensures
        r == upvote_toggle(found is Some, has_upvoted),
{
    if found.is_none() {
        Err(AppError::NotFound)
    } else if has_upvoted {
        Ok(UpvoteChange::Removed)
    } else {
        Ok(UpvoteChange::Added)
    }
}

/// The answer after a toggle.
pub fn upvote_toggled(change: UpvoteChange) -> (r: ApiResponse<()>)
    ensures
        r.success,
        r.data is None,
        says(
            r.message,
            match change {
                UpvoteChange::Added => "Upvoted successfully"@,
                UpvoteChange::Removed => "Upvote removed"@,
            },
        ),
{
    let message = match change {
        UpvoteChange::Added => "Upvoted successfully",
        UpvoteChange::Removed => "Upvote removed",
    };
    ApiResponse { success: true, data: None, message: Some(String::from_str(message)) }
}

/// The stored upvotes of one grievance: the running count and the users
/// whose upvote is on record.
pub struct UpvoteBook {
    pub count: int,
    pub voters: Set<Uuid>,
}

impl UpvoteBook {
    /// The book once `change` by `user` is stored.
    pub open spec fn after(self, user: Uuid, change: UpvoteChange) -> UpvoteBook {
        match change {
            UpvoteChange::Added => UpvoteBook {
                count: self.count + 1,
                voters: self.voters.insert(user),
            },
            UpvoteChange::Removed => UpvoteBook {
                count: self.count - 1,
                voters: self.voters.remove(user),
            },
        }
    }

    /// The book once `user` has toggled their upvote on a grievance that
    /// exists.
    pub open spec fn toggled(self, user: Uuid) -> UpvoteBook {
        self.after(user, upvote_toggle(true, self.voters.contains(user))->Ok_0)
    }
}

/// Two toggles by the same user leave the count and the record of voters as
/// they were; in particular a user who had not upvoted has no upvote on
/// record afterwards.
pub proof fn toggle_twice_restores(book: UpvoteBook, user: Uuid)
    ensures
        book.toggled(user).toggled(user).count == book.count,
        book.toggled(user).toggled(user).voters == book.voters,
        !book.voters.contains(user) ==> !book.toggled(user).toggled(user).voters.contains(user),
        book.toggled(user).voters.contains(user) != book.voters.contains(user),
{
    assert(book.toggled(user).toggled(user).voters =~= book.voters);
}

/// Shows one entry of the record of status changes, with the user who made
/// the change where the entry names one.
pub fn history_response(entry: GrievanceStatusHistory, updated_by: Option<User>) -> (r:
    GrievanceStatusHistoryResponse)
    ensures
        r == (GrievanceStatusHistoryResponse {
            id: entry.id,
            old_status: entry.old_status,
            new_status: entry.new_status,
            remarks: entry.remarks,
            updated_by: if entry.updated_by is Some {
                public_face(updated_by)
            } else {
                None
            },
            created_at: entry.created_at,
        }),
{
    let updated_by = if entry.updated_by.is_some() {
        to_public_face(updated_by)
    } else {
        None
    };
    GrievanceStatusHistoryResponse {
        id: entry.id,
        old_status: entry.old_status,
        new_status: entry.new_status,
        remarks: entry.remarks,
        updated_by,
        created_at: entry.created_at,
    }
}

/// Decides the reading of a grievance's record of status changes; the
/// caller reads the entries newest first.
pub fn get_grievance_history(user: &User, found: Option<Grievance>) -> (r: Result<
    Grievance,
    AppError,
>)
    ensures
        is_access(r, *user, found),
{
    readable_grievance(user, found)
}

/// A remark about to be stored.
#[derive(Clone, Debug, PartialEq, Eq)]
pub struct NewComment {
    pub grievance_id: Uuid,
    pub user_id: Uuid,
    pub comment: String,
    pub is_internal: bool,
}

/// The remark that `user` adds with `payload`. Whoever may read a grievance
/// may remark on it; a remark is internal only where it is asked to be and
/// its author handles grievances.
pub open spec fn new_comment(
    user: User,
    found: Option<Grievance>,
    payload: CreateCommentRequest,
) -> Result<NewComment, AppError> {
    match found {
        None => Err(AppError::NotFound),
        Some(g) => if may_view(user, g) {
            Ok(
                NewComment {
                    grievance_id: g.id,
                    user_id: user.id,
                    comment: payload.comment,
                    is_internal: payload.is_internal && handles_grievances(user.role),
                },
            )
        } else {
            Err(AppError::Forbidden)
        },
    }
}

/// Decides the adding of a remark.
pub fn add_comment(user: &User, found: Option<Grievance>, payload: CreateCommentRequest) -> (r:
    Result<NewComment, AppError>)
    ensures
        r == new_comment(*user, found, payload),
{
    match found {
        None => Err(AppError::NotFound),
        Some(g) => {
            if !can_view_grievance(user, &g) {
                return Err(AppError::Forbidden);
            }
            let is_internal = payload.is_internal && can_handle_grievances(user.role);
            Ok(
                NewComment {
                    grievance_id: g.id,
                    user_id: user.id,
                    comment: payload.comment,
                    is_internal,
                },
            )
        },
    }
}

/// Shows a remark with its author.
pub fn comment_response(comment: GrievanceComment, author: User) -> (r: GrievanceCommentResponse)
    ensures
        r == (GrievanceCommentResponse {
            id: comment.id,
            user: user_response_of(author),
            comment: comment.comment,
            is_internal: comment.is_internal,
            created_at: comment.created_at,
        }),
{
    GrievanceCommentResponse {
        id: comment.id,
        user: UserResponse::from(author),
        comment: comment.comment,
        is_internal: comment.is_internal,
        created_at: comment.created_at,
    }
}

/// The answer after a remark was stored.
pub fn comment_added(author: User, stored: GrievanceComment) -> (r: ApiResponse<
    GrievanceCommentResponse,
>)
    ensures
        r.success,
        r.data == Some(
            GrievanceCommentResponse {
                id: stored.id,
                user: user_response_of(author),
                comment: stored.comment,
                is_internal: stored.is_internal,
                created_at: stored.created_at,
            },
        ),
        says(r.message, "Comment added successfully"@),
{
    ApiResponse {
        success: true,
        data: Some(comment_response(stored, author)),
        message: Some(String::from_str("Comment added successfully")),
    }
}

/// Which remarks of a grievance a reader is given.
#[derive(Clone, Copy, Debug, PartialEq, Eq, Structural)]
pub struct CommentScope {
    pub grievance_id: Uuid,
    /// Whether internal remarks are among them.
    pub include_internal: bool,
}

/// Which remarks `user` is given: those of a grievance they may read,
/// oldest first, the internal ones only if they handle grievances.
pub open spec fn comment_scope(
    user: User,
    found: Option<Grievance>,
) -> Result<CommentScope, AppError> {
    match found {
        None => Err(AppError::NotFound),
        Some(g) => if may_view(user, g) {
            Ok(CommentScope { grievance_id: g.id, include_internal: handles_grievances(user.role) })
        } else {
            Err(AppError::Forbidden)
        },
    }
}

/// Decides the reading of a grievance's remarks.
pub fn get_comments(user: &User, found: Option<Grievance>) -> (r: Result<CommentScope, AppError>)
    ensures
        r == comment_scope(*user, found),
{
    match found {
        None => Err(AppError::NotFound),
        Some(g) => {
            if can_view_grievance(user, &g) {
                Ok(
                    CommentScope {
                        grievance_id: g.id,
                        include_internal: can_handle_grievances(user.role),
                    },
                )
            } else {
                Err(AppError::Forbidden)
            }
        },
    }
}

/// The query of the remarks in `scope`, oldest first.
pub open spec fn comment_list(scope: CommentScope) -> Seq<Piece> {
    seq![
        Piece::Sql("SELECT * FROM grievance_comments WHERE grievance_id = "@),
        Piece::Bind(SqlArg::Id(scope.grievance_id)),
        Piece::Sql(
            if scope.include_internal {
                " ORDER BY created_at ASC"@
            } else {
                " AND is_internal = false ORDER BY created_at ASC"@
            },
        ),
    ]
}

/// Builds the query of the remarks in `scope`.
pub fn comments_query(scope: CommentScope) -> (q: SqlQuery)
    ensures
        q.spells(comment_list(scope)),
{
    let mut b = QueryBuilder::new("SELECT * FROM grievance_comments WHERE grievance_id = ");
    b.push_bind(SqlValue::Id(scope.grievance_id));
    if scope.include_internal {
        b.push_sql(" ORDER BY created_at ASC");
    } else {
        b.push_sql(" AND is_internal = false ORDER BY created_at ASC");
    }
    assert(b.pieces() =~= comment_list(scope));
    b.finish()
}

/// Whether a reader given `scope` is given `comment`.
pub open spec fn in_scope(scope: CommentScope, comment: GrievanceComment) -> bool {
    comment.grievance_id == scope.grievance_id && (scope.include_internal || !comment.is_internal)
}

/// No reader who does not handle grievances is given an internal remark.
pub proof fn internal_remarks_stay_internal(
    user: User,
    found: Option<Grievance>,
    comment: GrievanceComment,
)
    requires
        comment.is_internal,
        !handles_grievances(user.role),
    ensures
        comment_scope(user, found) matches Ok(scope) ==> !in_scope(scope, comment),
{
}

/// The answer that lists the departments.
pub fn get_departments(departments: Vec<Department>) -> (r: ApiResponse<Vec<Department>>)
    ensures
        r.success,
        r.data == Some(departments),
        r.message is None,
{
    list_response(departments)
}

/// Whether `r` is the outcome of `user` asking to delete `found`: the
/// identifier of the grievance to delete, where it exists and the user may
/// delete it.
pub open spec fn deletion(user: User, found: Option<Grievance>) -> Result<Uuid, AppError> {
    match found {
        None => Err(AppError::NotFound),
        Some(g) => if may_delete(user, g) {
            Ok(g.id)
        } else {
            Err(AppError::Forbidden)
        },
    }
}

/// Decides a deletion.
pub fn delete_grievance(user: &User, found: &Option<Grievance>) -> (r: Result<Uuid, AppError>)
    ensures
        r == deletion(*user, *found),
{
    match found {
        None => Err(AppError::NotFound),
        Some(g) => {
            if can_delete_grievance(user, g) {
                Ok(g.id)
            } else {
                Err(AppError::Forbidden)
            }
        },
    }
}

/// The status code and the answer after a deletion.
pub fn grievance_deleted() -> (r: (u16, ApiResponse<()>))
    ensures
        r.0 == 200,
        r.1.success,
        r.1.data is None,
        says(r.1.message, "Grievance deleted successfully"@),
{
    (
        200,
        ApiResponse {
            success: true,
            data: None,
            message: Some(String::from_str("Grievance deleted successfully")),
        },
    )
}

/// Whether `r` is the outcome of `user` asking to add photos to `found`.
pub open spec fn is_photo_access(
    r: Result<Grievance, AppError>,
    user: User,
    found: Option<Grievance>,
) -> bool {
    match found {
        None => r == Err::<Grievance, AppError>(AppError::NotFound),
        Some(g) => if may_modify(user, g) {
            r == Ok::<Grievance, AppError>(g)
        } else {
            r == Err::<Grievance, AppError>(AppError::Forbidden)
        },
    }
}

/// Decides whether `user` may add photos to a grievance.
pub fn upload_grievance_photos(user: &User, found: Option<Grievance>) -> (r: Result<
    Grievance,
    AppError,
>)
    ensures
        is_photo_access(r, *user, found),
{
    match found {
        None => Err(AppError::NotFound),
        Some(g) => {
            if can_modify_grievance(user, &g) {
                Ok(g)
            } else {
                Err(AppError::Forbidden)
            }
        },
    }
}

/// What can go wrong on the way of a photo to the image host, each with the
/// reason as the collaborator gave it.
#[derive(Clone, Debug, PartialEq, Eq)]
pub enum PhotoFailure {
    /// The account at the image host is not configured.
    Config(String),
    /// The form could not be taken apart.
    Multipart(String),
    /// A part of the form could not be read.
    Read(String),
    /// The image host did not take the photo.
    Upload(String),
}

/// How a failure is reported: what the sender of the form got wrong is a bad
/// request, what the image host or its configuration got wrong is a failure
/// of the server.
pub fn photo_failure(failure: PhotoFailure) -> (e: AppError)
    ensures
        match failure {
            PhotoFailure::Config(reason) => e.is_server_error(
                "Cloudinary config error: "@ + reason@,
            ),
            PhotoFailure::Multipart(reason) => e.is_bad_request("Multipart error: "@ + reason@),
            PhotoFailure::Read(reason) => e.is_bad_request("Failed to read file: "@ + reason@),
            PhotoFailure::Upload(reason) => e.is_server_error(
                "Cloudinary upload failed: "@ + reason@,
            ),
        },
{
    match failure {
        PhotoFailure::Config(reason) => AppError::InternalServerError(
            String::from_str("Cloudinary config error: ").concat(reason.as_str()),
        ),
        PhotoFailure::Multipart(reason) => AppError::BadRequest(
            String::from_str("Multipart error: ").concat(reason.as_str()),
        ),
        PhotoFailure::Read(reason) => AppError::BadRequest(
            String::from_str("Failed to read file: ").concat(reason.as_str()),
        ),
        PhotoFailure::Upload(reason) => AppError::InternalServerError(
            String::from_str("Cloudinary upload failed: ").concat(reason.as_str()),
        ),
    }
}

/// One photo on its way to the image host.
#[derive(Clone, Debug, PartialEq, Eq)]
pub struct PhotoUpload {
    /// The bytes of the photo in Base64.
    pub base64_data: String,
    /// Where the image host is to keep the photo.
    pub public_id: String,
}

/// Where a photo of a grievance is kept: under `grievances`, then the
/// grievance, then a token of the photo's own.
pub open spec fn photo_path(grievance_id: Uuid, token: Uuid) -> Seq<char> {
    "grievances/"@ + uuid_text(grievance_id.0) + "/"@ + uuid_text(token.0)
}

/// Whether a part of the form holds a photo: the parts named `photos` do.
pub fn is_photo_field(field_name: &str) -> (r: bool)
    ensures
        r == (field_name@ == "photos"@),
{
    str_eq(field_name, "photos")
}

/// What to upload for one part of the form, given the token for its path:
/// the parts named `photos` are uploaded, all others are passed over.
pub fn photo_upload_with(grievance_id: Uuid, field_name: &str, data: &[u8], token: Uuid) -> (r:
    Option<PhotoUpload>)
    requires
        base64_fits(data@.len()),
    ensures
        field_name@ != "photos"@ ==> r is None,
        field_name@ == "photos"@ ==> (r matches Some(upload) && upload.base64_data@
            == base64_encoded(data@) && upload.public_id@ == photo_path(grievance_id, token)),
{
    if !is_photo_field(field_name) {
        return None;
    }
    let base64_data = base64_standard_encode(data);
    let mut public_id = String::from_str("grievances/");
    public_id.append(grievance_id.to_text().as_str());
    public_id.append("/");
    public_id.append(token.to_text().as_str());
    Some(PhotoUpload { base64_data, public_id })
}

/// What to upload for one part of the form, drawing a fresh token for its
/// path.
pub fn photo_upload(grievance_id: Uuid, field_name: &str, data: &[u8]) -> (r: Option<PhotoUpload>)
    requires
        base64_fits(data@.len()),
    ensures
        field_name@ != "photos"@ ==> r is None,
        field_name@ == "photos"@ ==> (r matches Some(upload) && upload.base64_data@
            == base64_encoded(data@) && exists|token: Uuid|
            upload.public_id@ == photo_path(grievance_id, token)),
{
    let token = Uuid::new_v4();
    let r = photo_upload_with(grievance_id, field_name, data, token);
    proof {
        if r is Some {
            assert(r->0.public_id@ == photo_path(grievance_id, token));
        }
    }
    r
}

/// What follows a round of uploads: the list of addresses to store on the
/// grievance, and the answer.
#[derive(Clone, Debug, PartialEq, Eq)]
pub struct PhotoUpdate {
    /// The addresses the grievance had, followed by the new ones.
    pub photo_urls: Vec<String>,
    /// The answer, which lists the new addresses.
    pub response: ApiResponse<Vec<String>>,
}

/// Decides what follows a round of uploads. A round without a photo is a
/// bad request; otherwise the new addresses are added behind those the
/// grievance already has.
pub fn photos_uploaded(existing: Option<Vec<String>>, uploaded: Vec<String>) -> (r: Result<
    PhotoUpdate,
    AppError,
>)
    ensures
        uploaded@.len() == 0 ==> (r matches Err(e) && e.is_bad_request(
            "No photos provided for upload"@,
        )),
        uploaded@.len() > 0 ==> (r matches Ok(update) && {
            &&& update.photo_urls@ == (match existing {
                Some(urls) => urls@,
                None => Seq::empty(),
            }) + uploaded@
            &&& update.response.success
            &&& update.response.data matches Some(listed)
            &&& listed@ == uploaded@
            &&& says(update.response.message, "Photos uploaded successfully"@)
        }),
{
    if uploaded.len() == 0 {
        return Err(bad_request("No photos provided for upload"));
    }
    let mut all = match existing {
        Some(urls) => urls,
        None => Vec::new(),
    };
    let ghost before = all@;
    let mut i: usize = 0;
    while i < uploaded.len()
        invariant
            i <= uploaded.len(),
            all@ == before + uploaded@.take(i as int),
        decreases uploaded.len() - i,
    {
        all.push(uploaded[i].clone());
        assert(uploaded@.take(i + 1) == uploaded@.take(i as int).push(uploaded@[i as int]));
        i = i + 1;
    }
    assert(uploaded@.take(uploaded.len() as int) == uploaded@);
    Ok(
        PhotoUpdate {
            photo_urls: all,
            response: ApiResponse {
                success: true,
                data: Some(uploaded),
                message: Some(String::from_str("Photos uploaded successfully")),
            },
        },
    )
}

/// What the operations of this module write to a stored grievance.
pub enum GrievanceWrite {
    /// A read that counts as a view adds one to the view count.
    Viewed,
    /// A change of status sets the status.
    StatusSet(StatusChange),
    /// An assignment sets the assignee and the department.
    Assigned(Assignment),
    /// A resolution sets status, notes and resolver, and the time given.
    Resolved(Resolution, Timestamp),
    /// A toggle moves the count of upvotes by one.
    Upvoted(UpvoteChange),
    /// A round of uploads sets the list of photo addresses.
    PhotosSet(PhotoUpdate),
}

/// The stored grievance once `write` is carried out on it.
pub open spec fn grievance_after(grievance: Grievance, write: GrievanceWrite) -> Grievance {
    match write {
        GrievanceWrite::Viewed => Grievance {
            view_count: (grievance.view_count + 1) as i32,
            ..grievance
        },
        GrievanceWrite::StatusSet(change) => Grievance { status: change.new_status, ..grievance },
        GrievanceWrite::Assigned(assignment) => Grievance {
            assigned_to: assignment.assigned_to,
            assigned_department: assignment.assigned_department,
            ..grievance
        },
        GrievanceWrite::Resolved(resolution, at) => Grievance {
            status: resolution.status,
            resolution_notes: Some(resolution.resolution_notes),
            resolved_at: Some(at),
            resolved_by: Some(resolution.resolved_by),
            ..grievance
        },
        GrievanceWrite::Upvoted(change) => Grievance {
            upvote_count: match change {
                UpvoteChange::Added => (grievance.upvote_count + 1) as i32,
                UpvoteChange::Removed => (grievance.upvote_count - 1) as i32,
            },
            ..grievance
        },
        GrievanceWrite::PhotosSet(update) => Grievance {
            photo_urls: Some(update.photo_urls),
            ..grievance
        },
    }
}

/// Who submitted a grievance, and whether anonymously, is settled when it is
/// created: no later write touches either, nor the label that stands in for
/// an anonymous submitter.
pub proof fn submitter_is_never_rewritten(grievance: Grievance, write: GrievanceWrite)
    ensures
        grievance_after(grievance, write).id == grievance.id,
        grievance_after(grievance, write).submitted_by == grievance.submitted_by,
        grievance_after(grievance, write).is_anonymous == grievance.is_anonymous,
        grievance_after(grievance, write).anonymous_identifier == grievance.anonymous_identifier,
{
}

/// Only a change of status or a resolution moves a grievance to another
/// status, and every resolution that is granted moves it to resolved.
pub proof fn status_moves_only_by_status_writes(
    grievance: Grievance,
    write: GrievanceWrite,
    user: User,
    payload: ResolveGrievanceRequest,
    at: Timestamp,
)
    ensures
        grievance_after(grievance, write).status != grievance.status ==> (write
            is StatusSet || write is Resolved),
        resolution(user, Some(grievance), payload) matches Ok(granted) ==> grievance_after(
            grievance,
            GrievanceWrite::Resolved(granted, at),
        ).status == GrievanceStatus::Resolved,
{
}

} // verus!
