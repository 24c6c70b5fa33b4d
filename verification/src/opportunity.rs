//! Opportunities posted by faculty, the applications of students to them,
//! and the personal task ledger.

use vstd::multiset::Multiset;
use vstd::prelude::*;
use vstd::string::*;

use crate::error::{bad_request, AppError};
use crate::primitives::{Timestamp, Uuid};
use crate::query::{
    arg_of, binds, clause, render, shape_of_both_joined, shape_of_clause, text_ignores_values,
    Piece, QueryBuilder, SqlQuery, SqlValue,
};
use crate::structs::{
    done, public_face, says, to_public_face, user_response_of, ApiResponse, User, UserResponse,
    UserRole,
};

verus! {

/// A stored opportunity.
#[derive(Clone, Debug, PartialEq, Eq)]
pub struct Opportunity {
    pub id: Uuid,
    pub posted_by: Uuid,
    pub title: String,
    pub description: String,
    pub opportunity_type: String,
    pub department: String,
    pub required_skills: Option<Vec<String>>,
    pub duration: Option<String>,
    pub stipend: Option<String>,
    pub location: Option<String>,
    pub application_deadline: Option<Timestamp>,
    pub is_active: bool,
    pub created_at: Timestamp,
}

/// An opportunity as shown to a reader.
#[derive(Clone, Debug, PartialEq, Eq)]
pub struct OpportunityResponse {
    pub id: Uuid,
    pub posted_by: UserResponse,
    pub title: String,
    pub description: String,
    pub opportunity_type: String,
    pub department: String,
    pub required_skills: Vec<String>,
    pub duration: Option<String>,
    pub stipend: Option<String>,
    pub location: Option<String>,
    pub application_deadline: Option<Timestamp>,
    pub is_active: bool,
    pub created_at: Timestamp,
    pub has_applied: bool,
}

/// The request that posts an opportunity.
#[derive(Clone, Debug, PartialEq, Eq)]
pub struct CreateOpportunityRequest {
    pub title: String,
    pub description: String,
    pub opportunity_type: String,
    pub department: String,
    pub required_skills: Option<Vec<String>>,
    pub duration: Option<String>,
    pub stipend: Option<String>,
    pub location: Option<String>,
    pub application_deadline: Option<Timestamp>,
}

/// Where an application to an opportunity stands.
#[derive(Clone, Copy, Debug, PartialEq, Eq, Hash, Structural)]
pub enum ApplicationStatus {
    Pending,
    Accepted,
    Rejected,
}

impl ApplicationStatus {
    /// The name of the status as it is written into answers.
    pub open spec fn label(self) -> Seq<char> {
        match self {
            ApplicationStatus::Pending => "Pending"@,
            ApplicationStatus::Accepted => "Accepted"@,
            ApplicationStatus::Rejected => "Rejected"@,
        }
    }

    /// The name of the status as it is written into answers.
    pub fn as_label(&self) -> (s: &'static str)
        ensures
            s@ == self.label(),
    {
        match self {
            ApplicationStatus::Pending => "Pending",
            ApplicationStatus::Accepted => "Accepted",
            ApplicationStatus::Rejected => "Rejected",
        }
    }
}

/// A stored application.
#[derive(Clone, Debug, PartialEq, Eq)]
pub struct Application {
    pub id: Uuid,
    pub opportunity_id: Uuid,
    pub student_id: Uuid,
    pub resume_url: Option<String>,
    pub cover_letter: Option<String>,
    pub portfolio_url: Option<String>,
    pub status: ApplicationStatus,
    pub faculty_remarks: Option<String>,
    pub applied_at: Timestamp,
}

/// An application as shown to a reader.
#[derive(Clone, Debug, PartialEq, Eq)]
pub struct ApplicationResponse {
    pub id: Uuid,
    pub opportunity: Option<OpportunityResponse>,
    pub student: Option<UserResponse>,
    pub resume_url: Option<String>,
    pub cover_letter: Option<String>,
    pub portfolio_url: Option<String>,
    pub status: ApplicationStatus,
    pub applied_at: Timestamp,
}

/// The request that applies to an opportunity.
#[derive(Clone, Debug, PartialEq, Eq)]
pub struct ApplyRequest {
    pub resume_url: Option<String>,
    pub cover_letter: Option<String>,
    pub portfolio_url: Option<String>,
}

/// The request that settles an application.
#[derive(Clone, Debug, PartialEq, Eq)]
pub struct UpdateApplicationStatusRequest {
    pub status: ApplicationStatus,
    pub faculty_remarks: Option<String>,
}

/// Who posts opportunities and settles applications: faculty and
/// administrators.
pub open spec fn posts_opportunities(role: UserRole) -> bool {
    role == UserRole::Faculty || role == UserRole::Admin
}

/// Decides whether `user` is faculty or an administrator.
pub fn require_faculty(user: &User) -> (r: Result<(), AppError>)
    ensures
        r == (if posts_opportunities(user.role) {
            Ok::<(), AppError>(())
        } else {
            Err::<(), AppError>(AppError::Forbidden)
        }),
{
    if matches!(user.role, UserRole::Faculty | UserRole::Admin) {
        Ok(())
    } else {
        Err(AppError::Forbidden)
    }
}

/// Who manages an opportunity: the one who posted it, and administrators.
pub open spec fn manages(user: User, opportunity: Opportunity) -> bool {
    posts_opportunities(user.role) && (opportunity.posted_by == user.id || user.role
        == UserRole::Admin)
}

/// Decides `manages`.
pub fn can_manage(user: &User, opportunity: &Opportunity) -> (r: bool)
    ensures
        r == manages(*user, *opportunity),
{
    matches!(user.role, UserRole::Faculty | UserRole::Admin) && (opportunity.posted_by == user.id
        || user.role == UserRole::Admin)
}

/// An opportunity about to be stored for the first time.
#[derive(Clone, Debug, PartialEq, Eq)]
pub struct NewOpportunity {
    pub posted_by: Uuid,
    pub title: String,
    pub description: String,
    pub opportunity_type: String,
    pub department: String,
    pub required_skills: Option<Vec<String>>,
    pub duration: Option<String>,
    pub stipend: Option<String>,
    pub location: Option<String>,
    pub application_deadline: Option<Timestamp>,
}

/// The opportunity that `user` posts with `payload`; only faculty and
/// administrators post.
pub open spec fn new_opportunity(user: User, payload: CreateOpportunityRequest) -> Result<
    NewOpportunity,
    AppError,
> {
    if posts_opportunities(user.role) {
        Ok(
            NewOpportunity {
                posted_by: user.id,
                title: payload.title,
                description: payload.description,
                opportunity_type: payload.opportunity_type,
                department: payload.department,
                required_skills: payload.required_skills,
                duration: payload.duration,
                stipend: payload.stipend,
                location: payload.location,
                application_deadline: payload.application_deadline,
            },
        )
    } else {
        Err(AppError::Forbidden)
    }
}

/// Decides the posting of an opportunity.
pub fn create_opportunity(user: &User, payload: CreateOpportunityRequest) -> (r: Result<
    NewOpportunity,
    AppError,
>)
    ensures
        r == new_opportunity(*user, payload),
{
    if !matches!(user.role, UserRole::Faculty | UserRole::Admin) {
        return Err(AppError::Forbidden);
    }
    Ok(
        NewOpportunity {
            posted_by: user.id,
            title: payload.title,
            description: payload.description,
            opportunity_type: payload.opportunity_type,
            department: payload.department,
            required_skills: payload.required_skills,
            duration: payload.duration,
            stipend: payload.stipend,
            location: payload.location,
            application_deadline: payload.application_deadline,
        },
    )
}

/// Whether `r` shows `opportunity` with its poster and the given mark of
/// having applied.
pub open spec fn shows_opportunity(
    r: OpportunityResponse,
    opportunity: Opportunity,
    poster: User,
    has_applied: bool,
) -> bool {
    &&& r.id == opportunity.id
    &&& r.posted_by == user_response_of(poster)
    &&& r.title == opportunity.title
    &&& r.description == opportunity.description
    &&& r.opportunity_type == opportunity.opportunity_type
    &&& r.department == opportunity.department
    &&& r.required_skills@ == (match opportunity.required_skills {
        Some(skills) => skills@,
        None => Seq::empty(),
    })
    &&& r.duration == opportunity.duration
    &&& r.stipend == opportunity.stipend
    &&& r.location == opportunity.location
    &&& r.application_deadline == opportunity.application_deadline
    &&& r.is_active == opportunity.is_active
    &&& r.created_at == opportunity.created_at
    &&& r.has_applied == has_applied
}

/// Shows an opportunity with its poster.
pub fn opportunity_response(opportunity: Opportunity, poster: User, has_applied: bool) -> (r:
    OpportunityResponse)
    ensures
        shows_opportunity(r, opportunity, poster, has_applied),
{
    let required_skills = match opportunity.required_skills {
        Some(skills) => skills,
        None => Vec::new(),
    };
    OpportunityResponse {
        id: opportunity.id,
        posted_by: UserResponse::from(poster),
        title: opportunity.title,
        description: opportunity.description,
        opportunity_type: opportunity.opportunity_type,
        department: opportunity.department,
        required_skills,
        duration: opportunity.duration,
        stipend: opportunity.stipend,
        location: opportunity.location,
        application_deadline: opportunity.application_deadline,
        is_active: opportunity.is_active,
        created_at: opportunity.created_at,
        has_applied,
    }
}

/// The answer after an opportunity was stored; whoever posted it has not
/// applied to it.
pub fn opportunity_created(stored: Opportunity, poster: User) -> (r: ApiResponse<
    OpportunityResponse,
>)
    ensures
        r.success,
        r.data matches Some(shown) && shows_opportunity(shown, stored, poster, false),
        says(r.message, "Opportunity posted successfully"@),
{
    ApiResponse {
        success: true,
        data: Some(opportunity_response(stored, poster, false)),
        message: Some(String::from_str("Opportunity posted successfully")),
    }
}

/// The query of the opportunities that are open, newest first. A department
/// and a kind, where named, are matched exactly.
pub open spec fn opportunity_list(department: Option<String>, kind: Option<String>) -> Seq<Piece> {
    (seq![Piece::Sql("SELECT * FROM opportunities WHERE is_active = true"@)] + clause(
        " AND department = "@,
        arg_of(
            match department {
                Some(v) => Some(SqlValue::Text(v)),
                None => None,
            },
        ),
    ) + clause(
        " AND opportunity_type::text = "@,
        arg_of(
            match kind {
                Some(v) => Some(SqlValue::Text(v)),
                None => None,
            },
        ),
    )).push(Piece::Sql(" ORDER BY created_at DESC"@))
}

/// The text of the query of the open opportunities depends on which
/// filters are named only, never on the values they are given.
pub proof fn opportunity_list_text_ignores_values(
    department_a: Option<String>,
    kind_a: Option<String>,
    department_b: Option<String>,
    kind_b: Option<String>,
)
    requires
        department_a is Some == department_b is Some,
        kind_a is Some == kind_b is Some,
    ensures
        render(opportunity_list(department_a, kind_a)) == render(
            opportunity_list(department_b, kind_b),
        ),
        binds(opportunity_list(department_a, kind_a)).len() == binds(
            opportunity_list(department_b, kind_b),
        ).len(),
{
    let base = seq![Piece::Sql("SELECT * FROM opportunities WHERE is_active = true"@)];
    let text = |v: Option<String>|
        arg_of(
            match v {
                Some(t) => Some(SqlValue::Text(t)),
                None => None,
            },
        );
    let order = seq![Piece::Sql(" ORDER BY created_at DESC"@)];
    shape_of_clause(" AND department = "@, text(department_a), text(department_b));
    shape_of_both_joined(
        base,
        clause(" AND department = "@, text(department_a)),
        base,
        clause(" AND department = "@, text(department_b)),
    );
    let a1 = base + clause(" AND department = "@, text(department_a));
    let b1 = base + clause(" AND department = "@, text(department_b));
    shape_of_clause(" AND opportunity_type::text = "@, text(kind_a), text(kind_b));
    shape_of_both_joined(
        a1,
        clause(" AND opportunity_type::text = "@, text(kind_a)),
        b1,
        clause(" AND opportunity_type::text = "@, text(kind_b)),
    );
    let a2 = a1 + clause(" AND opportunity_type::text = "@, text(kind_a));
    let b2 = b1 + clause(" AND opportunity_type::text = "@, text(kind_b));
    shape_of_both_joined(a2, order, b2, order);
    assert(opportunity_list(department_a, kind_a) =~= a2 + order);
    assert(opportunity_list(department_b, kind_b) =~= b2 + order);
    text_ignores_values(
        opportunity_list(department_a, kind_a),
        opportunity_list(department_b, kind_b),
    );
}

/// Builds the query of the open opportunities, which everyone may browse.
pub fn get_opportunities(department: Option<String>, kind: Option<String>) -> (q: SqlQuery)
    ensures
        q.spells(opportunity_list(department, kind)),
{
    let mut b = QueryBuilder::new("SELECT * FROM opportunities WHERE is_active = true");
    b.push_clause(
        " AND department = ",
        match department {
            Some(v) => Some(SqlValue::Text(v)),
            None => None,
        },
    );
    b.push_clause(
        " AND opportunity_type::text = ",
        match kind {
            Some(v) => Some(SqlValue::Text(v)),
            None => None,
        },
    );
    b.push_sql(" ORDER BY created_at DESC");
    b.finish()
}

/// Shows one opportunity of the list to `viewer`. Nobody who is not signed
/// in is shown as having applied.
pub fn opportunity_listed(
    opportunity: Opportunity,
    poster: User,
    viewer: Option<Uuid>,
    viewer_applied: bool,
) -> (r: OpportunityResponse)
    ensures
        shows_opportunity(r, opportunity, poster, viewer is Some && viewer_applied),
        viewer is None ==> !r.has_applied,
{
    let has_applied = viewer.is_some() && viewer_applied;
    opportunity_response(opportunity, poster, has_applied)
}

/// An application about to be stored.
#[derive(Clone, Debug, PartialEq, Eq)]
pub struct NewApplication {
    pub opportunity_id: Uuid,
    pub student_id: Uuid,
    pub resume_url: Option<String>,
    pub cover_letter: Option<String>,
    pub portfolio_url: Option<String>,
}

/// Whether `r` is the outcome of the user `student_id` applying to the
/// opportunity `opportunity_id`. The opportunity must exist and be open, and
/// nobody applies to the same opportunity twice.
pub open spec fn is_application(
    r: Result<NewApplication, AppError>,
    student_id: Uuid,
    opportunity_id: Uuid,
    open_exists: bool,
    already_applied: bool,
    payload: ApplyRequest,
) -> bool {
    if !open_exists {
        r == Err::<NewApplication, AppError>(AppError::NotFound)
    } else if already_applied {
        r matches Err(e) && e.is_bad_request("You have already applied"@)
    } else {
        r == Ok::<NewApplication, AppError>(
            NewApplication {
                opportunity_id,
                student_id,
                resume_url: payload.resume_url,
                cover_letter: payload.cover_letter,
                portfolio_url: payload.portfolio_url,
            },
        )
    }
}

/// Decides an application.
pub fn apply_opportunity(
    student_id: Uuid,
    opportunity_id: Uuid,
    open_exists: bool,
    already_applied: bool,
    payload: ApplyRequest,
) -> (r: Result<NewApplication, AppError>)
    ensures
        is_application(r, student_id, opportunity_id, open_exists, already_applied, payload),
{
    if !open_exists {
        return Err(AppError::NotFound);
    }
    if already_applied {
        return Err(bad_request("You have already applied"));
    }
    Ok(
        NewApplication {
            opportunity_id,
            student_id,
            resume_url: payload.resume_url,
            cover_letter: payload.cover_letter,
            portfolio_url: payload.portfolio_url,
        },
    )
}

/// The answer after an application was stored.
pub fn applied() -> (r: ApiResponse<String>)
    ensures
        r.success,
        r.data matches Some(text) && text@ == "Application submitted successfully"@,
        r.message is None,
{
    done("Application submitted successfully")
}

/// The stored applications, each as the pair of opportunity and student.
pub type Applications = Multiset<(Uuid, Uuid)>;

/// The stored applications once the outcome of an application is carried
/// out: one more where it succeeded, the same where it was refused.
pub open spec fn applications_after(
    stored: Applications,
    outcome: Result<NewApplication, AppError>,
) -> Applications {
    match outcome {
        Ok(new) => stored.insert((new.opportunity_id, new.student_id)),
        Err(_) => stored,
    }
}

/// Of two applications in a row by the same student to the same open
/// opportunity, each decided on what is stored at its time, the second is
/// refused as a bad request, and exactly one application of that student to
/// that opportunity is stored afterwards, provided there was at most one
/// before.
pub proof fn applying_twice_is_refused(
    stored: Applications,
    student_id: Uuid,
    opportunity_id: Uuid,
    payload: ApplyRequest,
    first: Result<NewApplication, AppError>,
    second: Result<NewApplication, AppError>,
)
    requires
        stored.count((opportunity_id, student_id)) <= 1,
        is_application(
            first,
            student_id,
            opportunity_id,
            true,
            stored.count((opportunity_id, student_id)) > 0,
            payload,
        ),
        is_application(
            second,
            student_id,
            opportunity_id,
            true,
            applications_after(stored, first).count((opportunity_id, student_id)) > 0,
            payload,
        ),
    ensures
        second matches Err(AppError::BadRequest(_)),
        applications_after(applications_after(stored, first), second).count(
            (opportunity_id, student_id),
        ) == 1,
        stored.count((opportunity_id, student_id)) == 0 ==> first is Ok,
{
}

/// Shows an application, with the opportunity and the student as far as
/// they are given.
pub fn application_response(
    application: Application,
    opportunity: Option<OpportunityResponse>,
    student: Option<User>,
) -> (r: ApplicationResponse)
    ensures
        r == (ApplicationResponse {
            id: application.id,
            opportunity,
            student: public_face(student),
            resume_url: application.resume_url,
            cover_letter: application.cover_letter,
            portfolio_url: application.portfolio_url,
            status: application.status,
            applied_at: application.applied_at,
        }),
{
    ApplicationResponse {
        id: application.id,
        opportunity,
        student: to_public_face(student),
        resume_url: application.resume_url,
        cover_letter: application.cover_letter,
        portfolio_url: application.portfolio_url,
        status: application.status,
        applied_at: application.applied_at,
    }
}

/// Shows one of a student's own applications: the opportunity, to which
/// they have applied, with its poster, and the student themselves.
pub fn my_application(
    application: Application,
    opportunity: Opportunity,
    poster: User,
    student: User,
) -> (r: ApplicationResponse)
    ensures
        r.id == application.id,
        r.opportunity matches Some(shown) && shows_opportunity(shown, opportunity, poster, true),
        r.student == Some(user_response_of(student)),
        r.resume_url == application.resume_url,
        r.cover_letter == application.cover_letter,
        r.portfolio_url == application.portfolio_url,
        r.status == application.status,
        r.applied_at == application.applied_at,
{
    let shown = opportunity_response(opportunity, poster, true);
    application_response(application, Some(shown), Some(student))
}

/// One of a student's applications as it is read from the store: the
/// application, the opportunity it belongs to, and who posted that.
pub type OwnApplication = (Application, Opportunity, User);

/// What is shown of one of `student`'s own applications.
pub open spec fn own_application_shown(
    r: ApplicationResponse,
    own: OwnApplication,
    student: User,
) -> bool {
    &&& r.id == own.0.id
    &&& r.opportunity matches Some(shown) && shows_opportunity(shown, own.1, own.2, true)
    &&& r.student == Some(user_response_of(student))
    &&& r.resume_url == own.0.resume_url
    &&& r.cover_letter == own.0.cover_letter
    &&& r.portfolio_url == own.0.portfolio_url
    &&& r.status == own.0.status
    &&& r.applied_at == own.0.applied_at
}

/// The answer that lists a student's own applications, in the order in
/// which they are given; the caller reads them newest first.
pub fn get_my_applications(student: &User, applications: Vec<OwnApplication>) -> (r: ApiResponse<
    Vec<ApplicationResponse>,
>)
    ensures
        r.success,
        r.message is None,
        r.data matches Some(shown) && shown@.len() == applications@.len() && forall|i: int|
            0 <= i < shown@.len() ==> own_application_shown(
                #[trigger] shown@[i],
                applications@[i],
                *student,
            ),
{
    let mut shown: Vec<ApplicationResponse> = Vec::new();
    for own in it: applications
        invariant
            it.seq() == applications@,
            shown@.len() == it.index(),
            forall|i: int|
                0 <= i < shown@.len() ==> own_application_shown(
                    #[trigger] shown@[i],
                    applications@[i],
                    *student,
                ),
    {
        let this = User {
            id: student.id,
            email: student.email.clone(),
            google_id: student.google_id.clone(),
            role: student.role,
            status: student.status,
            first_name: student.first_name.clone(),
            last_name: student.last_name.clone(),
            profile_picture: student.profile_picture.clone(),
            roll_number: student.roll_number.clone(),
            batch_year: student.batch_year,
            program: student.program.clone(),
            department: student.department.clone(),
            employee_id: student.employee_id.clone(),
            designation: student.designation.clone(),
            last_login_at: student.last_login_at,
            created_at: student.created_at,
            updated_at: student.updated_at,
        };
        shown.push(my_application(own.0, own.1, own.2, this));
    }
    ApiResponse { success: true, data: Some(shown), message: None }
}

/// Whether `r` is the outcome of `user` asking for the applications to
/// `found`: the identifier of the opportunity, where the user is faculty or
/// an administrator, the opportunity exists and the user manages it.
pub open spec fn applications_access(
    user: User,
    found: Option<Opportunity>,
) -> Result<Uuid, AppError> {
    if !posts_opportunities(user.role) {
        Err(AppError::Forbidden)
    } else {
        match found {
            None => Err(AppError::NotFound),
            Some(op) => if manages(user, op) {
                Ok(op.id)
            } else {
                Err(AppError::Forbidden)
            },
        }
    }
}

/// Decides the reading of the applications to an opportunity; the caller
/// reads them oldest first.
pub fn get_opportunity_applications(user: &User, found: &Option<Opportunity>) -> (r: Result<
    Uuid,
    AppError,
>)
    ensures
        r == applications_access(*user, *found),
{
    if !matches!(user.role, UserRole::Faculty | UserRole::Admin) {
        return Err(AppError::Forbidden);
    }
    match found {
        None => Err(AppError::NotFound),
        Some(op) => {
            if can_manage(user, op) {
                Ok(op.id)
            } else {
                Err(AppError::Forbidden)
            }
        },
    }
}

/// The settling of an application: what to store on it, and the answer.
#[derive(Clone, Debug, PartialEq, Eq)]
pub struct ApplicationUpdate {
    pub application_id: Uuid,
    pub status: ApplicationStatus,
    pub faculty_remarks: Option<String>,
    pub response: ApiResponse<String>,
}

/// Whether `r` is the outcome of `user` settling an application. `found` is
/// the application with the opportunity it belongs to. Only those who manage
/// the opportunity settle its applications.
pub open spec fn is_application_update(
    r: Result<ApplicationUpdate, AppError>,
    user: User,
    found: Option<(Application, Opportunity)>,
    payload: UpdateApplicationStatusRequest,
) -> bool {
    if !posts_opportunities(user.role) {
        r == Err::<ApplicationUpdate, AppError>(AppError::Forbidden)
    } else {
        match found {
            None => r == Err::<ApplicationUpdate, AppError>(AppError::NotFound),
            Some((application, opportunity)) => if manages(user, opportunity) {
                r matches Ok(update) && {
                    &&& update.application_id == application.id
                    &&& update.status == payload.status
                    &&& update.faculty_remarks == payload.faculty_remarks
                    &&& update.response.success
                    &&& update.response.message is None
                    &&& update.response.data matches Some(text)
                    &&& text@ == "Application marked as "@ + payload.status.label()
                }
            } else {
                r == Err::<ApplicationUpdate, AppError>(AppError::Forbidden)
            },
        }
    }
}

/// Decides the settling of an application.
pub fn update_application_status(
    user: &User,
    found: &Option<(Application, Opportunity)>,
    payload: UpdateApplicationStatusRequest,
) -> (r: Result<ApplicationUpdate, AppError>)
    ensures
        is_application_update(r, *user, *found, payload),
{
    if !matches!(user.role, UserRole::Faculty | UserRole::Admin) {
        return Err(AppError::Forbidden);
    }
    match found {
        None => Err(AppError::NotFound),
        Some(pair) => {
            if !can_manage(user, &pair.1) {
                return Err(AppError::Forbidden);
            }
            let text = String::from_str("Application marked as ").concat(
                payload.status.as_label(),
            );
            Ok(
                ApplicationUpdate {
                    application_id: pair.0.id,
                    status: payload.status,
                    faculty_remarks: payload.faculty_remarks,
                    response: ApiResponse { success: true, data: Some(text), message: None },
                },
            )
        },
    }
}

/// How far a personal task has come.
#[derive(Clone, Copy, Debug, PartialEq, Eq, Hash, Structural)]
pub enum TaskStatus {
    Pending,
    InProgress,
    Completed,
}

/// How much a personal task matters.
#[derive(Clone, Copy, Debug, PartialEq, Eq, Hash, Structural)]
pub enum TaskPriority {
    Low,
    Medium,
    High,
}

/// A stored personal task.
#[derive(Clone, Debug, PartialEq, Eq)]
pub struct PersonalTask {
    pub id: Uuid,
    pub user_id: Uuid,
    pub title: String,
    pub description: Option<String>,
    pub status: TaskStatus,
    pub priority: TaskPriority,
    pub progress_percentage: i32,
    pub due_date: Option<Timestamp>,
    pub tags: Option<Vec<String>>,
    pub created_at: Timestamp,
    pub updated_at: Timestamp,
}

/// The request that creates a personal task.
#[derive(Clone, Debug, PartialEq, Eq)]
pub struct CreateTaskRequest {
    pub title: String,
    pub description: Option<String>,
    pub priority: TaskPriority,
    pub due_date: Option<Timestamp>,
    pub tags: Option<Vec<String>>,
}

/// The request that changes a personal task; what it leaves out stays.
#[derive(Clone, Debug, PartialEq, Eq)]
pub struct UpdateTaskRequest {
    pub title: Option<String>,
    pub description: Option<String>,
    pub status: Option<TaskStatus>,
    pub priority: Option<TaskPriority>,
    pub progress_percentage: Option<i32>,
    pub due_date: Option<Timestamp>,
    pub tags: Option<Vec<String>>,
}

/// A personal task about to be stored for the first time.
#[derive(Clone, Debug, PartialEq, Eq)]
pub struct NewTask {
    pub user_id: Uuid,
    pub title: String,
    pub description: Option<String>,
    pub priority: TaskPriority,
    pub due_date: Option<Timestamp>,
    pub tags: Option<Vec<String>>,
    pub status: TaskStatus,
    pub progress_percentage: i32,
}

/// Decides the creation of a personal task, which starts as pending with no
/// progress and belongs to the one who creates it.
pub fn create_task(user_id: Uuid, payload: CreateTaskRequest) -> (r: NewTask)
    ensures
        r == (NewTask {
            user_id,
            title: payload.title,
            description: payload.description,
            priority: payload.priority,
            due_date: payload.due_date,
            tags: payload.tags,
            status: TaskStatus::Pending,
            progress_percentage: 0,
        }),
{
    NewTask {
        user_id,
        title: payload.title,
        description: payload.description,
        priority: payload.priority,
        due_date: payload.due_date,
        tags: payload.tags,
        status: TaskStatus::Pending,
        progress_percentage: 0,
    }
}

/// The answer that shows one task, with a message.
fn task_answer(task: PersonalTask, message: &str) -> (r: ApiResponse<PersonalTask>)
    ensures
        r.success,
        r.data == Some(task),
        says(r.message, message@),
{
    ApiResponse { success: true, data: Some(task), message: Some(String::from_str(message)) }
}

/// The answer after a task was stored.
pub fn task_created(stored: PersonalTask) -> (r: ApiResponse<PersonalTask>)
    ensures
        r.success,
        r.data == Some(stored),
        says(r.message, "Task created"@),
{
    task_answer(stored, "Task created")
}

/// The answer that lists one's own tasks; the caller reads them by due
/// date, those without one last.
pub fn get_tasks(tasks: Vec<PersonalTask>) -> (r: ApiResponse<Vec<PersonalTask>>)
    ensures
        r.success,
        r.data == Some(tasks),
        r.message is None,
{
    ApiResponse { success: true, data: Some(tasks), message: None }
}

/// `task` once it is changed as `payload` says: every field that the
/// payload names takes the named value, every other stays.
pub open spec fn task_after(task: PersonalTask, payload: UpdateTaskRequest) -> PersonalTask {
    PersonalTask {
        title: match payload.title {
            Some(v) => v,
            None => task.title,
        },
        description: match payload.description {
            Some(v) => Some(v),
            None => task.description,
        },
        status: match payload.status {
            Some(v) => v,
            None => task.status,
        },
        priority: match payload.priority {
            Some(v) => v,
            None => task.priority,
        },
        progress_percentage: match payload.progress_percentage {
            Some(v) => v,
            None => task.progress_percentage,
        },
        due_date: match payload.due_date {
            Some(v) => Some(v),
            None => task.due_date,
        },
        tags: match payload.tags {
            Some(v) => Some(v),
            None => task.tags,
        },
        ..task
    }
}

/// Decides the change of a personal task. `own` is the task, if it exists
/// and belongs to the user. What is returned is the task as it is to be
/// stored; the time of the change is the time of storing.
pub fn update_task(own: Option<PersonalTask>, payload: UpdateTaskRequest) -> (r: Result<
    PersonalTask,
    AppError,
>)
    ensures
        r == (match own {
            Some(task) => Ok::<PersonalTask, AppError>(task_after(task, payload)),
            None => Err::<PersonalTask, AppError>(AppError::NotFound),
        }),
{
    match own {
        None => Err(AppError::NotFound),
        Some(task) => Ok(
            PersonalTask {
                id: task.id,
                user_id: task.user_id,
                title: match payload.title {
                    Some(v) => v,
                    None => task.title,
                },
                description: match payload.description {
                    Some(v) => Some(v),
                    None => task.description,
                },
                status: match payload.status {
                    Some(v) => v,
                    None => task.status,
                },
                priority: match payload.priority {
                    Some(v) => v,
                    None => task.priority,
                },
                progress_percentage: match payload.progress_percentage {
                    Some(v) => v,
                    None => task.progress_percentage,
                },
                due_date: match payload.due_date {
                    Some(v) => Some(v),
                    None => task.due_date,
                },
                tags: match payload.tags {
                    Some(v) => Some(v),
                    None => task.tags,
                },
                created_at: task.created_at,
                updated_at: task.updated_at,
            },
        ),
    }
}

/// The answer after a task was changed.
pub fn task_updated(stored: PersonalTask) -> (r: ApiResponse<PersonalTask>)
    ensures
        r.success,
        r.data == Some(stored),
        says(r.message, "Task updated"@),
{
    task_answer(stored, "Task updated")
}

/// Decides what to answer after deleting one's own task, given how many
/// tasks the deletion removed: none means that there was no such task.
pub fn delete_task(rows_affected: u64) -> (r: Result<ApiResponse<String>, AppError>)
    ensures
        rows_affected == 0 ==> r == Err::<ApiResponse<String>, AppError>(AppError::NotFound),
        rows_affected > 0 ==> (r matches Ok(answer) && answer.success && answer.message is None
            && (answer.data matches Some(text) && text@ == "Task deleted"@)),
{
    if rows_affected == 0 {
        return Err(AppError::NotFound);
    }
    Ok(done("Task deleted"))
}

} // verus!
