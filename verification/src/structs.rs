//! The records of the campus backend: users, grievances, courses,
//! opportunities, tasks and audit entries, with the requests that create or
//! change them and the responses that show them.

use vstd::prelude::*;
use vstd::std_specs::convert::FromSpecImpl;
use vstd::string::*;

use crate::primitives::{CalendarDate, Timestamp, Uuid};

verus! {

/// `serde_json::Value`, carried through as stored; nothing in this crate
/// looks inside one.
#[verifier::external_type_specification]
#[verifier::external_body]
pub struct ExJsonValue(serde_json::Value);

/// The part a user plays on campus.
#[derive(Clone, Copy, Debug, PartialEq, Eq, Hash, Structural)]
pub enum UserRole {
    Student,
    Faculty,
    Authority,
    Admin,
}

impl UserRole {
    /// The lower-case name under which the role is stored and sent.
    pub open spec fn name(self) -> Seq<char> {
        match self {
            UserRole::Student => "student"@,
            UserRole::Faculty => "faculty"@,
            UserRole::Authority => "authority"@,
            UserRole::Admin => "admin"@,
        }
    }

    /// The lower-case name under which the role is stored and sent.
    pub fn as_str(&self) -> (s: &'static str)
        ensures
            s@ == self.name(),
    {
        match self {
            UserRole::Student => "student",
            UserRole::Faculty => "faculty",
            UserRole::Authority => "authority",
            UserRole::Admin => "admin",
        }
    }
}

/// Whether an account may be used.
#[derive(Clone, Copy, Debug, PartialEq, Eq, Hash, Structural)]
pub enum UserStatus {
    Active,
    Inactive,
    Suspended,
}

/// A person known to the system.
#[derive(Clone, Debug, PartialEq, Eq)]
pub struct User {
    pub id: Uuid,
    pub email: String,
    pub google_id: String,
    pub role: UserRole,
    pub status: UserStatus,
    pub first_name: String,
    pub last_name: String,
    pub profile_picture: Option<String>,
    pub roll_number: Option<String>,
    pub batch_year: Option<i32>,
    pub program: Option<String>,
    pub department: Option<String>,
    pub employee_id: Option<String>,
    pub designation: Option<String>,
    pub last_login_at: Option<Timestamp>,
    pub created_at: Timestamp,
    pub updated_at: Timestamp,
}

/// What other users may see of a user.
#[derive(Clone, Debug, PartialEq, Eq)]
pub struct UserResponse {
    pub id: Uuid,
    pub email: String,
    pub role: UserRole,
    pub first_name: String,
    pub last_name: String,
    pub profile_picture: Option<String>,
    pub department: Option<String>,
}

impl From<User> for UserResponse {
    fn from(user: User) -> (r: Self) {
        UserResponse {
            id: user.id,
            email: user.email,
            role: user.role,
            first_name: user.first_name,
            last_name: user.last_name,
            profile_picture: user.profile_picture,
            department: user.department,
        }
    }
}

/// What others may see of `user`: identity, role, name, picture and
/// department.
pub open spec fn user_response_of(user: User) -> UserResponse {
    UserResponse {
        id: user.id,
        email: user.email,
        role: user.role,
        first_name: user.first_name,
        last_name: user.last_name,
        profile_picture: user.profile_picture,
        department: user.department,
    }
}

impl FromSpecImpl<User> for UserResponse {
    open spec fn obeys_from_spec() -> bool {
        true
    }

    open spec fn from_spec(user: User) -> Self {
        user_response_of(user)
    }
}

/// The public face of an optional user.
pub open spec fn public_face(user: Option<User>) -> Option<UserResponse> {
    match user {
        Some(u) => Some(user_response_of(u)),
        None => None,
    }
}

/// Turns an optional user into what others may see of them.
pub fn to_public_face(user: Option<User>) -> (r: Option<UserResponse>)
    ensures
        r == public_face(user),
{
    match user {
        Some(u) => Some(UserResponse::from(u)),
        None => None,
    }
}

/// The envelope around every answer.
#[derive(Clone, Debug, PartialEq, Eq)]
pub struct ApiResponse<T> {
    pub success: bool,
    pub data: Option<T>,
    pub message: Option<String>,
}

/// Whether `message` holds exactly the text `expected`.
pub open spec fn says(message: Option<String>, expected: Seq<char>) -> bool {
    message matches Some(m) && m@ == expected
}

/// The answer that carries a list and no message.
pub fn list_response<T>(items: Vec<T>) -> (r: ApiResponse<Vec<T>>)
    ensures
        r.success,
        r.data == Some(items),
        r.message is None,
{
    ApiResponse { success: true, data: Some(items), message: None }
}

/// The answer that carries a word of success as its data and no message.
pub fn done(word: &str) -> (r: ApiResponse<String>)
    ensures
        r.success,
        r.data matches Some(text) && text@ == word@,
        r.message is None,
{
    ApiResponse { success: true, data: Some(String::from_str(word)), message: None }
}

/// The profile claims the identity provider returns.
#[derive(Clone, Debug, PartialEq, Eq)]
pub struct GoogleUserInfo {
    pub sub: String,
    pub email: String,
    pub given_name: String,
    pub family_name: Option<String>,
    pub picture: Option<String>,
}

/// What a grievance is about.
#[derive(Clone, Copy, Debug, PartialEq, Eq, Hash, Structural)]
pub enum GrievanceCategory {
    Infrastructure,
    Academics,
    Hostel,
    Food,
    Other,
}

/// How urgent a grievance is.
#[derive(Clone, Copy, Debug, PartialEq, Eq, Hash, Structural)]
pub enum GrievancePriority {
    Low,
    Medium,
    High,
    Urgent,
}

/// Where a grievance stands in its life cycle.
#[derive(Clone, Copy, Debug, PartialEq, Eq, Hash, Structural)]
pub enum GrievanceStatus {
    Submitted,
    UnderReview,
    InProgress,
    Resolved,
    Closed,
}

/// A stored grievance.
#[derive(Clone, Debug, PartialEq, Eq)]
pub struct Grievance {
    pub id: Uuid,
    pub submitted_by: Option<Uuid>,
    pub is_anonymous: bool,
    pub anonymous_identifier: Option<String>,
    pub title: String,
    pub description: String,
    pub category: GrievanceCategory,
    pub priority: GrievancePriority,
    pub status: GrievanceStatus,
    pub location_type: Option<String>,
    pub location_details: Option<String>,
    pub photo_urls: Option<Vec<String>>,
    pub assigned_to: Option<Uuid>,
    pub assigned_department: Option<String>,
    pub resolution_notes: Option<String>,
    pub resolved_at: Option<Timestamp>,
    pub resolved_by: Option<Uuid>,
    pub view_count: i32,
    pub upvote_count: i32,
    pub created_at: Timestamp,
    pub updated_at: Timestamp,
}

/// A grievance as shown to a reader.
#[derive(Clone, Debug, PartialEq, Eq)]
pub struct GrievanceResponse {
    pub id: Uuid,
    pub submitter: Option<UserResponse>,
    pub is_anonymous: bool,
    pub title: String,
    pub description: String,
    pub category: GrievanceCategory,
    pub priority: GrievancePriority,
    pub status: GrievanceStatus,
    pub location_type: Option<String>,
    pub location_details: Option<String>,
    pub photo_urls: Vec<String>,
    pub assigned_to: Option<UserResponse>,
    pub assigned_department: Option<String>,
    pub resolution_notes: Option<String>,
    pub resolved_at: Option<Timestamp>,
    pub view_count: i32,
    pub upvote_count: i32,
    pub user_has_upvoted: bool,
    pub created_at: Timestamp,
    pub updated_at: Timestamp,
}

/// The request that submits a grievance.
#[derive(Clone, Debug, PartialEq, Eq)]
pub struct CreateGrievanceRequest {
    pub title: String,
    pub description: String,
    pub category: GrievanceCategory,
    pub priority: GrievancePriority,
    pub location_type: Option<String>,
    pub location_details: Option<String>,
    pub is_anonymous: bool,
}

/// The request that edits a grievance.
#[derive(Clone, Debug, PartialEq, Eq)]
pub struct UpdateGrievanceRequest {
    pub title: Option<String>,
    pub description: Option<String>,
    pub category: Option<GrievanceCategory>,
    pub priority: Option<GrievancePriority>,
    pub location_type: Option<String>,
    pub location_details: Option<String>,
}

/// The request that moves a grievance to another status.
#[derive(Clone, Debug, PartialEq, Eq)]
pub struct UpdateGrievanceStatusRequest {
    pub status: GrievanceStatus,
    pub remarks: Option<String>,
}

/// The request that hands a grievance to a user or a department.
#[derive(Clone, Debug, PartialEq, Eq)]
pub struct AssignGrievanceRequest {
    pub assigned_to: Option<Uuid>,
    pub assigned_department: Option<String>,
}

/// The request that resolves a grievance.
#[derive(Clone, Debug, PartialEq, Eq)]
pub struct ResolveGrievanceRequest {
    pub resolution_notes: String,
}

/// One entry of the append-only record of status changes.
#[derive(Clone, Debug, PartialEq, Eq)]
pub struct GrievanceStatusHistory {
    pub id: Uuid,
    pub grievance_id: Uuid,
    pub old_status: Option<GrievanceStatus>,
    pub new_status: GrievanceStatus,
    pub remarks: Option<String>,
    pub updated_by: Option<Uuid>,
    pub updated_by_role: Option<UserRole>,
    pub created_at: Timestamp,
}

/// A status change as shown to a reader.
#[derive(Clone, Debug, PartialEq, Eq)]
pub struct GrievanceStatusHistoryResponse {
    pub id: Uuid,
    pub old_status: Option<GrievanceStatus>,
    pub new_status: GrievanceStatus,
    pub remarks: Option<String>,
    pub updated_by: Option<UserResponse>,
    pub created_at: Timestamp,
}

/// A stored remark on a grievance.
#[derive(Clone, Debug, PartialEq, Eq)]
pub struct GrievanceComment {
    pub id: Uuid,
    pub grievance_id: Uuid,
    pub user_id: Uuid,
    pub comment: String,
    pub is_internal: bool,
    pub created_at: Timestamp,
    pub updated_at: Timestamp,
}

/// A remark as shown to a reader.
#[derive(Clone, Debug, PartialEq, Eq)]
pub struct GrievanceCommentResponse {
    pub id: Uuid,
    pub user: UserResponse,
    pub comment: String,
    pub is_internal: bool,
    pub created_at: Timestamp,
}

/// The request that adds a remark.
#[derive(Clone, Debug, PartialEq, Eq)]
pub struct CreateCommentRequest {
    pub comment: String,
    pub is_internal: bool,
}

/// A department grievances can be handed to.
#[derive(Clone, Debug, PartialEq, Eq)]
pub struct Department {
    pub id: Uuid,
    pub name: String,
    pub description: Option<String>,
    pub head_user_id: Option<Uuid>,
    pub created_at: Timestamp,
    pub updated_at: Timestamp,
}

/// The optional filters of the grievance feed.
#[derive(Clone, Debug, PartialEq, Eq)]
pub struct GrievanceFilters {
    pub status: Option<GrievanceStatus>,
    pub category: Option<GrievanceCategory>,
    pub priority: Option<GrievancePriority>,
    pub assigned_to: Option<Uuid>,
    pub assigned_department: Option<String>,
    pub submitted_by: Option<Uuid>,
    pub search: Option<String>,
    pub page: Option<i64>,
    pub limit: Option<i64>,
}

/// The request by which an administrator sets a role.
#[derive(Clone, Debug, PartialEq, Eq)]
pub struct UpdateUserRoleRequest {
    pub role: UserRole,
}

/// The request by which an administrator sets an account status.
#[derive(Clone, Debug, PartialEq, Eq)]
pub struct UpdateUserStatusRequest {
    pub status: UserStatus,
}

/// A user as shown to an administrator.
#[derive(Clone, Debug, PartialEq, Eq)]
pub struct UserListResponse {
    pub id: Uuid,
    pub email: String,
    pub role: UserRole,
    pub status: UserStatus,
    pub first_name: String,
    pub last_name: String,
    pub profile_picture: Option<String>,
    pub department: Option<String>,
    pub last_login_at: Option<Timestamp>,
    pub created_at: Timestamp,
}

impl From<User> for UserListResponse {
    fn from(user: User) -> (r: Self) {
        UserListResponse {
            id: user.id,
            email: user.email,
            role: user.role,
            status: user.status,
            first_name: user.first_name,
            last_name: user.last_name,
            profile_picture: user.profile_picture,
            department: user.department,
            last_login_at: user.last_login_at,
            created_at: user.created_at,
        }
    }
}

/// What an administrator sees of `user`.
pub open spec fn user_list_response_of(user: User) -> UserListResponse {
    UserListResponse {
        id: user.id,
        email: user.email,
        role: user.role,
        status: user.status,
        first_name: user.first_name,
        last_name: user.last_name,
        profile_picture: user.profile_picture,
        department: user.department,
        last_login_at: user.last_login_at,
        created_at: user.created_at,
    }
}

impl FromSpecImpl<User> for UserListResponse {
    open spec fn obeys_from_spec() -> bool {
        true
    }

    open spec fn from_spec(user: User) -> Self {
        user_list_response_of(user)
    }
}

/// A stored entry of the audit trail.
#[derive(Clone, Debug, PartialEq, Eq)]
pub struct AuditLog {
    pub id: Uuid,
    pub user_id: Option<Uuid>,
    pub action: String,
    pub metadata: Option<serde_json::Value>,
    pub created_at: Timestamp,
}

/// An audit entry as shown to an administrator.
#[derive(Clone, Debug, PartialEq, Eq)]
pub struct AuditLogResponse {
    pub id: Uuid,
    pub user: Option<UserResponse>,
    pub action: String,
    pub metadata: Option<serde_json::Value>,
    pub created_at: Timestamp,
}

/// The optional filters of the user list.
#[derive(Clone, Debug, PartialEq, Eq)]
pub struct UserFilters {
    pub role: Option<UserRole>,
    pub status: Option<UserStatus>,
    pub search: Option<String>,
    pub page: Option<i64>,
    pub limit: Option<i64>,
}

/// The kind of a course within a programme.
#[derive(Clone, Copy, Debug, PartialEq, Eq, Hash, Structural)]
pub enum CourseType {
    Core,
    Elective,
    Major,
    Minor,
}

/// The kind of an academic resource.
#[derive(Clone, Copy, Debug, PartialEq, Eq, Hash, Structural)]
pub enum ResourceType {
    Pyq,
    Notes,
    Lecture,
    Assignment,
}

/// The kind of an academic event.
#[derive(Clone, Copy, Debug, PartialEq, Eq, Hash, Structural)]
pub enum EventType {
    Exam,
    Deadline,
    Holiday,
    Class,
}

/// What was recorded for one class meeting.
#[derive(Clone, Copy, Debug, PartialEq, Eq, Hash, Structural)]
pub enum AttendanceStatus {
    Present,
    Absent,
    Cancelled,
}

/// A stored course.
#[derive(Clone, Debug, PartialEq, Eq)]
pub struct Course {
    pub id: Uuid,
    pub code: String,
    pub title: String,
    pub description: Option<String>,
    pub credits: i32,
    pub department: String,
    pub course_type: CourseType,
    pub instructor_id: Option<Uuid>,
    pub semester: String,
    pub created_at: Timestamp,
    pub updated_at: Timestamp,
}

/// The link between a student and a course.
#[derive(Clone, Debug, PartialEq, Eq)]
pub struct CourseEnrollment {
    pub id: Uuid,
    pub student_id: Uuid,
    pub course_id: Uuid,
    pub enrolled_at: Timestamp,
}

/// What was recorded for one enrollment on one date.
#[derive(Clone, Debug, PartialEq, Eq)]
pub struct AttendanceLog {
    pub id: Uuid,
    pub enrollment_id: Uuid,
    pub date: CalendarDate,
    pub status: AttendanceStatus,
    pub remarks: Option<String>,
    pub created_at: Timestamp,
}

/// A stored file attached to a course.
#[derive(Clone, Debug, PartialEq, Eq)]
pub struct AcademicResource {
    pub id: Uuid,
    pub course_id: Uuid,
    pub uploaded_by: Option<Uuid>,
    pub title: String,
    pub description: Option<String>,
    pub resource_type: ResourceType,
    pub file_url: String,
    pub year: Option<i32>,
    pub tags: Option<Vec<String>>,
    pub is_verified: bool,
    pub created_at: Timestamp,
    pub updated_at: Timestamp,
}

/// A stored calendar event, for one course or for everyone.
#[derive(Clone, Debug, PartialEq, Eq)]
pub struct AcademicEvent {
    pub id: Uuid,
    pub course_id: Option<Uuid>,
    pub created_by: Option<Uuid>,
    pub title: String,
    pub description: Option<String>,
    pub event_type: EventType,
    pub start_time: Timestamp,
    pub end_time: Option<Timestamp>,
    pub created_at: Timestamp,
    pub updated_at: Timestamp,
}

/// A course as shown to a reader.
#[derive(Clone, Debug, PartialEq, Eq)]
pub struct CourseResponse {
    pub id: Uuid,
    pub code: String,
    pub title: String,
    pub description: Option<String>,
    pub credits: i32,
    pub department: String,
    pub course_type: CourseType,
    pub instructor: Option<UserResponse>,
    pub semester: String,
}

/// An academic resource as shown to a reader.
#[derive(Clone, Debug, PartialEq, Eq)]
pub struct AcademicResourceResponse {
    pub id: Uuid,
    pub title: String,
    pub description: Option<String>,
    pub resource_type: ResourceType,
    pub file_url: String,
    pub uploaded_by: Option<UserResponse>,
    pub year: Option<i32>,
    pub tags: Vec<String>,
    pub created_at: Timestamp,
}

/// A calendar event as shown to a reader.
#[derive(Clone, Debug, PartialEq, Eq)]
pub struct AcademicEventResponse {
    pub id: Uuid,
    pub title: String,
    pub description: Option<String>,
    pub event_type: EventType,
    pub start_time: Timestamp,
    pub end_time: Option<Timestamp>,
    pub course_code: Option<String>,
    pub course_title: Option<String>,
}

/// The request that creates a course.
#[derive(Clone, Debug, PartialEq, Eq)]
pub struct CreateCourseRequest {
    pub code: String,
    pub title: String,
    pub description: Option<String>,
    pub credits: i32,
    pub department: String,
    pub course_type: CourseType,
    pub semester: String,
    pub instructor_email: Option<String>,
}

/// The request that attaches a resource to a course.
#[derive(Clone, Debug, PartialEq, Eq)]
pub struct CreateResourceRequest {
    pub title: String,
    pub description: Option<String>,
    pub resource_type: ResourceType,
    pub file_url: String,
    pub year: Option<i32>,
    pub tags: Option<Vec<String>>,
}

/// The request that creates a calendar event.
#[derive(Clone, Debug, PartialEq, Eq)]
pub struct CreateEventRequest {
    pub title: String,
    pub description: Option<String>,
    pub event_type: EventType,
    pub start_time: Timestamp,
    pub end_time: Option<Timestamp>,
    pub course_id: Option<Uuid>,
}

/// The request that records attendance for one date.
#[derive(Clone, Debug, PartialEq, Eq)]
pub struct LogAttendanceRequest {
    pub date: CalendarDate,
    pub status: AttendanceStatus,
    pub remarks: Option<String>,
}

/// The optional filters of the course list.
#[derive(Clone, Debug, PartialEq, Eq)]
pub struct CourseFilter {
    pub semester: Option<String>,
    pub department: Option<String>,
    pub search: Option<String>,
}

} // verus!
