//! Courses, enrollment, attendance and the resources attached to courses.

use vstd::prelude::*;
use vstd::string::*;

use crate::error::{bad_request, AppError};
use crate::primitives::{CalendarDate, Uuid};
use crate::query::{
    arg_of, binds, clause, render, search_clause, shape, shape_of_both_joined, shape_of_clause,
    shape_of_search, text_ignores_values, Piece, QueryBuilder, SqlArg, SqlQuery, SqlValue,
};
use crate::structs::{
    done, public_face, says, to_public_face, AcademicResource, AcademicResourceResponse,
    ApiResponse, AttendanceLog, AttendanceStatus, Course, CourseFilter, CourseResponse, CourseType,
    CreateCourseRequest, CreateResourceRequest, ResourceType, User, UserRole,
};

verus! {

/// Who runs courses: faculty and administrators.
pub open spec fn teaches(role: UserRole) -> bool {
    role == UserRole::Faculty || role == UserRole::Admin
}

/// Decides whether `user` is faculty or an administrator.
pub fn require_faculty_or_admin(user: &User) -> (r: Result<(), AppError>)
    ensures
        r == (if teaches(user.role) {
            Ok::<(), AppError>(())
        } else {
            Err::<(), AppError>(AppError::Forbidden)
        }),
{
    if matches!(user.role, UserRole::Faculty | UserRole::Admin) {
        Ok(())
    } else {
        Err(AppError::Forbidden)
    }
}

/// Decides whether `user` is a student.
pub fn require_student(user: &User) -> (r: Result<(), AppError>)
    ensures
        r == (if user.role == UserRole::Student {
            Ok::<(), AppError>(())
        } else {
            Err::<(), AppError>(AppError::Forbidden)
        }),
{
    if user.role == UserRole::Student {
        Ok(())
    } else {
        Err(AppError::Forbidden)
    }
}

/// A course about to be stored for the first time.
#[derive(Clone, Debug, PartialEq, Eq)]
pub struct NewCourse {
    pub code: String,
    pub title: String,
    pub description: Option<String>,
    pub credits: i32,
    pub department: String,
    pub course_type: CourseType,
    pub semester: String,
    pub instructor_id: Option<Uuid>,
}

/// Whether `r` is the outcome of `user` creating a course with `payload`,
/// `instructor` being the user stored under the address that the payload
/// names. Faculty teach the courses they create. An administrator names the
/// instructor by address, or names nobody; an address that belongs to no
/// user is a bad request.
pub open spec fn is_course_creation(
    r: Result<NewCourse, AppError>,
    user: User,
    payload: CreateCourseRequest,
    instructor: Option<User>,
) -> bool {
    if !teaches(user.role) {
        r == Err::<NewCourse, AppError>(AppError::Forbidden)
    } else if user.role == UserRole::Admin && payload.instructor_email is Some
        && instructor is None {
        r matches Err(e) && e.is_bad_request("Instructor email not found"@)
    } else {
        r == Ok::<NewCourse, AppError>(
            NewCourse {
                code: payload.code,
                title: payload.title,
                description: payload.description,
                credits: payload.credits,
                department: payload.department,
                course_type: payload.course_type,
                semester: payload.semester,
                instructor_id: if user.role == UserRole::Admin {
                    if payload.instructor_email is Some {
                        Some(instructor->0.id)
                    } else {
                        None
                    }
                } else {
                    Some(user.id)
                },
            },
        )
    }
}

/// The address under which the instructor of a course about to be created
/// is to be looked up: the one an administrator names, and none otherwise.
pub fn instructor_lookup<'a>(user: &User, payload: &'a CreateCourseRequest) -> (r: Option<
    &'a String,
>)
    ensures
        r == (if user.role == UserRole::Admin {
            match payload.instructor_email {
                Some(email) => Some(&email),
                None => None,
            }
        } else {
            None
        }),
{
    if user.role == UserRole::Admin {
        payload.instructor_email.as_ref()
    } else {
        None
    }
}

/// Decides the creation of a course. `instructor` is what looking up
/// `payload.instructor_email` gave; it is looked at only where an
/// administrator names an address.
pub fn create_course(user: &User, payload: CreateCourseRequest, instructor: &Option<User>) -> (r:
    Result<NewCourse, AppError>)
    ensures
        is_course_creation(r, *user, payload, *instructor),
{
    if !matches!(user.role, UserRole::Faculty | UserRole::Admin) {
        return Err(AppError::Forbidden);
    }
    let instructor_id = if user.role == UserRole::Admin {
        if payload.instructor_email.is_some() {
            match instructor {
                Some(i) => Some(i.id),
                None => {
                    return Err(bad_request("Instructor email not found"));
                },
            }
        } else {
            None
        }
    } else {
        Some(user.id)
    };
    Ok(
        NewCourse {
            code: payload.code,
            title: payload.title,
            description: payload.description,
            credits: payload.credits,
            department: payload.department,
            course_type: payload.course_type,
            semester: payload.semester,
            instructor_id,
        },
    )
}

/// What a reader is shown of `course`; the instructor only where the course
/// names one.
pub open spec fn course_response_of(course: Course, instructor: Option<User>) -> CourseResponse {
    CourseResponse {
        id: course.id,
        code: course.code,
        title: course.title,
        description: course.description,
        credits: course.credits,
        department: course.department,
        course_type: course.course_type,
        instructor: if course.instructor_id is Some {
            public_face(instructor)
        } else {
            None
        },
        semester: course.semester,
    }
}

/// Shows a course with its instructor.
pub fn course_response(course: Course, instructor: Option<User>) -> (r: CourseResponse)
    ensures
        r == course_response_of(course, instructor),
{
    let instructor = if course.instructor_id.is_some() {
        to_public_face(instructor)
    } else {
        None
    };
    CourseResponse {
        id: course.id,
        code: course.code,
        title: course.title,
        description: course.description,
        credits: course.credits,
        department: course.department,
        course_type: course.course_type,
        instructor,
        semester: course.semester,
    }
}

/// The answer after a course was stored.
pub fn course_created(stored: Course, instructor: Option<User>) -> (r: ApiResponse<CourseResponse>)
    ensures
        r.success,
        r.data == Some(course_response_of(stored, instructor)),
        says(r.message, "Course created successfully"@),
{
    ApiResponse {
        success: true,
        data: Some(course_response(stored, instructor)),
        message: Some(String::from_str("Course created successfully")),
    }
}

/// The query of the course list. Semester and department are matched
/// exactly, a search matches title and code as a substring without regard to
/// case. Ordered by code.
pub open spec fn course_list(filters: CourseFilter) -> Seq<Piece> {
    seq![Piece::Sql("SELECT * FROM courses WHERE 1=1"@)] + clause(
        " AND semester = "@,
        arg_of(
            match filters.semester {
                Some(v) => Some(SqlValue::Text(v)),
                None => None,
            },
        ),
    ) + clause(
        " AND department = "@,
        arg_of(
            match filters.department {
                Some(v) => Some(SqlValue::Text(v)),
                None => None,
            },
        ),
    ) + search_clause(" AND (title ILIKE "@, seq![" OR code ILIKE "@, ")"@], filters.search).push(
        Piece::Sql(" ORDER BY code ASC"@),
    )
}

/// The text of the query of the course list depends on which filters are
/// named only, never on the values they are given.
pub proof fn course_list_text_ignores_values(a: CourseFilter, b: CourseFilter)
    requires
        a.semester is Some == b.semester is Some,
        a.department is Some == b.department is Some,
        a.search is Some == b.search is Some,
    ensures
        render(course_list(a)) == render(course_list(b)),
        binds(course_list(a)).len() == binds(course_list(b)).len(),
{
    let base = seq![Piece::Sql("SELECT * FROM courses WHERE 1=1"@)];
    let text = |v: Option<String>|
        arg_of(
            match v {
                Some(t) => Some(SqlValue::Text(t)),
                None => None,
            },
        );
    let tails = seq![" OR code ILIKE "@, ")"@];
    let order = seq![Piece::Sql(" ORDER BY code ASC"@)];

    let a1 = base + clause(" AND semester = "@, text(a.semester));
    let b1 = base + clause(" AND semester = "@, text(b.semester));
    shape_of_clause(" AND semester = "@, text(a.semester), text(b.semester));
    shape_of_both_joined(
        base,
        clause(" AND semester = "@, text(a.semester)),
        base,
        clause(" AND semester = "@, text(b.semester)),
    );
    let a2 = a1 + clause(" AND department = "@, text(a.department));
    let b2 = b1 + clause(" AND department = "@, text(b.department));
    shape_of_clause(" AND department = "@, text(a.department), text(b.department));
    shape_of_both_joined(
        a1,
        clause(" AND department = "@, text(a.department)),
        b1,
        clause(" AND department = "@, text(b.department)),
    );
    let a3 = a2 + search_clause(" AND (title ILIKE "@, tails, a.search);
    let b3 = b2 + search_clause(" AND (title ILIKE "@, tails, b.search);
    shape_of_search(" AND (title ILIKE "@, tails, a.search, b.search);
    shape_of_both_joined(
        a2,
        search_clause(" AND (title ILIKE "@, tails, a.search),
        b2,
        search_clause(" AND (title ILIKE "@, tails, b.search),
    );
    shape_of_both_joined(a3, order, b3, order);
    assert(course_list(a) =~= a3 + order);
    assert(course_list(b) =~= b3 + order);
    text_ignores_values(course_list(a), course_list(b));
}

/// Builds the query of the course list, which is open to everyone.
pub fn get_courses(filters: CourseFilter) -> (q: SqlQuery)
    ensures
        q.spells(course_list(filters)),
{
    let mut b = QueryBuilder::new("SELECT * FROM courses WHERE 1=1");
    b.push_clause(
        " AND semester = ",
        match filters.semester {
            Some(v) => Some(SqlValue::Text(v)),
            None => None,
        },
    );
    b.push_clause(
        " AND department = ",
        match filters.department {
            Some(v) => Some(SqlValue::Text(v)),
            None => None,
        },
    );
    let tails = vec![" OR code ILIKE ", ")"];
    assert(tails@.map_values(|t: &str| t@) =~= seq![" OR code ILIKE "@, ")"@]);
    b.push_search(" AND (title ILIKE ", &tails, &filters.search);
    let ghost before = b.pieces();
    b.push_sql(" ORDER BY code ASC");
    assert(b.pieces() =~= before + seq![Piece::Sql(" ORDER BY code ASC"@)]);
    assert(course_list(filters) =~= before + seq![Piece::Sql(" ORDER BY code ASC"@)]);
    b.finish()
}

/// An enrollment about to be stored.
#[derive(Clone, Copy, Debug, PartialEq, Eq, Structural)]
pub struct NewEnrollment {
    pub student_id: Uuid,
    pub course_id: Uuid,
}

/// Whether `r` is the outcome of `user` enrolling in the course
/// `course_id`. Only students enroll, only in courses that exist, and only
/// once in each.
pub open spec fn is_enrollment(
    r: Result<NewEnrollment, AppError>,
    user: User,
    course_id: Uuid,
    course_exists: bool,
    already_enrolled: bool,
) -> bool {
    if user.role != UserRole::Student {
        r == Err::<NewEnrollment, AppError>(AppError::Forbidden)
    } else if !course_exists {
        r == Err::<NewEnrollment, AppError>(AppError::NotFound)
    } else if already_enrolled {
        r matches Err(e) && e.is_bad_request("You are already enrolled in this course"@)
    } else {
        r == Ok::<NewEnrollment, AppError>(NewEnrollment { student_id: user.id, course_id })
    }
}

/// Decides an enrollment.
pub fn enroll_course(
    user: &User,
    course_id: Uuid,
    course_exists: bool,
    already_enrolled: bool,
) -> (r: Result<NewEnrollment, AppError>)
    ensures
        is_enrollment(r, *user, course_id, course_exists, already_enrolled),
{
    if user.role != UserRole::Student {
        return Err(AppError::Forbidden);
    }
    if !course_exists {
        return Err(AppError::NotFound);
    }
    if already_enrolled {
        return Err(bad_request("You are already enrolled in this course"));
    }
    Ok(NewEnrollment { student_id: user.id, course_id })
}

/// The stored enrollments, each as the pair of student and course.
pub type Enrollments = vstd::multiset::Multiset<(Uuid, Uuid)>;

/// The stored enrollments once the outcome of an enrollment is carried out.
pub open spec fn enrollments_after(
    stored: Enrollments,
    outcome: Result<NewEnrollment, AppError>,
) -> Enrollments {
    match outcome {
        Ok(new) => stored.insert((new.student_id, new.course_id)),
        Err(_) => stored,
    }
}

/// Of two enrollments in a row by the same student in the same course, each
/// decided on what is stored at its time, the second is refused as a bad
/// request, and the student is enrolled in the course exactly once
/// afterwards, provided they were at most once before.
pub proof fn enrolling_twice_is_refused(
    stored: Enrollments,
    student: User,
    course_id: Uuid,
    first: Result<NewEnrollment, AppError>,
    second: Result<NewEnrollment, AppError>,
)
    requires
        student.role == UserRole::Student,
        stored.count((student.id, course_id)) <= 1,
        is_enrollment(first, student, course_id, true, stored.count((student.id, course_id)) > 0),
        is_enrollment(
            second,
            student,
            course_id,
            true,
            enrollments_after(stored, first).count((student.id, course_id)) > 0,
        ),
    ensures
        second matches Err(AppError::BadRequest(_)),
        enrollments_after(enrollments_after(stored, first), second).count((student.id, course_id))
            == 1,
{
}

/// The answer after an enrollment was stored.
pub fn enrolled() -> (r: ApiResponse<String>)
    ensures
        r.success,
        r.data matches Some(text) && text@ == "Enrolled successfully"@,
        r.message is None,
{
    done("Enrolled successfully")
}

/// Decides the reading of one's own enrollments, which only students have;
/// the caller reads them latest semester first and by code within a
/// semester.
pub fn get_my_enrollments(user: &User) -> (r: Result<Uuid, AppError>)
    ensures
        r == (if user.role == UserRole::Student {
            Ok::<Uuid, AppError>(user.id)
        } else {
            Err::<Uuid, AppError>(AppError::Forbidden)
        }),
{
    if user.role == UserRole::Student {
        Ok(user.id)
    } else {
        Err(AppError::Forbidden)
    }
}

/// What is shown of a course beyond itself.
#[derive(Clone, Copy, Debug, PartialEq, Eq, Structural)]
pub struct CourseDetailStats {
    pub enrolled_count: i64,
}

/// Decides the reading of a course's details.
pub fn get_course_details(course_exists: bool, enrolled_count: i64) -> (r: Result<
    ApiResponse<CourseDetailStats>,
    AppError,
>)
    ensures
        r == (if course_exists {
            Ok::<ApiResponse<CourseDetailStats>, AppError>(
                ApiResponse {
                    success: true,
                    data: Some(CourseDetailStats { enrolled_count }),
                    message: None,
                },
            )
        } else {
            Err::<ApiResponse<CourseDetailStats>, AppError>(AppError::NotFound)
        }),
{
    if course_exists {
        Ok(
            ApiResponse {
                success: true,
                data: Some(CourseDetailStats { enrolled_count }),
                message: None,
            },
        )
    } else {
        Err(AppError::NotFound)
    }
}

/// The request that records attendance of one student in one course on one
/// date.
#[derive(Clone, Debug, PartialEq, Eq)]
pub struct MarkAttendanceRequest {
    pub student_id: Uuid,
    pub course_id: Uuid,
    pub date: CalendarDate,
    pub status: AttendanceStatus,
    pub remarks: Option<String>,
}

/// The request that enrolls the user in a course.
#[derive(Clone, Copy, Debug, PartialEq, Eq, Structural)]
pub struct EnrollRequest {
    pub course_id: Uuid,
}

/// What is recorded for one enrollment on one date.
#[derive(Clone, Debug, PartialEq, Eq)]
pub struct AttendanceMark {
    pub enrollment_id: Uuid,
    pub date: CalendarDate,
    pub status: AttendanceStatus,
    pub remarks: Option<String>,
}

/// How a mark reaches the store.
#[derive(Clone, Debug, PartialEq, Eq)]
pub enum AttendanceWrite {
    /// There is a log for the enrollment and the date: its status and
    /// remarks are overwritten.
    Update(AttendanceMark),
    /// There is none: one is added.
    Insert(AttendanceMark),
}

/// What marking attendance does. Only faculty and administrators mark; the
/// student must be enrolled in the course; a date that has a log keeps that
/// one log, with the new status and remarks.
pub open spec fn attendance_write(
    role: UserRole,
    payload: MarkAttendanceRequest,
    enrollment_id: Option<Uuid>,
    log_exists: bool,
) -> Option<AttendanceWrite> {
    if !teaches(role) || enrollment_id is None {
        None
    } else {
        let mark = AttendanceMark {
            enrollment_id: enrollment_id->0,
            date: payload.date,
            status: payload.status,
            remarks: payload.remarks,
        };
        if log_exists {
            Some(AttendanceWrite::Update(mark))
        } else {
            Some(AttendanceWrite::Insert(mark))
        }
    }
}

/// Decides the marking of attendance. `enrollment_id` is the enrollment of
/// the student in the course, if there is one; `log_exists` says whether
/// that enrollment has a log for the date.
pub fn mark_attendance(
    user: &User,
    payload: MarkAttendanceRequest,
    enrollment_id: Option<Uuid>,
    log_exists: bool,
) -> (r: Result<AttendanceWrite, AppError>)
    ensures
        !teaches(user.role) ==> r == Err::<AttendanceWrite, AppError>(AppError::Forbidden),
        teaches(user.role) && enrollment_id is None ==> (r matches Err(e) && e.is_bad_request(
            "Student is not enrolled in this course"@,
        )),
        teaches(user.role) && enrollment_id is Some ==> r is Ok,
        r matches Ok(w) ==> attendance_write(user.role, payload, enrollment_id, log_exists)
            == Some(w),
{
    if !matches!(user.role, UserRole::Faculty | UserRole::Admin) {
        return Err(AppError::Forbidden);
    }
    let enrollment_id = match enrollment_id {
        Some(id) => id,
        None => {
            return Err(bad_request("Student is not enrolled in this course"));
        },
    };
    let mark = AttendanceMark {
        enrollment_id,
        date: payload.date,
        status: payload.status,
        remarks: payload.remarks,
    };
    if log_exists {
        Ok(AttendanceWrite::Update(mark))
    } else {
        Ok(AttendanceWrite::Insert(mark))
    }
}

/// The answer after attendance was marked.
pub fn attendance_marked() -> (r: ApiResponse<String>)
    ensures
        r.success,
        r.data matches Some(text) && text@ == "Attendance marked successfully"@,
        r.message is None,
{
    done("Attendance marked successfully")
}

/// One stored log of attendance, as far as the rules look at it.
pub struct LogRow {
    pub enrollment_id: Uuid,
    pub date: CalendarDate,
    pub status: AttendanceStatus,
    pub remarks: Option<String>,
}

/// Whether `row` is a log for the enrollment and the date of `mark`.
pub open spec fn is_for(row: LogRow, mark: AttendanceMark) -> bool {
    row.enrollment_id == mark.enrollment_id && row.date == mark.date
}

/// How many of `rows` are logs for the enrollment and the date of `mark`.
pub open spec fn logs_for(rows: Seq<LogRow>, mark: AttendanceMark) -> nat
    decreases rows.len(),
{
    if rows.len() == 0 {
        0
    } else {
        logs_for(rows.drop_last(), mark) + if is_for(rows.last(), mark) {
            1nat
        } else {
            0nat
        }
    }
}

/// The stored logs once `write` is carried out.
pub open spec fn logs_after(rows: Seq<LogRow>, write: AttendanceWrite) -> Seq<LogRow> {
    match write {
        AttendanceWrite::Insert(mark) => rows.push(
            LogRow {
                enrollment_id: mark.enrollment_id,
                date: mark.date,
                status: mark.status,
                remarks: mark.remarks,
            },
        ),
        AttendanceWrite::Update(mark) => rows.map_values(
            |row: LogRow|
                if is_for(row, mark) {
                    LogRow { status: mark.status, remarks: mark.remarks, ..row }
                } else {
                    row
                },
        ),
    }
}

/// The stored logs once a member of the faculty has marked attendance as
/// `payload` says for the enrollment `enrollment_id`, having found out from
/// the store whether the date has a log.
pub open spec fn logs_after_marking(
    rows: Seq<LogRow>,
    payload: MarkAttendanceRequest,
    enrollment_id: Uuid,
) -> Seq<LogRow> {
    let asked = AttendanceMark {
        enrollment_id,
        date: payload.date,
        status: payload.status,
        remarks: payload.remarks,
    };
    logs_after(
        rows,
        attendance_write(
            UserRole::Faculty,
            payload,
            Some(enrollment_id),
            logs_for(rows, asked) > 0,
        )->0,
    )
}

/// Overwriting the logs of one date leaves as many logs for every date as
/// there were.
proof fn lemma_update_keeps_counts(rows: Seq<LogRow>, mark: AttendanceMark, other: AttendanceMark)
    ensures
        logs_for(logs_after(rows, AttendanceWrite::Update(mark)), other) == logs_for(rows, other),
    decreases rows.len(),
{
    let after = logs_after(rows, AttendanceWrite::Update(mark));
    if rows.len() > 0 {
        lemma_update_keeps_counts(rows.drop_last(), mark, other);
        assert(after.drop_last() =~= logs_after(rows.drop_last(), AttendanceWrite::Update(mark)));
    }
}

/// Marking attendance twice for the same enrollment and date leaves exactly
/// one log for them, provided there was at most one before, and that log
/// carries the status and remarks of the second marking.
pub proof fn marking_twice_keeps_one_log(
    rows: Seq<LogRow>,
    enrollment_id: Uuid,
    first: MarkAttendanceRequest,
    second: MarkAttendanceRequest,
)
    requires
        first.date == second.date,
        logs_for(
            rows,
            AttendanceMark {
                enrollment_id,
                date: first.date,
                status: first.status,
                remarks: first.remarks,
            },
        ) <= 1,
    ensures
        ({
            let end = logs_after_marking(
                logs_after_marking(rows, first, enrollment_id),
                second,
                enrollment_id,
            );
            let mark = AttendanceMark {
                enrollment_id,
                date: second.date,
                status: second.status,
                remarks: second.remarks,
            };
            &&& logs_for(end, mark) == 1
            &&& forall|i: int|
                0 <= i < end.len() && is_for(#[trigger] end[i], mark) ==> end[i].status
                    == second.status && end[i].remarks == second.remarks
        }),
{
    let m1 = AttendanceMark {
        enrollment_id,
        date: first.date,
        status: first.status,
        remarks: first.remarks,
    };
    let m2 = AttendanceMark {
        enrollment_id,
        date: second.date,
        status: second.status,
        remarks: second.remarks,
    };
    let mid = logs_after_marking(rows, first, enrollment_id);
    lemma_logs_for_same_key(rows, m1, m2);
    if logs_for(rows, m1) > 0 {
        lemma_update_keeps_counts(rows, m1, m2);
    } else {
        assert(mid.drop_last() =~= rows);
    }
    assert(logs_for(mid, m2) == 1);
    lemma_update_keeps_counts(mid, m2, m2);
}

/// The count of logs depends on the enrollment and the date of a mark only.
proof fn lemma_logs_for_same_key(rows: Seq<LogRow>, a: AttendanceMark, b: AttendanceMark)
    requires
        a.enrollment_id == b.enrollment_id,
        a.date == b.date,
    ensures
        logs_for(rows, a) == logs_for(rows, b),
    decreases rows.len(),
{
    if rows.len() > 0 {
        lemma_logs_for_same_key(rows.drop_last(), a, b);
    }
}

/// How a student has attended a course: the logs, how many there are, and
/// how many of them say present.
#[derive(Clone, Debug, PartialEq, Eq)]
pub struct AttendanceSummary {
    pub course_id: Uuid,
    pub total_classes: i64,
    pub present_count: i64,
    pub logs: Vec<AttendanceLog>,
}

/// How many of `logs` say present.
pub open spec fn present_in(logs: Seq<AttendanceLog>) -> nat
    decreases logs.len(),
{
    if logs.len() == 0 {
        0
    } else {
        present_in(logs.drop_last()) + if logs.last().status == AttendanceStatus::Present {
            1nat
        } else {
            0nat
        }
    }
}

/// Whether `r` sums up the attendance that `logs` record for the course
/// `course_id`.
pub open spec fn sums_up(
    r: ApiResponse<AttendanceSummary>,
    course_id: Uuid,
    logs: Vec<AttendanceLog>,
) -> bool {
    &&& r.success
    &&& r.message is None
    &&& r.data matches Some(summary)
    &&& summary.course_id == course_id
    &&& summary.total_classes == logs@.len()
    &&& summary.present_count == present_in(logs@)
    &&& summary.logs == logs
}

/// Sums up one's own attendance in a course, which only students have.
/// `enrollment_id` is one's enrollment in the course, if there is one, and
/// `logs` its logs. More logs than a 64-bit count can hold are reported as
/// an internal failure.
pub fn get_my_attendance(
    user: &User,
    course_id: Uuid,
    enrollment_id: Option<Uuid>,
    logs: Vec<AttendanceLog>,
) -> (r: Result<ApiResponse<AttendanceSummary>, AppError>)
    ensures
        user.role != UserRole::Student ==> r == Err::<ApiResponse<AttendanceSummary>, AppError>(
            AppError::Forbidden,
        ),
        user.role == UserRole::Student && enrollment_id is None ==> (r matches Err(e)
            && e.is_bad_request("You are not enrolled in this course"@)),
        user.role == UserRole::Student && enrollment_id is Some && logs@.len() > i64::MAX ==> (
        r matches Err(AppError::Internal(detail)) && detail@ == "too many attendance logs"@),
        user.role == UserRole::Student && enrollment_id is Some && logs@.len() <= i64::MAX ==> (
        r matches Ok(answer) && sums_up(answer, course_id, logs)),
{
    if user.role != UserRole::Student {
        return Err(AppError::Forbidden);
    }
    if enrollment_id.is_none() {
        return Err(bad_request("You are not enrolled in this course"));
    }
    if logs.len() as u64 > 9223372036854775807u64 {
        return Err(AppError::Internal(String::from_str("too many attendance logs")));
    }
    let mut present: i64 = 0;
    let mut i: usize = 0;
    while i < logs.len()
        invariant
            i <= logs.len(),
            logs@.len() <= i64::MAX,
            present == present_in(logs@.take(i as int)),
            present <= i,
        decreases logs.len() - i,
    {
        assert(logs@.take(i + 1).drop_last() == logs@.take(i as int));
        if matches!(logs[i].status, AttendanceStatus::Present) {
            present = present + 1;
        }
        i = i + 1;
    }
    assert(logs@.take(logs.len() as int) == logs@);
    let total = logs.len() as i64;
    Ok(
        ApiResponse {
            success: true,
            data: Some(
                AttendanceSummary {
                    course_id,
                    total_classes: total,
                    present_count: present,
                    logs,
                },
            ),
            message: None,
        },
    )
}

/// A resource about to be stored for the first time.
#[derive(Clone, Debug, PartialEq, Eq)]
pub struct NewResource {
    pub course_id: Uuid,
    pub uploaded_by: Uuid,
    pub title: String,
    pub description: Option<String>,
    pub resource_type: ResourceType,
    pub file_url: String,
    pub year: Option<i32>,
    pub tags: Option<Vec<String>>,
    pub is_verified: bool,
}

/// The resource that `user` attaches to the course `course_id`. Only
/// faculty and administrators attach resources, and what they attach counts
/// as verified.
pub open spec fn new_resource(
    user: User,
    course_id: Uuid,
    payload: CreateResourceRequest,
) -> Result<NewResource, AppError> {
    if teaches(user.role) {
        Ok(
            NewResource {
                course_id,
                uploaded_by: user.id,
                title: payload.title,
                description: payload.description,
                resource_type: payload.resource_type,
                file_url: payload.file_url,
                year: payload.year,
                tags: payload.tags,
                is_verified: true,
            },
        )
    } else {
        Err(AppError::Forbidden)
    }
}

/// Decides the attaching of a resource to a course.
pub fn create_resource(user: &User, course_id: Uuid, payload: CreateResourceRequest) -> (r: Result<
    NewResource,
    AppError,
>)
    ensures
        r == new_resource(*user, course_id, payload),
{
    if !matches!(user.role, UserRole::Faculty | UserRole::Admin) {
        return Err(AppError::Forbidden);
    }
    Ok(
        NewResource {
            course_id,
            uploaded_by: user.id,
            title: payload.title,
            description: payload.description,
            resource_type: payload.resource_type,
            file_url: payload.file_url,
            year: payload.year,
            tags: payload.tags,
            is_verified: true,
        },
    )
}

/// The answer after a resource was stored.
pub fn resource_created(stored: AcademicResource) -> (r: ApiResponse<AcademicResource>)
    ensures
        r.success,
        r.data == Some(stored),
        says(r.message, "Resource uploaded successfully"@),
{
    ApiResponse {
        success: true,
        data: Some(stored),
        message: Some(String::from_str("Resource uploaded successfully")),
    }
}

/// The query of the resources of the course `course_id`, newest first,
/// of one kind only where `kind` names one.
pub open spec fn resource_list(course_id: Uuid, kind: Option<String>) -> Seq<Piece> {
    (seq![
        Piece::Sql("SELECT * FROM academic_resources WHERE course_id = "@),
        Piece::Bind(SqlArg::Id(course_id)),
    ] + clause(
        " AND resource_type::text = "@,
        arg_of(
            match kind {
                Some(v) => Some(SqlValue::Text(v)),
                None => None,
            },
        ),
    )).push(Piece::Sql(" ORDER BY created_at DESC"@))
}

/// The text of the query of the resources of a course depends on whether a
/// kind is named only, never on the course or the kind.
pub proof fn resource_list_text_ignores_values(
    a: Uuid,
    kind_a: Option<String>,
    b: Uuid,
    kind_b: Option<String>,
)
    requires
        kind_a is Some == kind_b is Some,
    ensures
        render(resource_list(a, kind_a)) == render(resource_list(b, kind_b)),
        binds(resource_list(a, kind_a)).len() == binds(resource_list(b, kind_b)).len(),
{
    let head = |id: Uuid|
        seq![
            Piece::Sql("SELECT * FROM academic_resources WHERE course_id = "@),
            Piece::Bind(SqlArg::Id(id)),
        ];
    let text = |v: Option<String>|
        arg_of(
            match v {
                Some(t) => Some(SqlValue::Text(t)),
                None => None,
            },
        );
    let order = seq![Piece::Sql(" ORDER BY created_at DESC"@)];
    assert(shape(head(a)) =~= shape(head(b)));
    shape_of_clause(" AND resource_type::text = "@, text(kind_a), text(kind_b));
    shape_of_both_joined(
        head(a),
        clause(" AND resource_type::text = "@, text(kind_a)),
        head(b),
        clause(" AND resource_type::text = "@, text(kind_b)),
    );
    let a1 = head(a) + clause(" AND resource_type::text = "@, text(kind_a));
    let b1 = head(b) + clause(" AND resource_type::text = "@, text(kind_b));
    shape_of_both_joined(a1, order, b1, order);
    assert(resource_list(a, kind_a) =~= a1 + order);
    assert(resource_list(b, kind_b) =~= b1 + order);
    text_ignores_values(resource_list(a, kind_a), resource_list(b, kind_b));
}

/// Builds the query of the resources of a course, which must exist.
pub fn get_course_resources(course_exists: bool, course_id: Uuid, kind: Option<String>) -> (r:
    Result<SqlQuery, AppError>)
    ensures
        !course_exists ==> r == Err::<SqlQuery, AppError>(AppError::NotFound),
        course_exists ==> (r matches Ok(q) && q.spells(resource_list(course_id, kind))),
{
    if !course_exists {
        return Err(AppError::NotFound);
    }
    let mut b = QueryBuilder::new("SELECT * FROM academic_resources WHERE course_id = ");
    b.push_bind(SqlValue::Id(course_id));
    let ghost start = b.pieces();
    assert(start =~= seq![
        Piece::Sql("SELECT * FROM academic_resources WHERE course_id = "@),
        Piece::Bind(SqlArg::Id(course_id)),
    ]);
    b.push_clause(
        " AND resource_type::text = ",
        match kind {
            Some(v) => Some(SqlValue::Text(v)),
            None => None,
        },
    );
    b.push_sql(" ORDER BY created_at DESC");
    Ok(b.finish())
}

/// Shows a resource with the user who attached it, where it names one.
pub fn resource_response(resource: AcademicResource, uploader: Option<User>) -> (r:
    AcademicResourceResponse)
    ensures
        r.id == resource.id,
        r.title == resource.title,
        r.description == resource.description,
        r.resource_type == resource.resource_type,
        r.file_url == resource.file_url,
        r.uploaded_by == (if resource.uploaded_by is Some {
            public_face(uploader)
        } else {
            None
        }),
        r.year == resource.year,
        r.tags@ == (match resource.tags {
            Some(tags) => tags@,
            None => Seq::empty(),
        }),
        r.created_at == resource.created_at,
{
    let uploaded_by = if resource.uploaded_by.is_some() {
        to_public_face(uploader)
    } else {
        None
    };
    let tags = match resource.tags {
        Some(tags) => tags,
        None => Vec::new(),
    };
    AcademicResourceResponse {
        id: resource.id,
        title: resource.title,
        description: resource.description,
        resource_type: resource.resource_type,
        file_url: resource.file_url,
        uploaded_by,
        year: resource.year,
        tags,
        created_at: resource.created_at,
    }
}

} // verus!
