use aegis_backend::academic::{
    attendance_marked, course_created, course_response, create_course, create_resource,
    enroll_course, enrolled, get_course_details, get_course_resources, get_courses,
    get_my_attendance, get_my_enrollments, instructor_lookup, mark_attendance,
    require_faculty_or_admin, require_student, resource_created, resource_response, AttendanceMark,
    AttendanceWrite, CourseDetailStats, MarkAttendanceRequest, NewEnrollment,
};
use aegis_backend::error::AppError;
use aegis_backend::primitives::{CalendarDate, Timestamp, Uuid};
use aegis_backend::query::SqlValue;
use aegis_backend::structs::{
    AcademicResource, AttendanceLog, AttendanceStatus, Course, CourseFilter, CourseType,
    CreateCourseRequest, CreateResourceRequest, ResourceType, User, UserRole, UserStatus,
};

fn member(id: u128, role: UserRole) -> User {
    User {
        id: Uuid(id),
        email: format!("m{}@iitmandi.ac.in", id),
        google_id: format!("g-{}", id),
        role,
        status: UserStatus::Active,
        first_name: "M".to_string(),
        last_name: "N".to_string(),
        profile_picture: None,
        roll_number: None,
        batch_year: None,
        program: None,
        department: None,
        employee_id: None,
        designation: None,
        last_login_at: None,
        created_at: Timestamp(1),
        updated_at: Timestamp(2),
    }
}

fn course_request(instructor_email: Option<&str>) -> CreateCourseRequest {
    CreateCourseRequest {
        code: "CS101".to_string(),
        title: "Programming".to_string(),
        description: None,
        credits: 4,
        department: "CSE".to_string(),
        course_type: CourseType::Core,
        semester: "2025-odd".to_string(),
        instructor_email: instructor_email.map(|e| e.to_string()),
    }
}

fn stored_course(instructor: Option<u128>) -> Course {
    Course {
        id: Uuid(50),
        code: "CS101".to_string(),
        title: "Programming".to_string(),
        description: None,
        credits: 4,
        department: "CSE".to_string(),
        course_type: CourseType::Core,
        instructor_id: instructor.map(Uuid),
        semester: "2025-odd".to_string(),
        created_at: Timestamp(1),
        updated_at: Timestamp(1),
    }
}

fn log(status: AttendanceStatus, day: i32) -> AttendanceLog {
    AttendanceLog {
        id: Uuid(day as u128),
        enrollment_id: Uuid(60),
        date: CalendarDate(day),
        status,
        remarks: None,
        created_at: Timestamp(1),
    }
}

fn marking(status: AttendanceStatus, remarks: Option<&str>) -> MarkAttendanceRequest {
    MarkAttendanceRequest {
        student_id: Uuid(7),
        course_id: Uuid(50),
        date: CalendarDate(739000),
        status,
        remarks: remarks.map(|r| r.to_string()),
    }
}

#[test]
fn teaching_and_student_gates() {
    assert_eq!(require_faculty_or_admin(&member(1, UserRole::Faculty)), Ok(()));
    assert_eq!(require_faculty_or_admin(&member(1, UserRole::Admin)), Ok(()));
    assert_eq!(require_faculty_or_admin(&member(1, UserRole::Authority)), Err(AppError::Forbidden));
    assert_eq!(require_faculty_or_admin(&member(1, UserRole::Student)), Err(AppError::Forbidden));
    assert_eq!(require_student(&member(1, UserRole::Student)), Ok(()));
    assert_eq!(require_student(&member(1, UserRole::Faculty)), Err(AppError::Forbidden));
    assert_eq!(require_student(&member(1, UserRole::Admin)), Err(AppError::Forbidden));
}

#[test]
fn faculty_teach_what_they_create() {
    let new = create_course(&member(3, UserRole::Faculty), course_request(Some("x@iitmandi.ac.in")), &None)
        .unwrap();
    assert_eq!(new.instructor_id, Some(Uuid(3)));
    assert_eq!(new.code, "CS101");
    assert_eq!(new.credits, 4);
    assert_eq!(new.course_type, CourseType::Core);
}

#[test]
fn admins_name_the_instructor_by_address() {
    let admin = member(1, UserRole::Admin);
    let new = create_course(&admin, course_request(Some("m3@iitmandi.ac.in")), &Some(member(3, UserRole::Faculty)))
        .unwrap();
    assert_eq!(new.instructor_id, Some(Uuid(3)));
    assert_eq!(
        create_course(&admin, course_request(Some("ghost@iitmandi.ac.in")), &None),
        Err(AppError::BadRequest("Instructor email not found".to_string()))
    );
    assert_eq!(
        instructor_lookup(&admin, &course_request(Some("m3@iitmandi.ac.in"))),
        Some(&"m3@iitmandi.ac.in".to_string())
    );
    assert_eq!(instructor_lookup(&admin, &course_request(None)), None);
    assert_eq!(
        instructor_lookup(&member(3, UserRole::Faculty), &course_request(Some("m3@iitmandi.ac.in"))),
        None
    );
    let new = create_course(&admin, course_request(None), &Some(member(3, UserRole::Faculty))).unwrap();
    assert_eq!(new.instructor_id, None);
    assert_eq!(
        create_course(&member(7, UserRole::Student), course_request(None), &None),
        Err(AppError::Forbidden)
    );
}

#[test]
fn course_is_shown_with_its_instructor() {
    let shown = course_response(stored_course(Some(3)), Some(member(3, UserRole::Faculty)));
    assert_eq!(shown.instructor.unwrap().id, Uuid(3));
    let shown = course_response(stored_course(None), Some(member(3, UserRole::Faculty)));
    assert_eq!(shown.instructor, None);
    let answer = course_created(stored_course(Some(3)), None);
    assert_eq!(answer.message, Some("Course created successfully".to_string()));
    assert_eq!(answer.data.unwrap().instructor, None);
}

#[test]
fn course_list_query() {
    let q = get_courses(CourseFilter { semester: None, department: None, search: None });
    assert_eq!(q.text, "SELECT * FROM courses WHERE 1=1 ORDER BY code ASC");
    assert!(q.params.is_empty());
    let q = get_courses(CourseFilter {
        semester: Some("2025-odd".to_string()),
        department: Some("CSE".to_string()),
        search: Some("prog".to_string()),
    });
    assert_eq!(
        q.text,
        "SELECT * FROM courses WHERE 1=1 AND semester = $1 AND department = $2 \
         AND (title ILIKE $3 OR code ILIKE $4) ORDER BY code ASC"
    );
    assert_eq!(
        q.params,
        vec![
            SqlValue::Text("2025-odd".to_string()),
            SqlValue::Text("CSE".to_string()),
            SqlValue::Text("%prog%".to_string()),
            SqlValue::Text("%prog%".to_string()),
        ]
    );
}

#[test]
fn enrolling_twice_is_refused() {
    let student = member(7, UserRole::Student);
    assert_eq!(
        enroll_course(&student, Uuid(50), true, false),
        Ok(NewEnrollment { student_id: Uuid(7), course_id: Uuid(50) })
    );
    assert_eq!(
        enroll_course(&student, Uuid(50), true, true),
        Err(AppError::BadRequest("You are already enrolled in this course".to_string()))
    );
    assert_eq!(enroll_course(&student, Uuid(50), false, false), Err(AppError::NotFound));
    assert_eq!(
        enroll_course(&member(3, UserRole::Faculty), Uuid(50), true, false),
        Err(AppError::Forbidden)
    );
    assert_eq!(enrolled().data, Some("Enrolled successfully".to_string()));
    assert_eq!(enrolled().message, None);
}

#[test]
fn own_enrollments_are_for_students() {
    assert_eq!(get_my_enrollments(&member(7, UserRole::Student)), Ok(Uuid(7)));
    assert_eq!(get_my_enrollments(&member(1, UserRole::Admin)), Err(AppError::Forbidden));
}

#[test]
fn course_details_count_enrollments() {
    let answer = get_course_details(true, 31).unwrap();
    assert_eq!(answer.data, Some(CourseDetailStats { enrolled_count: 31 }));
    assert_eq!(get_course_details(false, 31), Err(AppError::NotFound));
}

#[test]
fn marking_twice_overwrites_the_log() {
    let teacher = member(3, UserRole::Faculty);
    let mut logs: Vec<AttendanceMark> = Vec::new();
    for request in [
        marking(AttendanceStatus::Absent, Some("late")),
        marking(AttendanceStatus::Present, None),
    ] {
        let exists = logs.iter().any(|l| l.enrollment_id == Uuid(60) && l.date == request.date);
        match mark_attendance(&teacher, request, Some(Uuid(60)), exists).unwrap() {
            AttendanceWrite::Insert(mark) => logs.push(mark),
            AttendanceWrite::Update(mark) => {
                for l in logs.iter_mut() {
                    if l.enrollment_id == mark.enrollment_id && l.date == mark.date {
                        l.status = mark.status;
                        l.remarks = mark.remarks.clone();
                    }
                }
            }
        }
    }
    assert_eq!(
        logs,
        vec![AttendanceMark {
            enrollment_id: Uuid(60),
            date: CalendarDate(739000),
            status: AttendanceStatus::Present,
            remarks: None,
        }]
    );
}

#[test]
fn marking_needs_a_teacher_and_an_enrollment() {
    assert_eq!(
        mark_attendance(&member(7, UserRole::Student), marking(AttendanceStatus::Present, None), Some(Uuid(60)), false),
        Err(AppError::Forbidden)
    );
    assert_eq!(
        mark_attendance(&member(1, UserRole::Admin), marking(AttendanceStatus::Present, None), None, false),
        Err(AppError::BadRequest("Student is not enrolled in this course".to_string()))
    );
    assert!(matches!(
        mark_attendance(&member(1, UserRole::Admin), marking(AttendanceStatus::Cancelled, None), Some(Uuid(60)), true),
        Ok(AttendanceWrite::Update(_))
    ));
    assert_eq!(attendance_marked().data, Some("Attendance marked successfully".to_string()));
}

#[test]
fn attendance_is_summed_up() {
    let logs = vec![
        log(AttendanceStatus::Present, 3),
        log(AttendanceStatus::Absent, 2),
        log(AttendanceStatus::Present, 1),
        log(AttendanceStatus::Cancelled, 0),
    ];
    let student = member(7, UserRole::Student);
    let answer = get_my_attendance(&student, Uuid(50), Some(Uuid(60)), logs.clone()).unwrap();
    let summary = answer.data.unwrap();
    assert_eq!(summary.course_id, Uuid(50));
    assert_eq!(summary.total_classes, 4);
    assert_eq!(summary.present_count, 2);
    assert_eq!(summary.logs, logs);
    let empty = get_my_attendance(&student, Uuid(50), Some(Uuid(60)), vec![]).unwrap().data.unwrap();
    assert_eq!((empty.total_classes, empty.present_count), (0, 0));
    assert_eq!(
        get_my_attendance(&student, Uuid(50), None, vec![]),
        Err(AppError::BadRequest("You are not enrolled in this course".to_string()))
    );
    assert_eq!(
        get_my_attendance(&member(3, UserRole::Faculty), Uuid(50), Some(Uuid(60)), vec![]),
        Err(AppError::Forbidden)
    );
}

#[test]
fn resources_are_attached_by_teachers() {
    let payload = CreateResourceRequest {
        title: "Midterm 2023".to_string(),
        description: None,
        resource_type: ResourceType::Pyq,
        file_url: "https://files/x.pdf".to_string(),
        year: Some(2023),
        tags: Some(vec!["midterm".to_string()]),
    };
    let new = create_resource(&member(3, UserRole::Faculty), Uuid(50), payload.clone()).unwrap();
    assert_eq!(new.course_id, Uuid(50));
    assert_eq!(new.uploaded_by, Uuid(3));
    assert!(new.is_verified);
    assert_eq!(new.resource_type, ResourceType::Pyq);
    assert_eq!(new.tags, Some(vec!["midterm".to_string()]));
    assert_eq!(
        create_resource(&member(7, UserRole::Student), Uuid(50), payload),
        Err(AppError::Forbidden)
    );
}

#[test]
fn resource_list_query() {
    let q = get_course_resources(true, Uuid(50), None).unwrap();
    assert_eq!(
        q.text,
        "SELECT * FROM academic_resources WHERE course_id = $1 ORDER BY created_at DESC"
    );
    assert_eq!(q.params, vec![SqlValue::Id(Uuid(50))]);
    let q = get_course_resources(true, Uuid(50), Some("pyq".to_string())).unwrap();
    assert_eq!(
        q.text,
        "SELECT * FROM academic_resources WHERE course_id = $1 AND resource_type::text = $2 \
         ORDER BY created_at DESC"
    );
    assert_eq!(q.params, vec![SqlValue::Id(Uuid(50)), SqlValue::Text("pyq".to_string())]);
    assert_eq!(get_course_resources(false, Uuid(50), None), Err(AppError::NotFound));
}

#[test]
fn resource_is_shown_with_its_uploader() {
    let stored = AcademicResource {
        id: Uuid(70),
        course_id: Uuid(50),
        uploaded_by: Some(Uuid(3)),
        title: "Notes".to_string(),
        description: None,
        resource_type: ResourceType::Notes,
        file_url: "https://files/n.pdf".to_string(),
        year: None,
        tags: None,
        is_verified: true,
        created_at: Timestamp(9),
        updated_at: Timestamp(9),
    };
    let shown = resource_response(stored.clone(), Some(member(3, UserRole::Faculty)));
    assert_eq!(shown.uploaded_by.unwrap().id, Uuid(3));
    assert!(shown.tags.is_empty());
    assert_eq!(shown.created_at, Timestamp(9));
    let answer = resource_created(stored.clone());
    assert_eq!(answer.message, Some("Resource uploaded successfully".to_string()));
    assert_eq!(answer.data, Some(stored));
}
