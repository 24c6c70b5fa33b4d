use aegis_backend::error::AppError;
use aegis_backend::opportunity::{
    application_response, applied, apply_opportunity, can_manage, create_opportunity, create_task,
    delete_task, get_my_applications, get_opportunities, get_opportunity_applications, get_tasks,
    my_application, opportunity_created, opportunity_listed, require_faculty, task_created,
    task_updated, update_application_status, update_task, Application, ApplicationStatus,
    ApplyRequest, CreateOpportunityRequest, CreateTaskRequest, Opportunity, PersonalTask,
    TaskPriority, TaskStatus, UpdateApplicationStatusRequest, UpdateTaskRequest,
};
use aegis_backend::primitives::{Timestamp, Uuid};
use aegis_backend::query::SqlValue;
use aegis_backend::structs::{User, UserRole, UserStatus};

fn actor(id: u128, role: UserRole) -> User {
    User {
        id: Uuid(id),
        email: format!("a{}@iitmandi.ac.in", id),
        google_id: format!("g-{}", id),
        role,
        status: UserStatus::Active,
        first_name: "A".to_string(),
        last_name: "B".to_string(),
        profile_picture: None,
        roll_number: None,
        batch_year: None,
        program: None,
        department: None,
        employee_id: None,
        designation: None,
        last_login_at: None,
        created_at: Timestamp(1),
        updated_at: Timestamp(2),
    }
}

fn posting(posted_by: u128, department: &str) -> Opportunity {
    Opportunity {
        id: Uuid(80),
        posted_by: Uuid(posted_by),
        title: "Research intern".to_string(),
        description: "Compilers".to_string(),
        opportunity_type: "internship".to_string(),
        department: department.to_string(),
        required_skills: None,
        duration: Some("8 weeks".to_string()),
        stipend: None,
        location: None,
        application_deadline: Some(Timestamp(99)),
        is_active: true,
        created_at: Timestamp(5),
    }
}

fn application(id: u128) -> Application {
    Application {
        id: Uuid(id),
        opportunity_id: Uuid(80),
        student_id: Uuid(7),
        resume_url: Some("https://cv".to_string()),
        cover_letter: None,
        portfolio_url: None,
        status: ApplicationStatus::Pending,
        faculty_remarks: None,
        applied_at: Timestamp(6),
    }
}

fn cv() -> ApplyRequest {
    ApplyRequest { resume_url: Some("https://cv".to_string()), cover_letter: None, portfolio_url: None }
}

fn task() -> PersonalTask {
    PersonalTask {
        id: Uuid(90),
        user_id: Uuid(7),
        title: "Read".to_string(),
        description: Some("chapter 3".to_string()),
        status: TaskStatus::Pending,
        priority: TaskPriority::Low,
        progress_percentage: 10,
        due_date: None,
        tags: Some(vec!["os".to_string()]),
        created_at: Timestamp(1),
        updated_at: Timestamp(1),
    }
}

#[test]
fn faculty_gate() {
    assert_eq!(require_faculty(&actor(1, UserRole::Faculty)), Ok(()));
    assert_eq!(require_faculty(&actor(1, UserRole::Admin)), Ok(()));
    assert_eq!(require_faculty(&actor(1, UserRole::Student)), Err(AppError::Forbidden));
    assert_eq!(require_faculty(&actor(1, UserRole::Authority)), Err(AppError::Forbidden));
}

#[test]
fn opportunities_are_posted_by_faculty() {
    let payload = CreateOpportunityRequest {
        title: "Research intern".to_string(),
        description: "Compilers".to_string(),
        opportunity_type: "internship".to_string(),
        department: "CSE".to_string(),
        required_skills: Some(vec!["rust".to_string()]),
        duration: None,
        stipend: Some("10000".to_string()),
        location: None,
        application_deadline: None,
    };
    let new = create_opportunity(&actor(3, UserRole::Faculty), payload.clone()).unwrap();
    assert_eq!(new.posted_by, Uuid(3));
    assert_eq!(new.department, "CSE");
    assert_eq!(new.required_skills, Some(vec!["rust".to_string()]));
    assert_eq!(create_opportunity(&actor(7, UserRole::Student), payload), Err(AppError::Forbidden));
    let answer = opportunity_created(posting(3, "CSE"), actor(3, UserRole::Faculty));
    assert_eq!(answer.message, Some("Opportunity posted successfully".to_string()));
    let shown = answer.data.unwrap();
    assert!(!shown.has_applied);
    assert_eq!(shown.posted_by.id, Uuid(3));
    assert!(shown.required_skills.is_empty());
}

#[test]
fn scenario_listing_by_department() {
    let q = get_opportunities(Some("CSE".to_string()), None);
    assert_eq!(
        q.text,
        "SELECT * FROM opportunities WHERE is_active = true AND department = $1 \
         ORDER BY created_at DESC"
    );
    assert_eq!(q.params, vec![SqlValue::Text("CSE".to_string())]);
    for applied in [false, true] {
        let shown = opportunity_listed(posting(3, "CSE"), actor(3, UserRole::Faculty), None, applied);
        assert!(!shown.has_applied);
        assert_eq!(shown.department, "CSE");
    }
    assert!(opportunity_listed(posting(3, "CSE"), actor(3, UserRole::Faculty), Some(Uuid(7)), true).has_applied);
    assert!(!opportunity_listed(posting(3, "CSE"), actor(3, UserRole::Faculty), Some(Uuid(7)), false).has_applied);
}

#[test]
fn listing_without_and_with_both_filters() {
    let q = get_opportunities(None, None);
    assert_eq!(q.text, "SELECT * FROM opportunities WHERE is_active = true ORDER BY created_at DESC");
    assert!(q.params.is_empty());
    let q = get_opportunities(Some("EE".to_string()), Some("research".to_string()));
    assert_eq!(
        q.text,
        "SELECT * FROM opportunities WHERE is_active = true AND department = $1 \
         AND opportunity_type::text = $2 ORDER BY created_at DESC"
    );
    assert_eq!(
        q.params,
        vec![SqlValue::Text("EE".to_string()), SqlValue::Text("research".to_string())]
    );
}

#[test]
fn applying_twice_is_rejected_the_second_time() {
    let mut stored: Vec<(Uuid, Uuid)> = Vec::new();
    let mut outcomes = Vec::new();
    for _ in 0..2 {
        let already = stored.contains(&(Uuid(80), Uuid(7)));
        let outcome = apply_opportunity(Uuid(7), Uuid(80), true, already, cv());
        if let Ok(new) = &outcome {
            stored.push((new.opportunity_id, new.student_id));
        }
        outcomes.push(outcome);
    }
    assert!(outcomes[0].is_ok());
    assert_eq!(outcomes[1], Err(AppError::BadRequest("You have already applied".to_string())));
    assert_eq!(stored, vec![(Uuid(80), Uuid(7))]);
}

#[test]
fn applying_needs_an_open_opportunity() {
    assert_eq!(apply_opportunity(Uuid(7), Uuid(80), false, false, cv()), Err(AppError::NotFound));
    assert_eq!(apply_opportunity(Uuid(7), Uuid(80), false, true, cv()), Err(AppError::NotFound));
    let new = apply_opportunity(Uuid(7), Uuid(80), true, false, cv()).unwrap();
    assert_eq!(new.resume_url, Some("https://cv".to_string()));
    assert_eq!(applied().data, Some("Application submitted successfully".to_string()));
}

#[test]
fn own_applications_show_the_opportunity() {
    let shown = my_application(
        application(85),
        posting(3, "CSE"),
        actor(3, UserRole::Faculty),
        actor(7, UserRole::Student),
    );
    assert_eq!(shown.id, Uuid(85));
    let op = shown.opportunity.unwrap();
    assert!(op.has_applied);
    assert_eq!(op.posted_by.id, Uuid(3));
    assert_eq!(shown.student.unwrap().id, Uuid(7));
    let listed = get_my_applications(
        &actor(7, UserRole::Student),
        vec![
            (application(85), posting(3, "CSE"), actor(3, UserRole::Faculty)),
            (application(86), posting(4, "EE"), actor(4, UserRole::Faculty)),
        ],
    );
    assert!(listed.success);
    let listed = listed.data.unwrap();
    assert_eq!(listed.len(), 2);
    assert_eq!(listed[0].id, Uuid(85));
    assert_eq!(listed[1].id, Uuid(86));
    assert_eq!(listed[1].opportunity.as_ref().unwrap().department, "EE");
    assert!(listed[1].opportunity.as_ref().unwrap().has_applied);
    assert_eq!(listed[1].student.as_ref().unwrap().id, Uuid(7));
    assert_eq!(get_my_applications(&actor(7, UserRole::Student), vec![]).data, Some(vec![]));
    let bare = application_response(application(85), None, Some(actor(7, UserRole::Student)));
    assert_eq!(bare.opportunity, None);
    assert_eq!(bare.status, ApplicationStatus::Pending);
}

#[test]
fn applications_are_for_those_who_manage() {
    let op = posting(3, "CSE");
    assert!(can_manage(&actor(3, UserRole::Faculty), &op));
    assert!(can_manage(&actor(1, UserRole::Admin), &op));
    assert!(!can_manage(&actor(4, UserRole::Faculty), &op));
    assert_eq!(get_opportunity_applications(&actor(3, UserRole::Faculty), &Some(op.clone())), Ok(Uuid(80)));
    assert_eq!(get_opportunity_applications(&actor(1, UserRole::Admin), &Some(op.clone())), Ok(Uuid(80)));
    assert_eq!(
        get_opportunity_applications(&actor(4, UserRole::Faculty), &Some(op.clone())),
        Err(AppError::Forbidden)
    );
    assert_eq!(
        get_opportunity_applications(&actor(7, UserRole::Student), &Some(op)),
        Err(AppError::Forbidden)
    );
    assert_eq!(get_opportunity_applications(&actor(3, UserRole::Faculty), &None), Err(AppError::NotFound));
}

#[test]
fn settling_an_application() {
    let payload = UpdateApplicationStatusRequest {
        status: ApplicationStatus::Accepted,
        faculty_remarks: Some("welcome".to_string()),
    };
    let found = Some((application(85), posting(3, "CSE")));
    let update = update_application_status(&actor(3, UserRole::Faculty), &found, payload.clone()).unwrap();
    assert_eq!(update.application_id, Uuid(85));
    assert_eq!(update.status, ApplicationStatus::Accepted);
    assert_eq!(update.faculty_remarks, Some("welcome".to_string()));
    assert_eq!(update.response.data, Some("Application marked as Accepted".to_string()));
    let rejected = UpdateApplicationStatusRequest { status: ApplicationStatus::Rejected, faculty_remarks: None };
    let update = update_application_status(&actor(1, UserRole::Admin), &found, rejected).unwrap();
    assert_eq!(update.response.data, Some("Application marked as Rejected".to_string()));
    assert_eq!(
        update_application_status(&actor(4, UserRole::Faculty), &found, payload.clone()),
        Err(AppError::Forbidden)
    );
    assert_eq!(
        update_application_status(&actor(7, UserRole::Student), &found, payload.clone()),
        Err(AppError::Forbidden)
    );
    assert_eq!(
        update_application_status(&actor(3, UserRole::Faculty), &None, payload),
        Err(AppError::NotFound)
    );
}

#[test]
fn tasks_start_pending() {
    let new = create_task(
        Uuid(7),
        CreateTaskRequest {
            title: "Read".to_string(),
            description: None,
            priority: TaskPriority::High,
            due_date: Some(Timestamp(50)),
            tags: None,
        },
    );
    assert_eq!(new.user_id, Uuid(7));
    assert_eq!(new.status, TaskStatus::Pending);
    assert_eq!(new.progress_percentage, 0);
    assert_eq!(new.priority, TaskPriority::High);
    assert_eq!(task_created(task()).message, Some("Task created".to_string()));
    assert_eq!(get_tasks(vec![task()]).data, Some(vec![task()]));
}

#[test]
fn task_update_keeps_what_is_not_named() {
    let payload = UpdateTaskRequest {
        title: None,
        description: None,
        status: Some(TaskStatus::InProgress),
        priority: None,
        progress_percentage: Some(60),
        due_date: Some(Timestamp(70)),
        tags: None,
    };
    let after = update_task(Some(task()), payload.clone()).unwrap();
    assert_eq!(
        after,
        PersonalTask {
            status: TaskStatus::InProgress,
            progress_percentage: 60,
            due_date: Some(Timestamp(70)),
            ..task()
        }
    );
    assert_eq!(update_task(None, payload), Err(AppError::NotFound));
    let all = UpdateTaskRequest {
        title: Some("Write".to_string()),
        description: Some("report".to_string()),
        status: Some(TaskStatus::Completed),
        priority: Some(TaskPriority::Medium),
        progress_percentage: Some(100),
        due_date: None,
        tags: Some(vec![]),
    };
    let after = update_task(Some(task()), all).unwrap();
    assert_eq!(after.title, "Write");
    assert_eq!(after.description, Some("report".to_string()));
    assert_eq!(after.tags, Some(vec![]));
    assert_eq!(after.due_date, None);
    assert_eq!(task_updated(after).message, Some("Task updated".to_string()));
}

#[test]
fn deleting_nothing_is_not_found() {
    assert_eq!(delete_task(0), Err(AppError::NotFound));
    assert_eq!(delete_task(1).unwrap().data, Some("Task deleted".to_string()));
}
