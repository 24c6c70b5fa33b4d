//! What is written to the audit trail. The trail only ever grows: an entry
//! names who acted and what they did, and is never changed afterwards.

use vstd::prelude::*;

use crate::primitives::Uuid;
use crate::structs::{GrievanceCategory, GrievancePriority, UserRole, UserStatus};

verus! {

/// What happened, with the details that are kept of it.
#[derive(Clone, Debug, PartialEq, Eq)]
pub enum AuditEvent {
    /// A user signed in through the identity provider.
    Login,
    /// A user signed out.
    Logout,
    /// A grievance was submitted.
    GrievanceCreated {
        grievance_id: Uuid,
        category: GrievanceCategory,
        priority: GrievancePriority,
    },
    /// A grievance was handed to a user or a department.
    GrievanceAssigned {
        grievance_id: Uuid,
        assigned_to: Option<Uuid>,
        assigned_department: Option<String>,
    },
    /// An administrator changed someone's role.
    UserRoleUpdated { target_user_id: Uuid, old_role: UserRole, new_role: UserRole },
    /// A user changed their own role.
    OwnRoleUpdated { old_role: UserRole, new_role: UserRole },
    /// An administrator changed someone's account status.
    UserStatusUpdated { target_user_id: Uuid, old_status: UserStatus, new_status: UserStatus },
}

impl AuditEvent {
    /// The name under which the event is filed.
    pub open spec fn action_name(self) -> Seq<char> {
        match self {
            AuditEvent::Login => "login"@,
            AuditEvent::Logout => "logout"@,
            AuditEvent::GrievanceCreated { .. } => "CREATE_GRIEVANCE"@,
            AuditEvent::GrievanceAssigned { .. } => "ASSIGN_GRIEVANCE"@,
            AuditEvent::UserRoleUpdated { .. } => "UPDATE_USER_ROLE"@,
            AuditEvent::OwnRoleUpdated { .. } => "UPDATE_OWN_ROLE"@,
            AuditEvent::UserStatusUpdated { .. } => "UPDATE_USER_STATUS"@,
        }
    }

    /// The name under which the event is filed.
    pub fn action(&self) -> (name: &'static str)
        ensures
            name@ == self.action_name(),
    {
        match self {
            AuditEvent::Login => "login",
            AuditEvent::Logout => "logout",
            AuditEvent::GrievanceCreated { .. } => "CREATE_GRIEVANCE",
            AuditEvent::GrievanceAssigned { .. } => "ASSIGN_GRIEVANCE",
            AuditEvent::UserRoleUpdated { .. } => "UPDATE_USER_ROLE",
            AuditEvent::OwnRoleUpdated { .. } => "UPDATE_OWN_ROLE",
            AuditEvent::UserStatusUpdated { .. } => "UPDATE_USER_STATUS",
        }
    }
}

/// One entry to append to the audit trail.
#[derive(Clone, Debug, PartialEq, Eq)]
pub struct AuditEntry {
    /// Who acted.
    pub user_id: Uuid,
    /// What they did.
    pub event: AuditEvent,
}

} // verus!
