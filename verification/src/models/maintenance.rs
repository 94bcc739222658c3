//! Maintenance requests.

use vstd::prelude::*;

verus! {

/// What a maintenance request is about.
#[derive(Debug, Clone, Copy, PartialEq, Eq, Structural)]
pub enum MaintenanceCategory {
    Plumbing,
    Electrical,
    Heating,
    Elevator,
    CommonArea,
    Facade,
    Roof,
    Parking,
    Landscaping,
    Security,
    Other,
}

/// Where a maintenance request stands.
#[derive(Debug, Clone, Copy, PartialEq, Eq, Structural)]
pub enum MaintenanceStatus {
    New,
    InProgress,
    WaitingParts,
    Completed,
    Rejected,
    Cancelled,
}

impl Default for MaintenanceStatus {
    fn default() -> (r: Self)
        ensures
            r == MaintenanceStatus::New,
    {
        MaintenanceStatus::New
    }
}

/// How urgent a maintenance request is.
#[derive(Debug, Clone, Copy, PartialEq, Eq, Structural)]
pub enum MaintenancePriority {
    Low,
    Normal,
    High,
    Emergency,
}

impl Default for MaintenancePriority {
    fn default() -> (r: Self)
        ensures
            r == MaintenancePriority::Normal,
    {
        MaintenancePriority::Normal
    }
}

/// A photo of the fault or of the repair.
#[derive(Debug)]
pub struct MaintenancePhotoResponse {
    pub url: String,
    pub is_before: bool,
}

/// A change of a request's status.
#[derive(Debug)]
pub struct UpdateMaintenanceStatusRequest {
    pub status: MaintenanceStatus,
    pub completion_notes: Option<String>,
}

/// A resident's rating of a repair.
#[derive(Debug)]
pub struct RateMaintenanceRequest {
    pub rating: i32,
    pub comment: Option<String>,
}

/// A comment on a request.
#[derive(Debug)]
pub struct AddMaintenanceCommentRequest {
    pub content: String,
}

} // verus!
