//! Notifications to users.

use vstd::prelude::*;

verus! {

/// What a notification is about.
#[derive(Debug, Clone, Copy, PartialEq, Eq, Structural)]
pub enum NotificationType {
    Announcement,
    Voting,
    Bill,
    Payment,
    GuestAccess,
    Maintenance,
    Security,
    Chat,
    Marketplace,
    System,
}

/// A device that asks for push notifications.
#[derive(Debug)]
pub struct RegisterPushTokenRequest {
    pub token: String,
    pub platform: String,
    pub device_id: Option<String>,
}

/// Which notifications to list.
#[derive(Debug)]
pub struct NotificationsQuery {
    pub unread_only: Option<bool>,
    pub notification_type: Option<String>,
    pub page: Option<i64>,
    pub limit: Option<i64>,
}

} // verus!
