//! Announcements to the residents of a complex.

use vstd::prelude::*;

verus! {

/// What an announcement is about.
#[derive(Debug, Clone, Copy, PartialEq, Eq, Structural)]
pub enum AnnouncementCategory {
    General,
    Maintenance,
    Emergency,
    Event,
    Financial,
    Voting,
}

impl Default for AnnouncementCategory {
    fn default() -> (r: Self)
        ensures
            r == AnnouncementCategory::General,
    {
        AnnouncementCategory::General
    }
}

/// How urgent an announcement is.
#[derive(Debug, Clone, Copy, PartialEq, Eq, Structural)]
pub enum AnnouncementPriority {
    Low,
    Normal,
    High,
    Urgent,
}

impl Default for AnnouncementPriority {
    fn default() -> (r: Self)
        ensures
            r == AnnouncementPriority::Normal,
    {
        AnnouncementPriority::Normal
    }
}

} // verus!
