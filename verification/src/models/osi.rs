//! Owners' associations: their councils, workers and documents.

use vstd::prelude::*;

verus! {

/// A change of an association's details.
#[derive(Debug)]
pub struct UpdateOsiRequest {
    pub name: Option<String>,
    pub bin: Option<String>,
    pub phone: Option<String>,
    pub email: Option<String>,
    pub address: Option<String>,
    pub bank_name: Option<String>,
    pub bank_bik: Option<String>,
    pub bank_account: Option<String>,
}

/// A seat on the council.
#[derive(Debug, Clone, Copy, PartialEq, Eq, Structural)]
pub enum CouncilPosition {
    Chairman,
    DeputyChairman,
    Secretary,
    Treasurer,
    Member,
}

/// What a worker of the association does.
#[derive(Debug, Clone, Copy, PartialEq, Eq, Structural)]
pub enum WorkerRole {
    Accountant,
    Manager,
    Guard,
    Cleaner,
    Plumber,
    Electrician,
    Other,
}

/// What kind of document it is.
#[derive(Debug, Clone, Copy, PartialEq, Eq, Structural)]
pub enum DocumentType {
    Charter,
    Protocol,
    Contract,
    Report,
    Act,
    Other,
}

/// Where an application for the chair stands.
#[derive(Debug, Clone, Copy, PartialEq, Eq, Structural)]
pub enum ChairmanApplicationStatus {
    Pending,
    Approved,
    Rejected,
}

} // verus!
