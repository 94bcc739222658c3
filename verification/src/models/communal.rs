//! Utilities, bills and payments.

use vstd::prelude::*;

verus! {

/// What a meter or a bill is for.
#[derive(Debug, Clone, Copy, PartialEq, Eq, Structural)]
pub enum UtilityType {
    Electricity,
    ColdWater,
    HotWater,
    Heating,
    Gas,
    Maintenance,
    Garbage,
    Elevator,
    Intercom,
    Parking,
    Security,
    Other,
}

/// Where a bill stands.
#[derive(Debug, Clone, Copy, PartialEq, Eq, Structural)]
pub enum BillStatus {
    Pending,
    Paid,
    Overdue,
    Cancelled,
}

impl Default for BillStatus {
    fn default() -> (r: Self)
        ensures
            r == BillStatus::Pending,
    {
        BillStatus::Pending
    }
}

/// Where a payment stands.
#[derive(Debug, Clone, Copy, PartialEq, Eq, Structural)]
pub enum PaymentStatus {
    Pending,
    Processing,
    Completed,
    Failed,
    Refunded,
}

/// How a payment is made.
#[derive(Debug, Clone, Copy, PartialEq, Eq, Structural)]
pub enum PaymentMethod {
    Card,
    Kaspi,
    Halyk,
    BankTransfer,
    Cash,
}

} // verus!
