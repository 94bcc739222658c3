//! The operations of the service.

pub mod auth_service;
pub mod barrier_laws;
pub mod barrier_service;
pub mod external;
pub mod file_service;
pub mod sms_service;
