//! Data types of the service, over plain values.

pub mod address;
pub mod announcement;
pub mod apartment;
pub mod chat;
pub mod city;
pub mod communal;
pub mod complex;
pub mod maintenance;
pub mod marketplace;
pub mod notification;
pub mod osi;
pub mod security;
pub mod user;
pub mod voting;
