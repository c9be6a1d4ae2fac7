//! The operations of the services, each a sequence of statements whose
//! replies decide what comes next.
pub mod expense_service;
pub mod tag_service;
