//! AWS service wiring: request and response types, the service that resolves
//! account configuration, and the control and data planes.
pub mod types;
pub mod service;
pub mod planes;
