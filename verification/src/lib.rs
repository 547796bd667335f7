//! Health endpoints for web services: named checks of three kinds, `UP` and
//! `DOWN` statuses, and the responses that they add up to.
pub mod arguments;
pub mod check;
pub mod diagnostic;
pub mod endpoint;
pub mod expand;
pub mod json;
pub mod kind;
pub mod laws;
pub mod registry;
pub mod response;
pub mod run;
pub mod status;
pub mod syntax;

pub use check::{Check, CheckError};
pub use endpoint::{Endpoint, Router};
pub use kind::Kind;
pub use registry::{Health, HealthBuilder, HealthCheck, ProvidedCheck, Provider, RegisteredCheck};
pub use response::{health_response, CheckResponse, HealthPayload, HealthResponse};
pub use run::{Action, Answer, Run};
pub use status::Status;
