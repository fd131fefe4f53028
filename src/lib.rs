//! Client-side logic of the particle-filter web tool: validating the JSON
//! inputs, framing the request bodies sent to the remote service, and turning
//! the service's reply into what the process prints and the code it exits with.

pub mod json;
pub mod decimal;
pub mod payload;
pub mod session;
