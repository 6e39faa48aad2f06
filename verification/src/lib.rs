//! A small verified HTTP service core: fixed JSON endpoints for a status
//! message and a candidate list, with exact response bodies stated and
//! proved, plus the generic internal-error payload.

pub mod http;
pub mod json;
pub mod payload;
pub mod rfc3339;
pub mod text;
