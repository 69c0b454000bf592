//! The items that most users of the library need.

pub use crate::auth::{CredentialType, GlideRecordConfig};
pub use crate::env::Environment;
pub use crate::errors::GlideError;
pub use crate::glider::{GlideRecord, GlideReference, Glideable, Record};
pub use crate::http::{Request, Response, Transport, TransportError};
