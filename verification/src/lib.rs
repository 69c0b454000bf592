//! Client-side protocol logic for a remote tabular record API: credential
//! resolution, request construction, response handling and the paginated
//! record cursor.

pub mod auth;
pub mod env;
pub mod errors;
pub mod glider;
pub mod http;
pub mod model;
pub mod prelude;
pub mod reference;
pub mod text;
