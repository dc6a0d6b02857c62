//! A per-caller value store guarded by caller authorization, with a
//! saturating counter operation that touches no state.

pub mod address;
pub mod auth;
pub mod contract;
pub mod laws;
pub mod storage;

pub use address::Address;
pub use auth::{AuthContext, SmokeError};
pub use contract::{Env, SmokeContract};
pub use storage::InstanceStorage;
