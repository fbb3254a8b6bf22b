//! Authorization and supply control for a non-fungible token registry.
//!
//! The persisted contract state is modelled by [`state::Store`]; every
//! mutating request is a handler in [`execute`] that validates the request
//! against the configuration and the token grants, and commits either all of
//! its changes or none of them.

pub mod access;
pub mod error;
pub mod execute;
pub mod laws;
pub mod query;
pub mod response;
pub mod state;
