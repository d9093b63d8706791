//! Shared building blocks of the Stellar-Save contracts: unit constants, the
//! policy guards of the allowlisted token, and the decision of the token
//! transfer helper.

pub mod constants;
pub mod error;
pub mod policy;
pub mod xlm;

pub use constants::{xlm_to_stroops, MAX_BASIS_POINTS, STROOPS_PER_XLM};
pub use error::{Error, HostError};
pub use policy::{require_admin, require_allowlisted};
pub use xlm::TransferReply;
