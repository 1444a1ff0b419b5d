//! Role-based access control over the issuance and destruction of a token.
//!
//! The library keeps the role records of one program instance, authenticates
//! its deployer from the loader's program-data bytes, and decides every gated
//! operation. Token movements are returned as [`TokenCall`] values, which the
//! host runtime hands to the token program with the signer they name.

pub mod errors;
pub mod instructions;
pub mod laws;
pub mod model;
pub mod pda;
pub mod program;
pub mod state;

pub use errors::PusdError;
pub use model::{ProgramView, TokenCall};
pub use program::Program;
pub use state::{Address, ProgramState, Role, UpgradeableData, UserRole};
