use vstd::prelude::*;

verus! {

/// Every way in which an operation of the program can be refused.
#[derive(Clone, Copy, Debug, PartialEq, Eq, Structural)]
pub enum PusdError {
    /// The caller does not hold the required role.
    Unauthorized,
    /// The identity already has a role record.
    RoleAlreadyAssigned,
    /// The identity has no role record.
    RoleNotFound,
    /// The zero identity was given where a real one is required.
    InvalidAddress,
    /// The recipient of a mint is the zero identity.
    RecipientIsZeroAddress,
    /// The caller's role exists but its activation time has not come.
    RoleNotActiveYet,
    /// No record address could be derived for a new role.
    GrantRoleFailed,
    /// The caller is not the program's upgrade authority.
    OnlyUpgradeAuthority,
    /// The program-data record is missing.
    ProgramDataNotFound,
    /// The program was initialized before.
    AlreadyInitialized,
    /// The program-data record is too short to hold an upgrade authority.
    InvalidProgramData,
}

impl PusdError {
    /// The message that goes with each error.
    pub fn message(&self) -> (r: &'static str)
    {
        match self {
            PusdError::Unauthorized => "Unauthorized: User does not have the required role",
            PusdError::RoleAlreadyAssigned => "Role already assigned to this user",
            PusdError::RoleNotFound => "Role not found for this user",
            PusdError::InvalidAddress => "Invalid address: Cannot be zero address",
            PusdError::RecipientIsZeroAddress => "Recipient is zero address",
            PusdError::RoleNotActiveYet => "Role not active yet",
            PusdError::GrantRoleFailed => "Grant role failed",
            PusdError::OnlyUpgradeAuthority => "Only the program upgrade authority can initialize",
            PusdError::ProgramDataNotFound => "Program data account not found",
            PusdError::AlreadyInitialized => "Program already initialized",
            PusdError::InvalidProgramData => "Invalid program data",
        }
    }
}

} // verus!
