//! The program's state as a mathematical value, and the outcome of each
//! operation on it.
use vstd::prelude::*;

use crate::errors::PusdError;
use crate::pda::{mint_authority_seeds, program_address_of, program_state_seeds, user_role_seeds};
use crate::state::{
    upgrade_authority_check,
    Address,
    ProgramState,
    Role,
    UserRole,
    ROLE_ACTIVATION_DELAY,
};

verus! {

/// A call into the token program that a successful operation asks the host
/// runtime to make.
#[derive(Clone, Copy, Debug)]
pub enum TokenCall {
    /// Credit `amount` tokens of `mint` to the token account `to`, signed by
    /// the program-derived mint authority with its bump.
    MintTo { mint: Address, to: Address, authority: Address, authority_bump: u8, amount: u64 },
    /// Destroy `amount` tokens of `mint` held in `from`, signed by its owner.
    Burn { mint: Address, from: Address, authority: Address, amount: u64 },
    /// Make `new_authority` the minting authority of `mint` in place of
    /// `current_authority`, who signs.
    SetMintAuthority { mint: Address, current_authority: Address, new_authority: Address },
}

/// The state of one program instance: its id, its derived mint authority,
/// the bootstrap flag, and the role record of each identity that has one.
pub struct ProgramView {
    pub program_id: Address,
    pub mint_authority: Address,
    pub mint_authority_bump: u8,
    pub state: ProgramState,
    pub roles: Map<Address, UserRole>,
}

/// The bump of the address derived from `seeds` under `program_id`, if one
/// can be derived.
pub open spec fn derived_bump(seeds: Seq<Seq<u8>>, program_id: Address) -> Option<u8> {
    match program_address_of(seeds, program_id@) {
        Some(found) => Some(found.1),
        None => None,
    }
}

impl ProgramView {
    /// What holds of every reachable state: the mint authority is the one
    /// derived from its tag; role records exist only after bootstrap; each
    /// record is keyed by its own identity, which is not zero, and carries
    /// the bump of the address derived from that identity.
    pub open spec fn inv(self) -> bool {
        &&& program_address_of(mint_authority_seeds(), self.program_id@) == Some(
            (self.mint_authority@, self.mint_authority_bump),
        )
        &&& derived_bump(program_state_seeds(), self.program_id) == Some(self.state.bump)
        &&& !self.state.is_initialized ==> self.roles.dom() == Set::<Address>::empty()
        &&& forall|a: Address| #[trigger]
            self.roles.contains_key(a) ==> {
                &&& self.roles[a].user == a
                &&& !a.spec_is_zero()
                &&& derived_bump(user_role_seeds(a), self.program_id) == Some(self.roles[a].bump)
            }
    }

    /// Whether `record` may be stored as the record of its identity: the
    /// identity is not zero and the bump is the one derived from it.
    pub open spec fn record_fits(self, record: UserRole) -> bool {
        &&& !record.user.spec_is_zero()
        &&& derived_bump(user_role_seeds(record.user), self.program_id) == Some(record.bump)
    }

    /// The same state, marked initialized.
    pub open spec fn initialized(self) -> ProgramView {
        ProgramView {
            program_id: self.program_id,
            mint_authority: self.mint_authority,
            mint_authority_bump: self.mint_authority_bump,
            state: ProgramState { is_initialized: true, bump: self.state.bump },
            roles: self.roles,
        }
    }

    /// The same state with other role records.
    pub open spec fn with_roles(self, roles: Map<Address, UserRole>) -> ProgramView {
        ProgramView {
            program_id: self.program_id,
            mint_authority: self.mint_authority,
            mint_authority_bump: self.mint_authority_bump,
            state: self.state,
            roles,
        }
    }

    /// Whether `user` has a record and it names `role`, active or not.
    pub open spec fn spec_has_role(self, user: Address, role: Role) -> bool {
        self.roles.contains_key(user) && self.roles[user].role == role
    }

    /// The guard of a role-gated operation: `caller` must hold `role` and the
    /// role must be active at `now`.
    pub open spec fn guard(self, caller: Address, role: Role, now: i64) -> Result<(), PusdError> {
        if !self.spec_has_role(caller, role) {
            Err(PusdError::Unauthorized)
        } else if !self.roles[caller].spec_is_active(now) {
            Err(PusdError::RoleNotActiveYet)
        } else {
            Ok(())
        }
    }

    /// Bootstrap by `payer` at `now`, against the loader's program-data
    /// record: the owner and the operator get records that are active at
    /// once, and the program is marked initialized.
    pub open spec fn after_initialize(
        self,
        payer: Address,
        program_data: Seq<u8>,
        now: i64,
        owner: Address,
        operator: Address,
    ) -> Result<ProgramView, PusdError> {
        if upgrade_authority_check(program_data, payer) is Err {
            Err(upgrade_authority_check(program_data, payer)->Err_0)
        } else if self.state.is_initialized {
            Err(PusdError::AlreadyInitialized)
        } else if owner.spec_is_zero() || operator.spec_is_zero() {
            Err(PusdError::InvalidAddress)
        } else {
            match (
                derived_bump(user_role_seeds(owner), self.program_id),
                derived_bump(user_role_seeds(operator), self.program_id),
            ) {
                (Some(owner_bump), Some(operator_bump)) => Ok(
                    ProgramView {
                        program_id: self.program_id,
                        mint_authority: self.mint_authority,
                        mint_authority_bump: self.mint_authority_bump,
                        state: ProgramState { is_initialized: true, bump: self.state.bump },
                        roles: self.roles.insert(
                            owner,
                            UserRole {
                                user: owner,
                                role: Role::Owner,
                                bump: owner_bump,
                                role_active_time: now,
                            },
                        ).insert(
                            operator,
                            UserRole {
                                user: operator,
                                role: Role::Operator,
                                bump: operator_bump,
                                role_active_time: now,
                            },
                        ),
                    },
                ),
                _ => Err(PusdError::GrantRoleFailed),
            }
        }
    }

    /// The record that a grant at `now` creates.
    pub open spec fn granted(self, user: Address, role: Role, bump: u8, now: i64) -> UserRole {
        UserRole { user, role, bump, role_active_time: (now + ROLE_ACTIVATION_DELAY) as i64 }
    }

    /// `owner` grants `role` to `user` at `now`; the role becomes active a
    /// full delay later. An identity that has a record keeps it unchanged.
    pub open spec fn after_add_role(self, owner: Address, now: i64, user: Address, role: Role) -> Result<
        ProgramView,
        PusdError,
    > {
        if !self.spec_has_role(owner, Role::Owner) {
            Err(PusdError::Unauthorized)
        } else if user.spec_is_zero() {
            Err(PusdError::InvalidAddress)
        } else if self.roles.contains_key(user) {
            Err(PusdError::RoleAlreadyAssigned)
        } else {
            match derived_bump(user_role_seeds(user), self.program_id) {
                Some(bump) => Ok(self.with_roles(self.roles.insert(user, self.granted(user, role, bump, now)))),
                None => Err(PusdError::GrantRoleFailed),
            }
        }
    }

    /// `owner`, active at `now`, deletes the record of `user`; the deleted
    /// record comes back with the new state.
    pub open spec fn after_remove_role(self, owner: Address, now: i64, user: Address) -> Result<
        (ProgramView, UserRole),
        PusdError,
    > {
        if self.guard(owner, Role::Owner, now) is Err {
            Err(self.guard(owner, Role::Owner, now)->Err_0)
        } else if !self.roles.contains_key(user) {
            Err(PusdError::RoleNotFound)
        } else {
            Ok((self.with_roles(self.roles.remove(user)), self.roles[user]))
        }
    }

    /// The issuance of `amount` tokens of `mint` to `to`, signed by the
    /// derived mint authority.
    pub open spec fn issue(self, mint: Address, to: Address, amount: u64) -> TokenCall {
        TokenCall::MintTo {
            mint,
            to,
            authority: self.mint_authority,
            authority_bump: self.mint_authority_bump,
            amount,
        }
    }

    /// A mint by `caller`, who must hold `role` actively at `now`, to a
    /// recipient that is not zero.
    pub open spec fn mint_call(
        self,
        caller: Address,
        role: Role,
        now: i64,
        mint: Address,
        recipient: Address,
        amount: u64,
    ) -> Result<TokenCall, PusdError> {
        if self.guard(caller, role, now) is Err {
            Err(self.guard(caller, role, now)->Err_0)
        } else if recipient.spec_is_zero() {
            Err(PusdError::RecipientIsZeroAddress)
        } else {
            Ok(self.issue(mint, recipient, amount))
        }
    }

    /// A mint on behalf of the program `caller`, which must hold the
    /// authorized-contract role actively at `now`.
    pub open spec fn mint_cpi_call(
        self,
        caller: Address,
        now: i64,
        mint: Address,
        recipient: Address,
        amount: u64,
    ) -> Result<TokenCall, PusdError> {
        if self.guard(caller, Role::AuthorizedContract, now) is Err {
            Err(self.guard(caller, Role::AuthorizedContract, now)->Err_0)
        } else {
            Ok(self.issue(mint, recipient, amount))
        }
    }

    /// The deployer hands the minting authority of `mint` from
    /// `current_authority` to the derived mint authority.
    pub open spec fn handoff_call(
        self,
        mint: Address,
        current_authority: Address,
        program_data: Seq<u8>,
    ) -> Result<TokenCall, PusdError> {
        if upgrade_authority_check(program_data, current_authority) is Err {
            Err(upgrade_authority_check(program_data, current_authority)->Err_0)
        } else {
            Ok(
                TokenCall::SetMintAuthority {
                    mint,
                    current_authority,
                    new_authority: self.mint_authority,
                },
            )
        }
    }
}

/// A burn of `amount` tokens from `token_account` by `owner`, who must own
/// that account.
pub open spec fn burn_call(
    owner: Address,
    mint: Address,
    token_account: Address,
    token_account_owner: Address,
    amount: u64,
) -> Result<TokenCall, PusdError> {
    if token_account_owner != owner {
        Err(PusdError::Unauthorized)
    } else {
        Ok(TokenCall::Burn { mint, from: token_account, authority: owner, amount })
    }
}

} // verus!
