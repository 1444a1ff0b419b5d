//! The operations of the program. Each one takes the accounts it reads as a
//! plain context value, decides, and either changes the program's records or
//! returns the token-program call to make.
use vstd::prelude::*;

use crate::errors::PusdError;
use crate::model::{burn_call, TokenCall};
use crate::pda::user_role_address;
use crate::program::Program;
use crate::state::{require_upgrade_authority, Address, ProgramState, Role, UserRole, ROLE_ACTIVATION_DELAY};

verus! {

/// The version of the program.
pub const VERSION: &'static str = "1.0.0";

/// The accounts of a bootstrap: the signer, the loader's program-data record
/// of this program, and the clock.
pub struct Initialize {
    /// The signer, who must be the program's upgrade authority.
    pub payer: Address,
    /// The bytes of the loader's program-data record.
    pub program_data: Vec<u8>,
    /// The current time, in seconds since the epoch.
    pub now: i64,
}

/// The accounts of a grant.
pub struct AddRole {
    /// The signer, who must hold the owner role.
    pub owner: Address,
    /// The current time, in seconds since the epoch.
    pub now: i64,
}

/// The accounts of a revocation.
pub struct RemoveRole {
    /// The signer, who must hold an active owner role.
    pub owner: Address,
    /// The identity whose record is deleted.
    pub user: Address,
    /// The current time, in seconds since the epoch.
    pub now: i64,
}

/// The accounts of the handoff of the minting authority.
pub struct TransferAuthority {
    /// The token's mint.
    pub mint: Address,
    /// The signer: the deployer, and the token's minting authority so far.
    pub current_authority: Address,
    /// The bytes of the loader's program-data record.
    pub program_data: Vec<u8>,
}

/// The accounts of a mint by an authorized contract.
pub struct MintByContract {
    /// The signer, who must hold an active authorized-contract role.
    pub authorized_contract: Address,
    /// The token's mint.
    pub mint: Address,
    /// The token account credited.
    pub recipient: Address,
    /// The current time, in seconds since the epoch.
    pub now: i64,
}

/// The accounts of a mint made on behalf of a calling program.
pub struct MintByCPI {
    /// The calling program, which must hold an active authorized-contract role.
    pub caller_program: Address,
    /// The token's mint.
    pub mint: Address,
    /// The token account credited.
    pub recipient: Address,
    /// The current time, in seconds since the epoch.
    pub now: i64,
}

/// The accounts of a mint by an operator.
pub struct MintByOperator {
    /// The signer, who must hold an active operator role.
    pub operator: Address,
    /// The token's mint.
    pub mint: Address,
    /// The token account credited.
    pub recipient: Address,
    /// The current time, in seconds since the epoch.
    pub now: i64,
}

/// The accounts of a burn.
pub struct BurnTokens {
    /// The signer.
    pub owner: Address,
    /// The token's mint.
    pub mint: Address,
    /// The token account debited.
    pub token_account: Address,
    /// The owner recorded in that token account.
    pub token_account_owner: Address,
}

/// Fails once the program is initialized.
pub fn require_not_initialized(state: &ProgramState) -> (r: Result<(), PusdError>)
    ensures
        r is Err <==> state.is_initialized,
        r is Err ==> r == Err::<(), PusdError>(PusdError::AlreadyInitialized),
{
    if state.is_initialized {
        Err(PusdError::AlreadyInitialized)
    } else {
        Ok(())
    }
}

/// Fails on the zero identity.
pub fn require_valid_address(address: &Address) -> (r: Result<(), PusdError>)
    ensures
        r is Err <==> address.spec_is_zero(),
        r is Err ==> r == Err::<(), PusdError>(PusdError::InvalidAddress),
{
    if address.is_zero() {
        Err(PusdError::InvalidAddress)
    } else {
        Ok(())
    }
}

/// Bootstraps the program: the upgrade authority names the owner and the
/// operator, whose roles are active at once. Runs once.
pub fn initialize(
    program: &mut Program,
    ctx: &Initialize,
    owner_address: Address,
    operator_address: Address,
) -> (r: Result<(), PusdError>)
    requires
        old(program).wf(),
    ensures
        final(program).wf(),
        match old(program)@.after_initialize(
            ctx.payer,
            ctx.program_data@,
            ctx.now,
            owner_address,
            operator_address,
        ) {
            Ok(v) => r is Ok && final(program)@ == v,
            Err(e) => r == Err::<(), PusdError>(e) && final(program)@ == old(program)@,
        },
{
    match require_upgrade_authority(ctx.program_data.as_slice(), &ctx.payer) {
        Err(e) => {
            return Err(e);
        },
        Ok(()) => {},
    }
    let state = program.program_state();
    match require_not_initialized(&state) {
        Err(e) => {
            return Err(e);
        },
        Ok(()) => {},
    }
    if owner_address.is_zero() || operator_address.is_zero() {
        return Err(PusdError::InvalidAddress);
    }
    let program_id = program.program_id();
    let owner_bump = match user_role_address(&owner_address, &program_id) {
        Some((_, bump)) => bump,
        None => {
            return Err(PusdError::GrantRoleFailed);
        },
    };
    let operator_bump = match user_role_address(&operator_address, &program_id) {
        Some((_, bump)) => bump,
        None => {
            return Err(PusdError::GrantRoleFailed);
        },
    };
    let owner_role = UserRole {
        user: owner_address,
        role: Role::Owner,
        bump: owner_bump,
        role_active_time: ctx.now,
    };
    let operator_role = UserRole {
        user: operator_address,
        role: Role::Operator,
        bump: operator_bump,
        role_active_time: ctx.now,
    };
    program.bootstrap(owner_role, operator_role);
    Ok(())
}

/// An owner grants `role` to `user`, who has no record yet; the role becomes
/// active a full delay after now.
pub fn add_role(program: &mut Program, ctx: &AddRole, user: Address, role: Role) -> (r: Result<
    (),
    PusdError,
>)
    requires
        old(program).wf(),
        ctx.now + ROLE_ACTIVATION_DELAY <= i64::MAX,
    ensures
        final(program).wf(),
        match old(program)@.after_add_role(ctx.owner, ctx.now, user, role) {
            Ok(v) => r is Ok && final(program)@ == v,
            Err(e) => r == Err::<(), PusdError>(e) && final(program)@ == old(program)@,
        },
{
    if !program.has_role(&ctx.owner, Role::Owner) {
        return Err(PusdError::Unauthorized);
    }
    match require_valid_address(&user) {
        Err(e) => {
            return Err(e);
        },
        Ok(()) => {},
    }
    match program.role_of(&user) {
        Some(_) => {
            return Err(PusdError::RoleAlreadyAssigned);
        },
        None => {},
    }
    let program_id = program.program_id();
    let bump = match user_role_address(&user, &program_id) {
        Some((_, bump)) => bump,
        None => {
            return Err(PusdError::GrantRoleFailed);
        },
    };
    let record = UserRole { user, role, bump, role_active_time: ctx.now + ROLE_ACTIVATION_DELAY };
    proof {
        program.lemma_inv();
        assert(program@.roles.dom().contains(ctx.owner));
    }
    program.grant(record);
    Ok(())
}

/// An active owner deletes the record of `ctx.user`; the deleted record is
/// returned, so that the storage deposit it held can go back to the owner.
pub fn remove_role(program: &mut Program, ctx: &RemoveRole) -> (r: Result<UserRole, PusdError>)
    requires
        old(program).wf(),
    ensures
        final(program).wf(),
        match old(program)@.after_remove_role(ctx.owner, ctx.now, ctx.user) {
            Ok((v, record)) => r == Ok::<UserRole, PusdError>(record) && final(program)@ == v,
            Err(e) => r == Err::<UserRole, PusdError>(e) && final(program)@ == old(program)@,
        },
{
    match program.require_role(&ctx.owner, Role::Owner, ctx.now) {
        Err(e) => {
            return Err(e);
        },
        Ok(()) => {},
    }
    match program.revoke(&ctx.user) {
        Some(record) => Ok(record),
        None => Err(PusdError::RoleNotFound),
    }
}

/// The issuance call signed by the derived mint authority.
fn issue(program: &Program, mint: Address, to: Address, amount: u64) -> (r: TokenCall)
    ensures
        r == program@.issue(mint, to, amount),
{
    let (authority, authority_bump) = program.mint_authority_signer();
    TokenCall::MintTo { mint, to, authority, authority_bump, amount }
}

/// A mint by an active authorized contract to a recipient that is not zero.
pub fn mint(program: &Program, ctx: &MintByContract, amount: u64) -> (r: Result<TokenCall, PusdError>)
    requires
        program.wf(),
    ensures
        r == program@.mint_call(
            ctx.authorized_contract,
            Role::AuthorizedContract,
            ctx.now,
            ctx.mint,
            ctx.recipient,
            amount,
        ),
{
    match program.require_role(&ctx.authorized_contract, Role::AuthorizedContract, ctx.now) {
        Err(e) => {
            return Err(e);
        },
        Ok(()) => {},
    }
    if ctx.recipient.is_zero() {
        return Err(PusdError::RecipientIsZeroAddress);
    }
    Ok(issue(program, ctx.mint, ctx.recipient, amount))
}

/// A mint on behalf of a calling program that holds an active
/// authorized-contract role.
pub fn mint_cpi(program: &Program, ctx: &MintByCPI, amount: u64) -> (r: Result<TokenCall, PusdError>)
    requires
        program.wf(),
    ensures
        r == program@.mint_cpi_call(ctx.caller_program, ctx.now, ctx.mint, ctx.recipient, amount),
{
    match program.require_role(&ctx.caller_program, Role::AuthorizedContract, ctx.now) {
        Err(e) => {
            return Err(e);
        },
        Ok(()) => {},
    }
    Ok(issue(program, ctx.mint, ctx.recipient, amount))
}

/// The deployer hands the token's minting authority to the derived mint
/// authority, after which only this program can issue.
pub fn transfer_mint_authority_to_pda(program: &Program, ctx: &TransferAuthority) -> (r: Result<
    TokenCall,
    PusdError,
>)
    ensures
        r == program@.handoff_call(ctx.mint, ctx.current_authority, ctx.program_data@),
{
    match require_upgrade_authority(ctx.program_data.as_slice(), &ctx.current_authority) {
        Err(e) => {
            return Err(e);
        },
        Ok(()) => {},
    }
    Ok(
        TokenCall::SetMintAuthority {
            mint: ctx.mint,
            current_authority: ctx.current_authority,
            new_authority: program.mint_authority(),
        },
    )
}

/// A mint by an active operator to a recipient that is not zero.
pub fn mint_by_operator(program: &Program, ctx: &MintByOperator, amount: u64) -> (r: Result<
    TokenCall,
    PusdError,
>)
    requires
        program.wf(),
    ensures
        r == program@.mint_call(
            ctx.operator,
            Role::Operator,
            ctx.now,
            ctx.mint,
            ctx.recipient,
            amount,
        ),
{
    match program.require_role(&ctx.operator, Role::Operator, ctx.now) {
        Err(e) => {
            return Err(e);
        },
        Ok(()) => {},
    }
    if ctx.recipient.is_zero() {
        return Err(PusdError::RecipientIsZeroAddress);
    }
    Ok(issue(program, ctx.mint, ctx.recipient, amount))
}

/// A burn of the signer's own tokens; no role is needed, only ownership of
/// the token account.
pub fn burn(ctx: &BurnTokens, amount: u64) -> (r: Result<TokenCall, PusdError>)
    ensures
        r == burn_call(ctx.owner, ctx.mint, ctx.token_account, ctx.token_account_owner, amount),
{
    if !ctx.token_account_owner.same(&ctx.owner) {
        return Err(PusdError::Unauthorized);
    }
    Ok(TokenCall::Burn { mint: ctx.mint, from: ctx.token_account, authority: ctx.owner, amount })
}

/// The version of the program.
pub fn get_version() -> (r: String)
    ensures
        r@ == VERSION@,
{
    VERSION.to_owned()
}

} // verus!
