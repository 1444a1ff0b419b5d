//! Properties that hold across operations, stated over the model and proved.
use vstd::prelude::*;

use crate::errors::PusdError;
use crate::model::ProgramView;
use crate::state::{upgrade_authority_check, Address, Role, ROLE_ACTIVATION_DELAY};

verus! {

/// A grant never overwrites: on an identity that already has a record,
/// `add_role` fails whoever calls it, and when an owner calls it the error
/// is `RoleAlreadyAssigned`.
pub proof fn lemma_add_role_never_overwrites(
    v: ProgramView,
    owner: Address,
    now: i64,
    user: Address,
    role: Role,
)
    requires
        v.inv(),
        v.roles.contains_key(user),
    ensures
        v.after_add_role(owner, now, user, role) is Err,
        v.spec_has_role(owner, Role::Owner) ==> v.after_add_role(owner, now, user, role) == Err::<
            ProgramView,
            PusdError,
        >(PusdError::RoleAlreadyAssigned),
{
}

/// A role granted at `granted_at` is refused by every guard, for every role,
/// at each moment before a full delay has passed, and honoured from the
/// moment the delay ends.
pub proof fn lemma_grant_waits_for_delay(
    v: ProgramView,
    owner: Address,
    granted_at: i64,
    user: Address,
    role: Role,
    now: i64,
)
    requires
        v.inv(),
        granted_at + ROLE_ACTIVATION_DELAY <= i64::MAX,
        v.after_add_role(owner, granted_at, user, role) is Ok,
    ensures
        granted_at <= now < granted_at + ROLE_ACTIVATION_DELAY ==> forall|any: Role|
            #[trigger] v.after_add_role(owner, granted_at, user, role)->Ok_0.guard(user, any, now)
                is Err,
        granted_at <= now < granted_at + ROLE_ACTIVATION_DELAY ==> v.after_add_role(
            owner,
            granted_at,
            user,
            role,
        )->Ok_0.guard(user, role, now) == Err::<(), PusdError>(PusdError::RoleNotActiveYet),
        now >= granted_at + ROLE_ACTIVATION_DELAY ==> v.after_add_role(
            owner,
            granted_at,
            user,
            role,
        )->Ok_0.guard(user, role, now) is Ok,
{
}

/// Bootstrap runs once: once the program is initialized, `initialize` fails
/// with any arguments and the records stay as they are; when the signer is
/// the upgrade authority the error is `AlreadyInitialized`.
pub proof fn lemma_initialize_runs_once(
    v: ProgramView,
    payer: Address,
    program_data: Seq<u8>,
    now: i64,
    owner: Address,
    operator: Address,
)
    requires
        v.state.is_initialized,
    ensures
        v.after_initialize(payer, program_data, now, owner, operator) is Err,
        upgrade_authority_check(program_data, payer) is Ok ==> v.after_initialize(
            payer,
            program_data,
            now,
            owner,
            operator,
        ) == Err::<ProgramView, PusdError>(PusdError::AlreadyInitialized),
{
}

/// A second bootstrap after a successful one fails, whatever its arguments.
pub proof fn lemma_second_initialize_fails(
    v: ProgramView,
    first: (Address, Seq<u8>, i64, Address, Address),
    second: (Address, Seq<u8>, i64, Address, Address),
)
    requires
        v.after_initialize(first.0, first.1, first.2, first.3, first.4) is Ok,
    ensures
        v.after_initialize(first.0, first.1, first.2, first.3, first.4)->Ok_0.after_initialize(
            second.0,
            second.1,
            second.2,
            second.3,
            second.4,
        ) is Err,
{
    let w = v.after_initialize(first.0, first.1, first.2, first.3, first.4)->Ok_0;
    lemma_initialize_runs_once(w, second.0, second.1, second.2, second.3, second.4);
}

/// A mint to the zero identity never yields an issuance, and once the
/// caller's guard passes the error is `RecipientIsZeroAddress`.
pub proof fn lemma_zero_recipient_never_minted(
    v: ProgramView,
    caller: Address,
    role: Role,
    now: i64,
    mint: Address,
    recipient: Address,
    amount: u64,
)
    requires
        recipient.spec_is_zero(),
    ensures
        v.mint_call(caller, role, now, mint, recipient, amount) is Err,
        v.guard(caller, role, now) is Ok ==> v.mint_call(caller, role, now, mint, recipient, amount)
            == Err::<crate::model::TokenCall, PusdError>(PusdError::RecipientIsZeroAddress),
{
}

} // verus!
