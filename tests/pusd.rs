use anchor_lang::prelude::Pubkey;
use pusd_spl::errors::PusdError;
use pusd_spl::instructions::{
    add_role, burn, get_version, initialize, mint, mint_by_operator, mint_cpi, remove_role,
    require_not_initialized, require_valid_address, transfer_mint_authority_to_pda, AddRole,
    BurnTokens, Initialize, MintByCPI, MintByContract, MintByOperator, RemoveRole,
    TransferAuthority,
};
use pusd_spl::model::TokenCall;
use pusd_spl::pda::{mint_authority_address, program_state_address, user_role_address};
use pusd_spl::program::Program;
use pusd_spl::state::{
    require_upgrade_authority, Address, ProgramState, Role, UpgradeableData, UserRole,
    ROLE_ACTIVATION_DELAY,
};

fn addr(b: u8) -> Address {
    Address { bytes: [b; 32] }
}

fn program_id() -> Address {
    addr(200)
}

fn program_data(authority: Option<Address>) -> Vec<u8> {
    let mut data = vec![3u8, 0, 0, 0];
    data.extend_from_slice(&42u64.to_le_bytes());
    match authority {
        Some(a) => {
            data.push(1);
            data.extend_from_slice(&a.bytes);
        }
        None => {
            data.push(0);
            data.extend_from_slice(&[0u8; 32]);
        }
    }
    data
}

const DEPLOYER: u8 = 9;
const OWNER: u8 = 1;
const OPERATOR: u8 = 2;

fn bootstrapped(now: i64) -> Program {
    let mut p = Program::new(program_id()).unwrap();
    let ctx = Initialize {
        payer: addr(DEPLOYER),
        program_data: program_data(Some(addr(DEPLOYER))),
        now,
    };
    initialize(&mut p, &ctx, addr(OWNER), addr(OPERATOR)).unwrap();
    p
}

#[test]
fn bootstrap_then_delayed_operator_mint() {
    let mut p = bootstrapped(500);
    assert!(p.has_role(&addr(OWNER), Role::Owner));
    assert!(p.has_role(&addr(OPERATOR), Role::Operator));
    assert_eq!(p.require_role(&addr(OWNER), Role::Owner, 500), Ok(()));
    assert_eq!(p.require_role(&addr(OPERATOR), Role::Operator, 500), Ok(()));

    let new_operator = addr(3);
    add_role(&mut p, &AddRole { owner: addr(OWNER), now: 1000 }, new_operator, Role::Operator)
        .unwrap();
    let early = MintByOperator {
        operator: new_operator,
        mint: addr(50),
        recipient: addr(60),
        now: 1000 + 86399,
    };
    assert_eq!(mint_by_operator(&p, &early, 77).unwrap_err(), PusdError::RoleNotActiveYet);
    let on_time = MintByOperator { now: 1000 + 86400, ..early };
    match mint_by_operator(&p, &on_time, 77).unwrap() {
        TokenCall::MintTo { mint, to, authority, amount, .. } => {
            assert!(mint == addr(50));
            assert!(to == addr(60));
            assert!(authority == p.mint_authority());
            assert_eq!(amount, 77);
        }
        other => panic!("unexpected call {:?}", other),
    }
}

#[test]
fn non_deployer_cannot_initialize() {
    let mut p = Program::new(program_id()).unwrap();
    let ctx = Initialize {
        payer: addr(4),
        program_data: program_data(Some(addr(DEPLOYER))),
        now: 0,
    };
    assert_eq!(
        initialize(&mut p, &ctx, addr(OWNER), addr(OPERATOR)),
        Err(PusdError::OnlyUpgradeAuthority)
    );
    assert!(!p.program_state().is_initialized);
    assert!(p.role_of(&addr(OWNER)).is_none());
}

#[test]
fn handoff_moves_minting_to_derived_authority() {
    let p = bootstrapped(0);
    let human = addr(DEPLOYER);
    let ctx = TransferAuthority {
        mint: addr(50),
        current_authority: human,
        program_data: program_data(Some(human)),
    };
    match transfer_mint_authority_to_pda(&p, &ctx).unwrap() {
        TokenCall::SetMintAuthority { mint, current_authority, new_authority } => {
            assert!(mint == addr(50));
            assert!(current_authority == human);
            assert!(new_authority == p.mint_authority());
            assert!(new_authority != human);
        }
        other => panic!("unexpected call {:?}", other),
    }
    // Every issuance the program asks for is signed by the derived
    // authority, never by the human key that held the mint before.
    let call = mint_by_operator(
        &p,
        &MintByOperator { operator: addr(OPERATOR), mint: addr(50), recipient: addr(60), now: 0 },
        5,
    )
    .unwrap();
    match call {
        TokenCall::MintTo { authority, .. } => assert!(authority != human),
        other => panic!("unexpected call {:?}", other),
    }
}

#[test]
fn handoff_refused_to_non_deployer() {
    let p = bootstrapped(0);
    let ctx = TransferAuthority {
        mint: addr(50),
        current_authority: addr(8),
        program_data: program_data(Some(addr(DEPLOYER))),
    };
    assert_eq!(
        transfer_mint_authority_to_pda(&p, &ctx).unwrap_err(),
        PusdError::OnlyUpgradeAuthority
    );
    let short = TransferAuthority { program_data: vec![0u8; 44], ..ctx };
    assert_eq!(
        transfer_mint_authority_to_pda(&p, &short).unwrap_err(),
        PusdError::InvalidProgramData
    );
}

#[test]
fn second_initialize_fails_and_keeps_records() {
    let mut p = bootstrapped(10);
    let ctx = Initialize {
        payer: addr(DEPLOYER),
        program_data: program_data(Some(addr(DEPLOYER))),
        now: 20,
    };
    assert_eq!(
        initialize(&mut p, &ctx, addr(5), addr(6)),
        Err(PusdError::AlreadyInitialized)
    );
    assert!(p.role_of(&addr(5)).is_none());
    assert!(p.role_of(&addr(6)).is_none());
    let owner = p.role_of(&addr(OWNER)).unwrap();
    assert_eq!(owner.role, Role::Owner);
    assert_eq!(owner.role_active_time, 10);
    assert!(p.program_state().is_initialized);
}

#[test]
fn initialize_rejects_zero_identities() {
    let mut p = Program::new(program_id()).unwrap();
    let ctx = Initialize {
        payer: addr(DEPLOYER),
        program_data: program_data(Some(addr(DEPLOYER))),
        now: 0,
    };
    assert_eq!(
        initialize(&mut p, &ctx, Address::zero(), addr(OPERATOR)),
        Err(PusdError::InvalidAddress)
    );
    assert_eq!(
        initialize(&mut p, &ctx, addr(OWNER), Address::zero()),
        Err(PusdError::InvalidAddress)
    );
    assert!(!p.program_state().is_initialized);
}

#[test]
fn initialize_checks_program_data() {
    let mut p = Program::new(program_id()).unwrap();
    let short = Initialize { payer: addr(DEPLOYER), program_data: vec![0u8; 44], now: 0 };
    assert_eq!(
        initialize(&mut p, &short, addr(OWNER), addr(OPERATOR)),
        Err(PusdError::InvalidProgramData)
    );
    let no_authority = Initialize { payer: addr(DEPLOYER), program_data: program_data(None), now: 0 };
    assert_eq!(
        initialize(&mut p, &no_authority, addr(OWNER), addr(OPERATOR)),
        Err(PusdError::OnlyUpgradeAuthority)
    );
}

#[test]
fn add_role_never_overwrites() {
    let mut p = bootstrapped(0);
    let ctx = AddRole { owner: addr(OWNER), now: 100 };
    assert_eq!(
        add_role(&mut p, &ctx, addr(OPERATOR), Role::Owner),
        Err(PusdError::RoleAlreadyAssigned)
    );
    assert_eq!(p.role_of(&addr(OPERATOR)).unwrap().role, Role::Operator);
    add_role(&mut p, &ctx, addr(3), Role::AuthorizedContract).unwrap();
    assert_eq!(
        add_role(&mut p, &ctx, addr(3), Role::Operator),
        Err(PusdError::RoleAlreadyAssigned)
    );
    let record = p.role_of(&addr(3)).unwrap();
    assert_eq!(record.role, Role::AuthorizedContract);
    assert_eq!(record.role_active_time, 100 + 86400);
}

#[test]
fn add_role_needs_owner_and_real_identity() {
    let mut p = bootstrapped(0);
    assert_eq!(
        add_role(&mut p, &AddRole { owner: addr(OPERATOR), now: 0 }, addr(3), Role::Operator),
        Err(PusdError::Unauthorized)
    );
    assert_eq!(
        add_role(&mut p, &AddRole { owner: addr(7), now: 0 }, addr(3), Role::Operator),
        Err(PusdError::Unauthorized)
    );
    assert_eq!(
        add_role(&mut p, &AddRole { owner: addr(OWNER), now: 0 }, Address::zero(), Role::Operator),
        Err(PusdError::InvalidAddress)
    );
    assert!(p.role_of(&addr(3)).is_none());
}

#[test]
fn add_role_before_initialize_is_unauthorized() {
    let mut p = Program::new(program_id()).unwrap();
    assert_eq!(
        add_role(&mut p, &AddRole { owner: addr(OWNER), now: 0 }, addr(3), Role::Operator),
        Err(PusdError::Unauthorized)
    );
}

#[test]
fn delay_boundary_for_every_guard() {
    let mut p = bootstrapped(0);
    let t: i64 = 5000;
    add_role(&mut p, &AddRole { owner: addr(OWNER), now: t }, addr(3), Role::AuthorizedContract)
        .unwrap();
    for now in [t, t + 1, t + ROLE_ACTIVATION_DELAY - 1] {
        assert_eq!(
            p.require_role(&addr(3), Role::AuthorizedContract, now),
            Err(PusdError::RoleNotActiveYet)
        );
        assert_eq!(p.require_role(&addr(3), Role::Owner, now), Err(PusdError::Unauthorized));
        assert_eq!(p.require_role(&addr(3), Role::Operator, now), Err(PusdError::Unauthorized));
        let ctx = MintByContract {
            authorized_contract: addr(3),
            mint: addr(50),
            recipient: addr(60),
            now,
        };
        assert_eq!(mint(&p, &ctx, 1).unwrap_err(), PusdError::RoleNotActiveYet);
    }
    let ctx = MintByContract {
        authorized_contract: addr(3),
        mint: addr(50),
        recipient: addr(60),
        now: t + ROLE_ACTIVATION_DELAY,
    };
    assert!(mint(&p, &ctx, 1).is_ok());
}

#[test]
fn zero_recipient_is_refused() {
    let mut p = bootstrapped(0);
    add_role(&mut p, &AddRole { owner: addr(OWNER), now: 0 }, addr(3), Role::AuthorizedContract)
        .unwrap();
    let ctx = MintByContract {
        authorized_contract: addr(3),
        mint: addr(50),
        recipient: Address::zero(),
        now: ROLE_ACTIVATION_DELAY,
    };
    assert_eq!(mint(&p, &ctx, 1).unwrap_err(), PusdError::RecipientIsZeroAddress);
    let op = MintByOperator {
        operator: addr(OPERATOR),
        mint: addr(50),
        recipient: Address::zero(),
        now: 0,
    };
    assert_eq!(mint_by_operator(&p, &op, 1).unwrap_err(), PusdError::RecipientIsZeroAddress);
}

#[test]
fn mint_requires_the_contract_role() {
    let p = bootstrapped(0);
    let ctx = MintByContract {
        authorized_contract: addr(OPERATOR),
        mint: addr(50),
        recipient: addr(60),
        now: 0,
    };
    assert_eq!(mint(&p, &ctx, 1).unwrap_err(), PusdError::Unauthorized);
    let op = MintByOperator { operator: addr(OWNER), mint: addr(50), recipient: addr(60), now: 0 };
    assert_eq!(mint_by_operator(&p, &op, 1).unwrap_err(), PusdError::Unauthorized);
}

#[test]
fn mint_cpi_by_authorized_program() {
    let mut p = bootstrapped(0);
    add_role(&mut p, &AddRole { owner: addr(OWNER), now: 0 }, addr(30), Role::AuthorizedContract)
        .unwrap();
    let ctx = MintByCPI { caller_program: addr(30), mint: addr(50), recipient: addr(61), now: 10 };
    assert_eq!(mint_cpi(&p, &ctx, 3).unwrap_err(), PusdError::RoleNotActiveYet);
    let later = MintByCPI { now: ROLE_ACTIVATION_DELAY, ..ctx };
    match mint_cpi(&p, &later, 3).unwrap() {
        TokenCall::MintTo { to, amount, authority, authority_bump, .. } => {
            assert!(to == addr(61));
            assert_eq!(amount, 3);
            let (a, b) = mint_authority_address(&program_id()).unwrap();
            assert!(authority == a);
            assert_eq!(authority_bump, b);
        }
        other => panic!("unexpected call {:?}", other),
    }
    let stranger = MintByCPI { caller_program: addr(31), ..later };
    assert_eq!(mint_cpi(&p, &stranger, 3).unwrap_err(), PusdError::Unauthorized);
}

#[test]
fn remove_role_by_active_owner() {
    let mut p = bootstrapped(0);
    add_role(&mut p, &AddRole { owner: addr(OWNER), now: 0 }, addr(3), Role::Operator).unwrap();
    let removed = remove_role(&mut p, &RemoveRole { owner: addr(OWNER), user: addr(3), now: 1 })
        .unwrap();
    assert!(removed.user == addr(3));
    assert_eq!(removed.role, Role::Operator);
    assert!(p.role_of(&addr(3)).is_none());
    assert_eq!(
        remove_role(&mut p, &RemoveRole { owner: addr(OWNER), user: addr(3), now: 1 })
            .unwrap_err(),
        PusdError::RoleNotFound
    );
    assert_eq!(
        remove_role(&mut p, &RemoveRole { owner: addr(OPERATOR), user: addr(OWNER), now: 1 })
            .unwrap_err(),
        PusdError::Unauthorized
    );
}

#[test]
fn remove_role_waits_for_new_owner() {
    let mut p = bootstrapped(0);
    add_role(&mut p, &AddRole { owner: addr(OWNER), now: 0 }, addr(4), Role::Owner).unwrap();
    assert_eq!(
        remove_role(&mut p, &RemoveRole { owner: addr(4), user: addr(OPERATOR), now: 10 })
            .unwrap_err(),
        PusdError::RoleNotActiveYet
    );
    assert!(p.has_role(&addr(OPERATOR), Role::Operator));
    remove_role(
        &mut p,
        &RemoveRole { owner: addr(4), user: addr(OPERATOR), now: ROLE_ACTIVATION_DELAY },
    )
    .unwrap();
    assert!(!p.has_role(&addr(OPERATOR), Role::Operator));
}

#[test]
fn interleaved_grants_keep_one_record_each() {
    let mut p = bootstrapped(0);
    let ctx = AddRole { owner: addr(OWNER), now: 0 };
    add_role(&mut p, &ctx, addr(3), Role::Operator).unwrap();
    add_role(&mut p, &ctx, addr(4), Role::AuthorizedContract).unwrap();
    remove_role(&mut p, &RemoveRole { owner: addr(OWNER), user: addr(3), now: 0 }).unwrap();
    add_role(&mut p, &ctx, addr(3), Role::AuthorizedContract).unwrap();
    assert_eq!(add_role(&mut p, &ctx, addr(3), Role::Operator), Err(PusdError::RoleAlreadyAssigned));
    remove_role(&mut p, &RemoveRole { owner: addr(OWNER), user: addr(3), now: 0 }).unwrap();
    assert!(p.role_of(&addr(3)).is_none());
    assert_eq!(
        remove_role(&mut p, &RemoveRole { owner: addr(OWNER), user: addr(3), now: 0 })
            .unwrap_err(),
        PusdError::RoleNotFound
    );
    assert_eq!(p.role_of(&addr(4)).unwrap().role, Role::AuthorizedContract);
    assert!(p.has_role(&addr(OPERATOR), Role::Operator));
}

#[test]
fn owner_and_operator_may_coincide() {
    let mut p = Program::new(program_id()).unwrap();
    let ctx = Initialize {
        payer: addr(DEPLOYER),
        program_data: program_data(Some(addr(DEPLOYER))),
        now: 0,
    };
    initialize(&mut p, &ctx, addr(OWNER), addr(OWNER)).unwrap();
    assert!(p.has_role(&addr(OWNER), Role::Operator));
    assert!(!p.has_role(&addr(OWNER), Role::Owner));
}

#[test]
fn burn_by_account_owner() {
    let ctx = BurnTokens {
        owner: addr(5),
        mint: addr(50),
        token_account: addr(70),
        token_account_owner: addr(5),
    };
    match burn(&ctx, 12).unwrap() {
        TokenCall::Burn { mint, from, authority, amount } => {
            assert!(mint == addr(50));
            assert!(from == addr(70));
            assert!(authority == addr(5));
            assert_eq!(amount, 12);
        }
        other => panic!("unexpected call {:?}", other),
    }
    let foreign = BurnTokens { token_account_owner: addr(6), ..ctx };
    assert_eq!(burn(&foreign, 12).unwrap_err(), PusdError::Unauthorized);
}

#[test]
fn derived_addresses_match_the_runtime() {
    let id = Pubkey::new_from_array(program_id().bytes);
    let (authority, bump) = mint_authority_address(&program_id()).unwrap();
    let (expected, expected_bump) = Pubkey::find_program_address(&[b"mint_authority"], &id);
    assert_eq!(authority.bytes, expected.to_bytes());
    assert_eq!(bump, expected_bump);
    assert!(authority != program_id());

    let (state, state_bump) = program_state_address(&program_id()).unwrap();
    let (expected, expected_bump) = Pubkey::find_program_address(&[b"program_state"], &id);
    assert_eq!(state.bytes, expected.to_bytes());
    assert_eq!(state_bump, expected_bump);
    let p = Program::new(program_id()).unwrap();
    assert_eq!(p.program_state(), ProgramState { is_initialized: false, bump: state_bump });

    let user = addr(OWNER);
    let (record, record_bump) = user_role_address(&user, &program_id()).unwrap();
    let (expected, expected_bump) =
        Pubkey::find_program_address(&[b"user_role", user.bytes.as_ref()], &id);
    assert_eq!(record.bytes, expected.to_bytes());
    assert_eq!(record_bump, expected_bump);
    assert!(record != user);

    let p = bootstrapped(0);
    let owner: UserRole = p.role_of(&user).unwrap();
    assert_eq!(owner.bump, expected_bump);
}

#[test]
fn program_data_header() {
    let data = program_data(Some(addr(DEPLOYER)));
    let header = UpgradeableData::from_program_data(&data).unwrap();
    assert_eq!(header.slot, 42);
    assert!(header.upgrade_authority_address.unwrap() == addr(DEPLOYER));
    let mut big = data.clone();
    big[4..12].copy_from_slice(&0x0102030405060708u64.to_le_bytes());
    assert_eq!(UpgradeableData::from_program_data(&big).unwrap().slot, 0x0102030405060708);
    let none = UpgradeableData::from_program_data(&program_data(None)).unwrap();
    assert!(none.upgrade_authority_address.is_none());
    assert_eq!(
        UpgradeableData::from_program_data(&data[..44]).unwrap_err(),
        PusdError::InvalidProgramData
    );
    assert_eq!(require_upgrade_authority(&data, &addr(DEPLOYER)), Ok(()));
    assert_eq!(
        require_upgrade_authority(&data, &addr(1)),
        Err(PusdError::OnlyUpgradeAuthority)
    );
    let mut longer = data.clone();
    longer.extend_from_slice(&[7u8; 100]);
    assert_eq!(require_upgrade_authority(&longer, &addr(DEPLOYER)), Ok(()));
}

#[test]
fn small_guards() {
    assert_eq!(
        require_not_initialized(&ProgramState { is_initialized: true, bump: 0 }),
        Err(PusdError::AlreadyInitialized)
    );
    assert_eq!(require_not_initialized(&ProgramState { is_initialized: false, bump: 0 }), Ok(()));
    assert_eq!(require_valid_address(&Address::zero()), Err(PusdError::InvalidAddress));
    assert_eq!(require_valid_address(&addr(1)), Ok(()));
    let mut almost = [0u8; 32];
    almost[31] = 1;
    assert!(!Address { bytes: almost }.is_zero());
    assert!(Address::zero().is_zero());
}

#[test]
fn version_and_messages() {
    assert_eq!(get_version(), "1.0.0");
    assert_eq!(PusdError::RoleNotActiveYet.message(), "Role not active yet");
    assert_eq!(PusdError::GrantRoleFailed.message(), "Grant role failed");
    assert_eq!(UserRole::LEN, 50);
    assert_eq!(ProgramState::LEN, 10);
}

#[test]
fn restore_from_stored_records() {
    let live = bootstrapped(7);
    let owner = live.role_of(&addr(OWNER)).unwrap();
    let operator = live.role_of(&addr(OPERATOR)).unwrap();
    let state = live.program_state();

    let p = Program::restore(program_id(), state, vec![owner, operator]).unwrap();
    assert!(p.has_role(&addr(OWNER), Role::Owner));
    assert!(p.has_role(&addr(OPERATOR), Role::Operator));
    assert!(p.program_state().is_initialized);

    assert!(Program::restore(program_id(), state, vec![owner, owner]).is_none());
    let fresh = ProgramState { is_initialized: false, bump: state.bump };
    assert!(Program::restore(program_id(), fresh, vec![owner]).is_none());
    assert!(Program::restore(program_id(), fresh, vec![]).is_some());
    let wrong_bump = UserRole { bump: owner.bump.wrapping_add(1), ..owner };
    assert!(Program::restore(program_id(), state, vec![wrong_bump]).is_none());
    let zero = UserRole { user: Address::zero(), ..owner };
    assert!(Program::restore(program_id(), state, vec![zero]).is_none());
}
