//! One program instance: its role records, its bootstrap flag, and the
//! operations that read and change them.
use vstd::prelude::*;

use crate::errors::PusdError;
use crate::model::{derived_bump, ProgramView};
use crate::pda::{
    mint_authority_address,
    mint_authority_seeds,
    program_address_of,
    program_state_address,
    program_state_seeds,
    user_role_address,
    user_role_seeds,
};
use crate::state::{Address, ProgramState, Role, UserRole};

verus! {

/// The state of one program instance. The role records are kept in a
/// vector, at most one per identity.
pub struct Program {
    program_id: Address,
    mint_authority: Address,
    mint_authority_bump: u8,
    state: ProgramState,
    records: Vec<UserRole>,
    roles: Ghost<Map<Address, UserRole>>,
}

impl View for Program {
    type V = ProgramView;

    closed spec fn view(&self) -> ProgramView {
        ProgramView {
            program_id: self.program_id,
            mint_authority: self.mint_authority,
            mint_authority_bump: self.mint_authority_bump,
            state: self.state,
            roles: self.roles@,
        }
    }
}

impl Program {
    /// The stored records, in storage order.
    pub closed spec fn stored(&self) -> Seq<UserRole> {
        self.records@
    }

    /// The vector holds exactly the records of the map, one per identity.
    closed spec fn store_ok(&self) -> bool {
        &&& forall|i: int|
            0 <= i < self.records@.len() ==> {
                &&& #[trigger] self.roles@.contains_key(self.records@[i].user)
                &&& self.roles@[self.records@[i].user] == self.records@[i]
            }
        &&& forall|a: Address| #[trigger]
            self.roles@.contains_key(a) ==> exists|i: int|
                0 <= i < self.records@.len() && #[trigger] self.records@[i].user == a
        &&& forall|i: int, j: int|
            0 <= i < self.records@.len() && 0 <= j < self.records@.len() && i != j ==> (
            #[trigger] self.records@[i]).user != (#[trigger] self.records@[j]).user
    }

    /// Well-formedness: the store is consistent and the state invariant holds.
    pub closed spec fn wf(&self) -> bool {
        &&& self.store_ok()
        &&& self@.inv()
    }

    /// Every well-formed program satisfies the state invariant.
    pub proof fn lemma_inv(&self)
        requires
            self.wf(),
        ensures
            self@.inv(),
    {
    }

    /// At most one record is stored per identity, and the stored records are
    /// exactly those of the view. Every operation keeps the program
    /// well-formed, so this holds after any sequence of grants, revocations
    /// and bootstraps.
    pub proof fn lemma_one_record_per_identity(&self)
        requires
            self.wf(),
        ensures
            forall|i: int, j: int|
                0 <= i < self.stored().len() && 0 <= j < self.stored().len()
                    && (#[trigger] self.stored()[i]).user == (#[trigger] self.stored()[j]).user
                    ==> i == j,
            forall|i: int|
                0 <= i < self.stored().len() ==> self@.roles[(#[trigger] self.stored()[i]).user]
                    == self.stored()[i],
            forall|a: Address|
                #[trigger] self@.roles.contains_key(a) ==> exists|i: int|
                    0 <= i < self.stored().len() && #[trigger] self.stored()[i].user == a,
    {
        assert forall|i: int|
            0 <= i < self.stored().len() implies self@.roles[(#[trigger] self.stored()[i]).user]
            == self.stored()[i] by {
            assert(self.roles@.contains_key(self.records@[i].user));
        }
    }

    /// A fresh instance of the program `program_id`: not initialized, with no
    /// role records. There is none where the mint authority or the
    /// program-state address cannot be derived.
    pub fn new(program_id: Address) -> (r: Option<Program>)
        ensures
            r is Some <==> (program_address_of(mint_authority_seeds(), program_id@) is Some
                && program_address_of(program_state_seeds(), program_id@) is Some),
            r matches Some(p) ==> {
                &&& p.wf()
                &&& p@.program_id == program_id
                &&& program_address_of(mint_authority_seeds(), program_id@) == Some(
                    (p@.mint_authority@, p@.mint_authority_bump),
                )
                &&& derived_bump(program_state_seeds(), program_id) == Some(p@.state.bump)
                &&& !p@.state.is_initialized
                &&& p@.roles == Map::<Address, UserRole>::empty()
            },
    {
        let authority = mint_authority_address(&program_id);
        let state_address = program_state_address(&program_id);
        match (authority, state_address) {
            (Some((mint_authority, mint_authority_bump)), Some((_, state_bump))) => {
                let p = Program {
                    program_id,
                    mint_authority,
                    mint_authority_bump,
                    state: ProgramState { is_initialized: false, bump: state_bump },
                    records: Vec::new(),
                    roles: Ghost(Map::empty()),
                };
                proof {
                    assert(p@.roles.dom() =~= Set::<Address>::empty());
                }
                Some(p)
            },
            _ => None,
        }
    }

    /// Whether `records`, with the bootstrap record `state`, can be the
    /// stored state of the program `program_id`: both derived addresses
    /// exist and `state` carries its bump, records exist only after
    /// bootstrap, each record fits, and no identity has two.
    pub open spec fn restorable(program_id: Address, state: ProgramState, records: Seq<UserRole>) -> bool {
        &&& program_address_of(mint_authority_seeds(), program_id@) is Some
        &&& derived_bump(program_state_seeds(), program_id) == Some(state.bump)
        &&& !state.is_initialized ==> records.len() == 0
        &&& forall|i: int|
            0 <= i < records.len() ==> {
                &&& !(#[trigger] records[i]).user.spec_is_zero()
                &&& derived_bump(user_role_seeds(records[i].user), program_id) == Some(
                    records[i].bump,
                )
            }
        &&& forall|i: int, j: int|
            0 <= i < j < records.len() ==> (#[trigger] records[i]).user != (
            #[trigger] records[j]).user
    }

    /// Rebuilds the program `program_id` from the records the runtime
    /// stores: the bootstrap record and the role records. There is none
    /// where those records cannot be the program's state.
    pub fn restore(program_id: Address, state: ProgramState, records: Vec<UserRole>) -> (r: Option<
        Program,
    >)
        ensures
            r is Some <==> Program::restorable(program_id, state, records@),
            r matches Some(p) ==> {
                &&& p.wf()
                &&& p@.program_id == program_id
                &&& p@.state == state
                &&& forall|i: int|
                    0 <= i < records@.len() ==> #[trigger] p@.roles.contains_key(records@[i].user)
                        && p@.roles[records@[i].user] == records@[i]
                &&& forall|a: Address| #[trigger]
                    p@.roles.contains_key(a) ==> exists|i: int|
                        0 <= i < records@.len() && #[trigger] records@[i].user == a
            },
    {
        let mut p = match Program::new(program_id) {
            Some(p) => p,
            None => {
                return None;
            },
        };
        if p.state.bump != state.bump {
            return None;
        }
        if !state.is_initialized && records.len() > 0 {
            return None;
        }
        p.state = state;
        let mut i: usize = 0;
        while i < records.len()
            invariant
                p.wf(),
                p@.program_id == program_id,
                p@.state == state,
                Program::restorable(program_id, state, records@.subrange(0, i as int)),
                state.is_initialized || records@.len() == 0,
                i <= records@.len(),
                forall|k: int|
                    0 <= k < i ==> #[trigger] p@.roles.contains_key(records@[k].user)
                        && p@.roles[records@[k].user] == records@[k],
                forall|a: Address| #[trigger]
                    p@.roles.contains_key(a) ==> exists|k: int|
                        0 <= k < i && #[trigger] records@[k].user == a,
            decreases records@.len() - i,
        {
            let record = records[i];
            assert(record == records@[i as int]);
            let fits = match user_role_address(&record.user, &program_id) {
                Some((_, bump)) => bump == record.bump,
                None => false,
            };
            if record.user.is_zero() || !fits {
                proof {
                    assert(!(!records@[i as int].user.spec_is_zero() && derived_bump(
                        user_role_seeds(records@[i as int].user),
                        program_id,
                    ) == Some(records@[i as int].bump)));
                }
                return None;
            }
            if let Some(j) = p.find(&record.user) {
                proof {
                    assert(p.roles@.contains_key(p.records@[j as int].user));
                    let k = choose|k: int| 0 <= k < i && #[trigger] records@[k].user == record.user;
                    assert(records@[k].user == records@[i as int].user);
                }
                return None;
            }
            let ghost before = p@.roles;
            p.put_record(record);
            i = i + 1;
            proof {
                let prefix = records@.subrange(0, i as int);
                assert forall|a: int, b: int| 0 <= a < b < prefix.len() implies (
                #[trigger] prefix[a]).user != (#[trigger] prefix[b]).user by {
                    if b == i - 1 {
                        assert(before.contains_key(records@[a].user));
                    } else {
                        assert(records@.subrange(0, i - 1)[a] == prefix[a]);
                        assert(records@.subrange(0, i - 1)[b] == prefix[b]);
                    }
                }
                assert forall|k: int| 0 <= k < prefix.len() implies {
                    &&& !(#[trigger] prefix[k]).user.spec_is_zero()
                    &&& derived_bump(user_role_seeds(prefix[k].user), program_id) == Some(
                        prefix[k].bump,
                    )
                } by {
                    if k < i - 1 {
                        assert(records@.subrange(0, i - 1)[k] == prefix[k]);
                    }
                }
                assert forall|k: int|
                    0 <= k < i implies #[trigger] p@.roles.contains_key(records@[k].user)
                        && p@.roles[records@[k].user] == records@[k] by {
                    if k < i - 1 {
                        assert(before.contains_key(records@[k].user));
                    }
                }
                assert forall|a: Address| #[trigger]
                    p@.roles.contains_key(a) implies exists|k: int|
                        0 <= k < i && #[trigger] records@[k].user == a by {
                    if a == record.user {
                        assert(records@[i - 1].user == a);
                    } else {
                        assert(before.contains_key(a));
                    }
                }
            }
        }
        proof {
            assert(records@.subrange(0, i as int) =~= records@);
        }
        Some(p)
    }

    /// The id of the program.
    pub fn program_id(&self) -> (r: Address)
        ensures
            r == self@.program_id,
    {
        self.program_id
    }

    /// The derived identity that signs issuance.
    pub fn mint_authority(&self) -> (r: Address)
        ensures
            r == self@.mint_authority,
    {
        self.mint_authority
    }

    /// The derived mint authority with its bump, which sign issuance.
    pub fn mint_authority_signer(&self) -> (r: (Address, u8))
        ensures
            r == (self@.mint_authority, self@.mint_authority_bump),
    {
        (self.mint_authority, self.mint_authority_bump)
    }

    /// The bootstrap record.
    pub fn program_state(&self) -> (r: ProgramState)
        ensures
            r == self@.state,
    {
        self.state
    }

    /// Marks the program initialized and stores the first two records.
    pub(crate) fn bootstrap(&mut self, owner: UserRole, operator: UserRole)
        requires
            old(self).wf(),
            !old(self)@.state.is_initialized,
            old(self)@.record_fits(owner),
            old(self)@.record_fits(operator),
        ensures
            final(self).wf(),
            final(self)@ == old(self)@.initialized().with_roles(
                old(self)@.roles.insert(owner.user, owner).insert(operator.user, operator),
            ),
    {
        self.state = ProgramState { is_initialized: true, bump: self.state.bump };
        self.put_record(owner);
        self.put_record(operator);
    }

    /// Stores `record` for an identity that has none, once the program is
    /// initialized.
    pub(crate) fn grant(&mut self, record: UserRole)
        requires
            old(self).wf(),
            old(self)@.state.is_initialized,
            old(self)@.record_fits(record),
        ensures
            final(self).wf(),
            final(self)@ == old(self)@.with_roles(old(self)@.roles.insert(record.user, record)),
    {
        self.put_record(record);
    }

    /// Deletes the record of `user` and returns it, if there is one.
    pub(crate) fn revoke(&mut self, user: &Address) -> (r: Option<UserRole>)
        requires
            old(self).wf(),
        ensures
            final(self).wf(),
            match r {
                Some(record) => {
                    &&& old(self)@.roles.contains_key(*user)
                    &&& record == old(self)@.roles[*user]
                    &&& final(self)@ == old(self)@.with_roles(old(self)@.roles.remove(*user))
                },
                None => !old(self)@.roles.contains_key(*user) && final(self)@ == old(self)@,
            },
    {
        match self.find(user) {
            Some(i) => {
                assert(self.roles@.contains_key(self.records@[i as int].user));
                let record = self.take_record(i);
                Some(record)
            },
            None => None,
        }
    }

    /// Where the record of `user` is stored, if it has one.
    fn find(&self, user: &Address) -> (r: Option<usize>)
        requires
            self.store_ok(),
        ensures
            match r {
                Some(i) => i < self.records@.len() && self.records@[i as int].user == *user,
                None => !self@.roles.contains_key(*user),
            },
    {
        let mut i: usize = 0;
        while i < self.records.len()
            invariant
                i <= self.records@.len(),
                forall|j: int| 0 <= j < i ==> (#[trigger] self.records@[j]).user != *user,
            decreases self.records@.len() - i,
        {
            if self.records[i].user.same(user) {
                return Some(i);
            }
            i = i + 1;
        }
        None
    }

    /// The record of `user`, if it has one.
    pub fn role_of(&self, user: &Address) -> (r: Option<UserRole>)
        requires
            self.wf(),
        ensures
            match r {
                Some(record) => self@.roles.contains_key(*user) && self@.roles[*user] == record,
                None => !self@.roles.contains_key(*user),
            },
    {
        match self.find(user) {
            Some(i) => {
                assert(self.roles@.contains_key(self.records@[i as int].user));
                Some(self.records[i])
            },
            None => None,
        }
    }

    /// Whether `user` has a record that names `role`, active or not.
    pub fn has_role(&self, user: &Address, role: Role) -> (r: bool)
        requires
            self.wf(),
        ensures
            r == self@.spec_has_role(*user, role),
    {
        match self.role_of(user) {
            Some(record) => record.role.same(&role),
            None => false,
        }
    }

    /// The guard of the role-gated operations: `user` must hold `role`, and
    /// the role must be active at `now`.
    pub fn require_role(&self, user: &Address, role: Role, now: i64) -> (r: Result<(), PusdError>)
        requires
            self.wf(),
        ensures
            r == self@.guard(*user, role, now),
    {
        match self.role_of(user) {
            None => Err(PusdError::Unauthorized),
            Some(record) => {
                if !record.role.same(&role) {
                    Err(PusdError::Unauthorized)
                } else if !record.is_active(now) {
                    Err(PusdError::RoleNotActiveYet)
                } else {
                    Ok(())
                }
            },
        }
    }

    /// Stores `record` as the record of its identity, in place of any
    /// record that identity had.
    fn put_record(&mut self, record: UserRole)
        requires
            old(self).store_ok(),
        ensures
            final(self).store_ok(),
            final(self)@ == old(self)@.with_roles(old(self)@.roles.insert(record.user, record)),
    {
        match self.find(&record.user) {
            Some(i) => {
                self.records.set(i, record);
                self.roles = Ghost(self.roles@.insert(record.user, record));
                proof {
                    let ghost old_records = old(self).records@;
                    assert forall|j: int| 0 <= j < self.records@.len() && j != i implies (
                    #[trigger] self.records@[j]).user != record.user by {
                        assert(old_records[j].user != old_records[i as int].user);
                    }
                    assert forall|a: Address| #[trigger]
                        self.roles@.contains_key(a) implies exists|k: int|
                        0 <= k < self.records@.len() && #[trigger] self.records@[k].user == a by {
                        if a == record.user {
                            assert(self.records@[i as int].user == a);
                        } else {
                            let k = choose|k: int|
                                0 <= k < old_records.len() && #[trigger] old_records[k].user == a;
                            assert(self.records@[k].user == a);
                        }
                    }
                }
            },
            None => {
                self.records.push(record);
                self.roles = Ghost(self.roles@.insert(record.user, record));
                proof {
                    let ghost old_records = old(self).records@;
                    let n = old_records.len() as int;
                    assert forall|j: int| 0 <= j < n implies (#[trigger] self.records@[j]).user
                        != record.user by {
                        assert(old(self).roles@.contains_key(old_records[j].user));
                    }
                    assert forall|a: Address| #[trigger]
                        self.roles@.contains_key(a) implies exists|k: int|
                        0 <= k < self.records@.len() && #[trigger] self.records@[k].user == a by {
                        if a == record.user {
                            assert(self.records@[n].user == a);
                        } else {
                            let k = choose|k: int|
                                0 <= k < old_records.len() && #[trigger] old_records[k].user == a;
                            assert(self.records@[k].user == a);
                        }
                    }
                }
            },
        }
    }

    /// Deletes the record stored at `i` and returns it.
    fn take_record(&mut self, i: usize) -> (r: UserRole)
        requires
            old(self).store_ok(),
            i < old(self).records@.len(),
        ensures
            final(self).store_ok(),
            r == old(self).records@[i as int],
            final(self)@ == old(self)@.with_roles(old(self)@.roles.remove(r.user)),
    {
        let record = self.records.remove(i);
        self.roles = Ghost(self.roles@.remove(record.user));
        proof {
            let ghost old_records = old(self).records@;
            let ii = i as int;
            assert forall|k: int| 0 <= k < self.records@.len() implies {
                &&& #[trigger] self.roles@.contains_key(self.records@[k].user)
                &&& self.roles@[self.records@[k].user] == self.records@[k]
            } by {
                let j = if k < ii { k } else { k + 1 };
                assert(self.records@[k] == old_records[j]);
                assert(old_records[j].user != old_records[ii].user);
            }
            assert forall|a: Address| #[trigger]
                self.roles@.contains_key(a) implies exists|k: int|
                0 <= k < self.records@.len() && #[trigger] self.records@[k].user == a by {
                let j = choose|j: int| 0 <= j < old_records.len() && #[trigger] old_records[j].user == a;
                assert(j != ii);
                if j < ii {
                    assert(self.records@[j].user == a);
                } else {
                    assert(self.records@[j - 1].user == a);
                }
            }
            assert forall|k: int, l: int|
                0 <= k < self.records@.len() && 0 <= l < self.records@.len() && k != l implies (
            #[trigger] self.records@[k]).user != (#[trigger] self.records@[l]).user by {
                let jk = if k < ii { k } else { k + 1 };
                let jl = if l < ii { l } else { l + 1 };
                assert(self.records@[k] == old_records[jk]);
                assert(self.records@[l] == old_records[jl]);
            }
        }
        record
    }
}

} // verus!
