use vstd::prelude::*;

use crate::errors::PusdError;

verus! {

/// Number of bytes in an identity.
pub const ADDRESS_LEN: usize = 32;

/// An opaque 32-byte public identifier of a principal: a person, a contract
/// or a program.
#[derive(Clone, Copy, Debug)]
pub struct Address {
    pub bytes: [u8; 32],
}

impl Address {
    /// The identity as a sequence of bytes.
    pub open spec fn view(self) -> Seq<u8> {
        self.bytes@
    }

    /// Two identities with the same bytes are the same identity.
    pub proof fn lemma_view_injective(a: Address, b: Address)
        requires
            a@ == b@,
        ensures
            a == b,
    {
        assert(a.bytes =~= b.bytes);
    }

    /// The all-zero identity, which never names a principal.
    pub open spec fn spec_is_zero(self) -> bool {
        forall|i: int| 0 <= i < 32 ==> #[trigger] self.bytes[i] == 0
    }

    /// The all-zero identity.
    pub fn zero() -> (r: Address)
        ensures
            r.spec_is_zero(),
    {
        Address { bytes: [0u8; 32] }
    }

    /// Whether this is the all-zero identity.
    pub fn is_zero(&self) -> (r: bool)
        ensures
            r == self.spec_is_zero(),
    {
        let mut i: usize = 0;
        while i < ADDRESS_LEN
            invariant
                i <= 32,
                forall|j: int| 0 <= j < i ==> self.bytes[j] == 0,
            decreases 32 - i,
        {
            if self.bytes[i] != 0 {
                return false;
            }
            i = i + 1;
        }
        true
    }

    /// The identity's bytes in a vector.
    pub fn to_vec(&self) -> (r: Vec<u8>)
        ensures
            r@ == self@,
    {
        let mut r: Vec<u8> = Vec::new();
        let mut i: usize = 0;
        while i < ADDRESS_LEN
            invariant
                i <= 32,
                r@ == self@.subrange(0, i as int),
            decreases 32 - i,
        {
            r.push(self.bytes[i]);
            i = i + 1;
            proof {
                assert(r@ =~= self@.subrange(0, i as int));
            }
        }
        proof {
            assert(r@ =~= self@);
        }
        r
    }

    /// Whether two identities are the same.
    pub fn same(&self, other: &Address) -> (r: bool)
        ensures
            r == (*self == *other),
    {
        let mut i: usize = 0;
        while i < ADDRESS_LEN
            invariant
                i <= 32,
                forall|j: int| 0 <= j < i ==> self.bytes[j] == other.bytes[j],
            decreases 32 - i,
        {
            if self.bytes[i] != other.bytes[i] {
                return false;
            }
            i = i + 1;
        }
        proof {
            assert(self.bytes =~= other.bytes);
        }
        true
    }
}

impl PartialEq for Address {
    fn eq(&self, other: &Address) -> (r: bool) {
        self.same(other)
    }
}

impl vstd::std_specs::cmp::PartialEqSpecImpl for Address {
    open spec fn obeys_eq_spec() -> bool {
        true
    }

    open spec fn eq_spec(&self, other: &Address) -> bool {
        *self == *other
    }
}

impl Eq for Address {
}

/// The three mutually exclusive roles.
#[derive(Clone, Copy, Debug, PartialEq, Eq, Structural)]
pub enum Role {
    Owner,
    AuthorizedContract,
    Operator,
}

impl Role {
    /// Whether two roles are the same.
    pub fn same(&self, other: &Role) -> (r: bool)
        ensures
            r == (*self == *other),
    {
        match (self, other) {
            (Role::Owner, Role::Owner) => true,
            (Role::AuthorizedContract, Role::AuthorizedContract) => true,
            (Role::Operator, Role::Operator) => true,
            _ => false,
        }
    }
}

/// Seconds between the grant of a role through the standard path and the
/// moment the guards honour it.
pub const ROLE_ACTIVATION_DELAY: i64 = 86400;

/// The role record of one identity.
#[derive(Clone, Copy, Debug)]
pub struct UserRole {
    /// The identity that holds the role.
    pub user: Address,
    /// The role held.
    pub role: Role,
    /// The bump under which the record's address is derived from the identity.
    pub bump: u8,
    /// The time, in seconds since the epoch, from which the guards honour
    /// the role.
    pub role_active_time: i64,
}

impl UserRole {
    /// Stored size: discriminator, identity, role, bump and activation time.
    pub const LEN: usize = 8 + 32 + 1 + 1 + 8;

    /// Whether the role is honoured at time `now`.
    pub open spec fn spec_is_active(self, now: i64) -> bool {
        self.role_active_time <= now
    }

    /// Whether the role is honoured at time `now`.
    pub fn is_active(&self, now: i64) -> (r: bool)
        ensures
            r == self.spec_is_active(now),
    {
        self.role_active_time <= now
    }
}

/// The program-wide record that keeps bootstrap from running twice.
#[derive(Clone, Copy, Debug, PartialEq, Eq, Structural)]
pub struct ProgramState {
    /// False until bootstrap succeeds, then true for good.
    pub is_initialized: bool,
    /// The bump under which the record's address is derived.
    pub bump: u8,
}

impl ProgramState {
    /// Stored size: discriminator, flag and bump.
    pub const LEN: usize = 8 + 1 + 1;
}

/// Offset of the upgrade authority's option tag in the loader's
/// program-data record: a four-byte kind, then an eight-byte slot.
pub const AUTHORITY_TAG_OFFSET: usize = 12;

/// The shortest program-data record that holds an upgrade authority: the
/// tag and a 32-byte identity after it.
pub const PROGRAM_DATA_MIN_LEN: usize = 45;

/// The header of the loader's program-data record of this program.
#[derive(Clone, Copy, Debug)]
pub struct UpgradeableData {
    /// The slot at which the program was last deployed.
    pub slot: u64,
    /// Who may change the program's code, if anyone.
    pub upgrade_authority_address: Option<Address>,
}

/// The little-endian value of the eight bytes of `data` from `at`.
pub open spec fn le_u64_at(data: Seq<u8>, at: int) -> int {
    data[at] + 256 * data[at + 1] + 65536 * data[at + 2] + 16777216 * data[at + 3]
        + 4294967296 * data[at + 4] + 1099511627776 * data[at + 5] + 281474976710656 * data[at
        + 6] + 72057594037927936 * data[at + 7]
}

/// The upgrade authority that a program-data record names: the 32 bytes
/// after the tag, where the tag is 1.
pub open spec fn upgrade_authority_of(data: Seq<u8>) -> Option<Seq<u8>> {
    if data[AUTHORITY_TAG_OFFSET as int] == 1 {
        Some(data.subrange(AUTHORITY_TAG_OFFSET + 1, PROGRAM_DATA_MIN_LEN as int))
    } else {
        None
    }
}

/// The outcome of checking that `payer` is the upgrade authority named by
/// the program-data record `data`.
pub open spec fn upgrade_authority_check(data: Seq<u8>, payer: Address) -> Result<(), PusdError> {
    if data.len() < PROGRAM_DATA_MIN_LEN {
        Err(PusdError::InvalidProgramData)
    } else if upgrade_authority_of(data) != Some(payer@) {
        Err(PusdError::OnlyUpgradeAuthority)
    } else {
        Ok(())
    }
}

impl UpgradeableData {
    /// Reads the header of a program-data record; a record too short to hold
    /// an upgrade authority is malformed.
    pub fn from_program_data(data: &[u8]) -> (r: Result<UpgradeableData, PusdError>)
        ensures
            data@.len() < PROGRAM_DATA_MIN_LEN ==> r == Err::<UpgradeableData, PusdError>(
                PusdError::InvalidProgramData,
            ),
            data@.len() >= PROGRAM_DATA_MIN_LEN ==> (r matches Ok(h) && h.slot == le_u64_at(
                data@,
                4,
            ) && match h.upgrade_authority_address {
                Some(a) => upgrade_authority_of(data@) == Some(a@),
                None => upgrade_authority_of(data@) is None,
            }),
    {
        if data.len() < PROGRAM_DATA_MIN_LEN {
            return Err(PusdError::InvalidProgramData);
        }
        let slot: u64 = data[4] as u64 + 256 * (data[5] as u64) + 65536 * (data[6] as u64)
            + 16777216 * (data[7] as u64) + 4294967296 * (data[8] as u64) + 1099511627776 * (
        data[9] as u64) + 281474976710656 * (data[10] as u64) + 72057594037927936 * (
        data[11] as u64);
        let authority = if data[AUTHORITY_TAG_OFFSET] == 1 {
            let mut bytes = [0u8; 32];
            let mut i: usize = 0;
            while i < ADDRESS_LEN
                invariant
                    i <= 32,
                    data@.len() >= PROGRAM_DATA_MIN_LEN,
                    forall|j: int| 0 <= j < i ==> bytes[j] == data@[AUTHORITY_TAG_OFFSET + 1 + j],
                decreases 32 - i,
            {
                bytes[i] = data[AUTHORITY_TAG_OFFSET + 1 + i];
                i = i + 1;
            }
            let a = Address { bytes };
            proof {
                assert(a@ =~= data@.subrange(AUTHORITY_TAG_OFFSET + 1, PROGRAM_DATA_MIN_LEN as int));
            }
            Some(a)
        } else {
            None
        };
        Ok(UpgradeableData { slot, upgrade_authority_address: authority })
    }
}

/// Checks that `payer` is the upgrade authority that the program-data record
/// `data` names.
pub fn require_upgrade_authority(data: &[u8], payer: &Address) -> (r: Result<(), PusdError>)
    ensures
        r == upgrade_authority_check(data@, *payer),
{
    match UpgradeableData::from_program_data(data) {
        Err(e) => Err(e),
        Ok(header) => match header.upgrade_authority_address {
            Some(a) => {
                if a.same(payer) {
                    Ok(())
                } else {
                    proof {
                        if a@ == payer@ {
                            Address::lemma_view_injective(a, *payer);
                        }
                    }
                    Err(PusdError::OnlyUpgradeAuthority)
                }
            },
            None => Err(PusdError::OnlyUpgradeAuthority),
        },
    }
}

} // verus!
