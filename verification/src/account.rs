use vstd::prelude::*;

use crate::deserialize::{spec_record_ok, Account, AccountDeserialize, Discriminator};
use crate::error::ProgramError;

verus! {

/// A 32-byte address, either a program identity or an account address.
pub type Pubkey = [u8; 32];

/// The externally observable state of a runtime-managed account record: its
/// address, owning program, balance, byte buffer, the address at which the
/// buffer starts (alignment is checked against it), and the caller-visible
/// flags. The runtime owns the real record; values of this type carry the
/// facts the validation, access and lifecycle layers decide on.
#[derive(Clone, Debug)]
pub struct AccountInfo {
    /// The account's 32-byte address.
    pub key: Pubkey,
    /// Identity of the program that owns the account.
    pub owner: Pubkey,
    /// Balance in native value units.
    pub lamports: u64,
    /// The account's byte buffer.
    pub data: Vec<u8>,
    /// Address of the first byte of `data` in the runtime's memory.
    pub data_address: usize,
    /// Whether the caller cryptographically authorized this call.
    pub is_signer: bool,
    /// Whether the account may be written in this call.
    pub is_writable: bool,
    /// Whether the account holds an executable program.
    pub executable: bool,
}

/// Byte-for-byte address equality.
pub fn pubkey_eq(a: &Pubkey, b: &Pubkey) -> (r: bool)
    ensures
        r <==> a@ == b@,
{
    let mut i: usize = 0;
    while i < 32
        invariant
            i <= 32,
            forall|j: int| 0 <= j < i ==> a@[j] == b@[j],
        decreases 32 - i,
    {
        if a[i] != b[i] {
            return false;
        }
        i = i + 1;
    }
    proof {
        assert(a@ =~= b@);
    }
    true
}

impl AccountInfo {
    /// Length of the account's byte buffer.
    pub fn data_len(&self) -> (n: usize)
        ensures
            n == self.data@.len(),
    {
        self.data.len()
    }

    /// Whether the account's byte buffer is empty.
    pub fn data_is_empty(&self) -> (r: bool)
        ensures
            r <==> self.data@.len() == 0,
    {
        self.data.len() == 0
    }

    /// Whether `program` owns this account.
    pub fn is_owned_by(&self, program: &Pubkey) -> (r: bool)
        ensures
            r <==> self.owner@ == program@,
    {
        pubkey_eq(&self.owner, program)
    }

    /// Checked typed access to the account's record for a shared view:
    /// confirms that `program_id` owns the account before trusting the
    /// attacker-controllable tag byte, then decides the in-place cast.
    pub fn as_account<T: Discriminator + Account>(&self, program_id: &Pubkey) -> (r: Result<
        (),
        ProgramError,
    >)
        ensures
            r is Ok <==> (self.owner@ == program_id@ && spec_record_ok::<T>(
                self.data@,
                self.data_address as int,
            )),
            r is Err ==> r == Err::<(), ProgramError>(
                if self.owner@ != program_id@ {
                    ProgramError::InvalidAccountOwner
                } else {
                    ProgramError::InvalidAccountData
                },
            ),
    {
        if !self.is_owned_by(program_id) {
            return Err(ProgramError::InvalidAccountOwner);
        }
        <T as AccountDeserialize>::try_from_bytes(self.data.as_slice(), self.data_address)
    }

    /// Checked typed access to the account's record for an exclusive view:
    /// the same ownership-before-tag decision as `as_account`.
    pub fn as_account_mut<T: Discriminator + Account>(&self, program_id: &Pubkey) -> (r: Result<
        (),
        ProgramError,
    >)
        ensures
            r is Ok <==> (self.owner@ == program_id@ && spec_record_ok::<T>(
                self.data@,
                self.data_address as int,
            )),
            r is Err ==> r == Err::<(), ProgramError>(
                if self.owner@ != program_id@ {
                    ProgramError::InvalidAccountOwner
                } else {
                    ProgramError::InvalidAccountData
                },
            ),
    {
        if !self.is_owned_by(program_id) {
            return Err(ProgramError::InvalidAccountOwner);
        }
        <T as AccountDeserialize>::try_from_bytes_mut(self.data.as_slice(), self.data_address)
    }
}

} // verus!
