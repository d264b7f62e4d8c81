use vstd::prelude::*;

use crate::account::{AccountInfo, Pubkey};
use crate::consts::{EMIT_EVENT_DISCRIMINATOR, MAX_CPI_INSTRUCTION_DATA_LEN, SYSTEM_PROGRAM_ID};
use crate::error::ProgramError;

verus! {

/// One call into the host's native account-management program, from a funding
/// account toward a target account. Lifecycle operations decide a list of
/// these actions; the surrounding program hands them to the host runtime.
#[derive(Clone, Debug, PartialEq, Eq)]
pub enum SystemAction {
    /// Create the target with `space` zeroed bytes, funded with `lamports`
    /// from the payer and owned by `owner`.
    CreateAccount { lamports: u64, space: usize, owner: Pubkey },
    /// Move `lamports` from the payer to the target.
    Transfer { lamports: u64 },
    /// Allocate `space` zeroed bytes at the target.
    Allocate { space: usize },
    /// Assign the target's ownership to `owner`.
    Assign { owner: Pubkey },
}

/// The balance a persistent record must be funded to: its rent-exempt
/// minimum, floored at one unit.
pub open spec fn spec_required_balance(rent_minimum: u64) -> u64 {
    if rent_minimum >= 1 {
        rent_minimum
    } else {
        1
    }
}

/// The transfer needed to lift `balance` to the required funding level;
/// zero when the balance already suffices.
pub open spec fn spec_top_up(rent_minimum: u64, balance: u64) -> u64 {
    if spec_required_balance(rent_minimum) > balance {
        (spec_required_balance(rent_minimum) - balance) as u64
    } else {
        0
    }
}

/// `space` zeroed bytes.
pub open spec fn zeroed(space: nat) -> Seq<u8> {
    Seq::new(space, |i: int| 0u8)
}

/// `data` resized to `space` bytes: existing bytes kept up to the smaller of
/// the two lengths, any growth zero-filled.
pub open spec fn resized(data: Seq<u8>, space: nat) -> Seq<u8> {
    Seq::new(
        space,
        |i: int|
            if i < data.len() {
                data[i]
            } else {
                0u8
            },
    )
}

/// Whether two account states agree on everything a lifecycle operation never
/// touches: address, buffer address, and the caller-visible flags.
pub open spec fn same_identity(a: AccountInfo, b: AccountInfo) -> bool {
    &&& a.key == b.key
    &&& a.data_address == b.data_address
    &&& a.is_signer == b.is_signer
    &&& a.is_writable == b.is_writable
    &&& a.executable == b.executable
}

/// Whether two account states differ in their balance at most.
pub open spec fn balance_change_only(a: AccountInfo, b: AccountInfo) -> bool {
    &&& same_identity(a, b)
    &&& a.owner == b.owner
    &&& a.data@ == b.data@
}

/// Whether two account states are equal in every observable attribute.
pub open spec fn account_unchanged(a: AccountInfo, b: AccountInfo) -> bool {
    &&& balance_change_only(a, b)
    &&& a.lamports == b.lamports
}

fn required_balance(rent_minimum: u64) -> (r: u64)
    ensures
        r == spec_required_balance(rent_minimum),
{
    if rent_minimum >= 1 {
        rent_minimum
    } else {
        1
    }
}

fn zero_vec(space: usize) -> (v: Vec<u8>)
    ensures
        v@ == zeroed(space as nat),
{
    let mut v: Vec<u8> = Vec::new();
    let mut i: usize = 0;
    while i < space
        invariant
            i <= space,
            v@ =~= zeroed(i as nat),
        decreases space - i,
    {
        v.push(0);
        proof {
            assert(v@ =~= zeroed((i + 1) as nat));
        }
        i = i + 1;
    }
    v
}

/// Create a new program account.
///
/// The funding account pays; the target account receives `space` bytes and
/// the requested owner. A target that a third party pre-funded before the
/// program could claim it is an expected adversarial pattern, not an error:
/// such a target is topped up, allocated and assigned in three separate
/// actions, since the host forbids combining outside funding with an atomic
/// creation.
pub struct CreateProgramAccount {
    /// Number of bytes of memory to allocate.
    pub space: usize,
    /// Identity of the program that will own the new account.
    pub owner: Pubkey,
}

/// The exact state transition and action trace of a create: relates the
/// operation, the states of the funding and target accounts before and after,
/// the rent-exempt minimum for `op.space` bytes, and the outcome.
///
/// The host's own preconditions on creation (required signatures, the
/// account-in-use rule on the buffer) stay with the host; the buffer rule is
/// mirrored here because a non-empty target decides which actions are issued.
/// An early action's effect persists even when a later step fails: a top-up
/// into a target that then proves unusable is kept, exactly as the host
/// leaves it.
pub open spec fn create_transition(
    op: CreateProgramAccount,
    payer0: AccountInfo,
    pda0: AccountInfo,
    rent_minimum: u64,
    payer1: AccountInfo,
    pda1: AccountInfo,
    r: Result<Seq<SystemAction>, ProgramError>,
) -> bool {
    let need = spec_required_balance(rent_minimum);
    let topup = spec_top_up(rent_minimum, pda0.lamports);
    &&& balance_change_only(payer0, payer1)
    &&& same_identity(pda0, pda1)
    &&& if pda0.lamports == 0 {
        if pda0.data.len() != 0 {
            &&& r == Err::<Seq<SystemAction>, _>(ProgramError::AccountAlreadyInitialized)
            &&& account_unchanged(payer0, payer1)
            &&& account_unchanged(pda0, pda1)
        } else if payer0.lamports < need {
            &&& r == Err::<Seq<SystemAction>, _>(ProgramError::InsufficientFunds)
            &&& account_unchanged(payer0, payer1)
            &&& account_unchanged(pda0, pda1)
        } else {
            &&& r == Ok::<_, ProgramError>(
                seq![
                    (SystemAction::CreateAccount {
                        lamports: need,
                        space: op.space,
                        owner: op.owner,
                    }),
                ],
            )
            &&& payer1.lamports == payer0.lamports - need
            &&& pda1.lamports == need
            &&& pda1.data@ == zeroed(op.space as nat)
            &&& pda1.owner == op.owner
        }
    } else {
        if topup > 0 && payer0.lamports < topup {
            &&& r == Err::<Seq<SystemAction>, _>(ProgramError::InsufficientFunds)
            &&& account_unchanged(payer0, payer1)
            &&& account_unchanged(pda0, pda1)
        } else if pda0.data.len() != 0 {
            // the top-up, the first of the three actions, already happened
            &&& r == Err::<Seq<SystemAction>, _>(ProgramError::AccountAlreadyInitialized)
            &&& payer1.lamports == payer0.lamports - topup
            &&& pda1.lamports == pda0.lamports + topup
            &&& pda1.owner == pda0.owner
            &&& pda1.data@ == pda0.data@
        } else {
            &&& r == Ok::<_, ProgramError>(
                (if topup > 0 {
                    seq![(SystemAction::Transfer { lamports: topup })]
                } else {
                    Seq::<SystemAction>::empty()
                }) + seq![
                    (SystemAction::Allocate { space: op.space }),
                    (SystemAction::Assign { owner: op.owner }),
                ],
            )
            &&& payer1.lamports == payer0.lamports - topup
            &&& pda1.lamports == pda0.lamports + topup
            &&& pda1.data@ == zeroed(op.space as nat)
            &&& pda1.owner == op.owner
        }
    }
}

impl CreateProgramAccount {
    /// Create as the direct caller.
    pub fn invoke(&self, payer: &mut AccountInfo, pda: &mut AccountInfo, rent_minimum: u64) -> (r:
        Result<Vec<SystemAction>, ProgramError>)
        ensures
            create_transition(
                *self,
                *old(payer),
                *old(pda),
                rent_minimum,
                *final(payer),
                *final(pda),
                match r {
                    Ok(plan) => Ok(plan@),
                    Err(e) => Err(e),
                },
            ),
    {
        self.invoke_signed(payer, pda, rent_minimum)
    }

    /// Create "as" a derived address: the caller presents the seed-derived
    /// authorization to the host alongside the actions decided here.
    ///
    /// A target with no balance is created in one native action, funded to
    /// the rent-exempt minimum (floored at one unit). A pre-funded target is
    /// topped up to that minimum, allocated, and assigned in three actions.
    pub fn invoke_signed(
        &self,
        payer: &mut AccountInfo,
        pda: &mut AccountInfo,
        rent_minimum: u64,
    ) -> (r: Result<Vec<SystemAction>, ProgramError>)
        ensures
            create_transition(
                *self,
                *old(payer),
                *old(pda),
                rent_minimum,
                *final(payer),
                *final(pda),
                match r {
                    Ok(plan) => Ok(plan@),
                    Err(e) => Err(e),
                },
            ),
    {
        let need = required_balance(rent_minimum);
        let mut plan: Vec<SystemAction> = Vec::new();
        if pda.lamports == 0 {
            if pda.data.len() != 0 {
                return Err(ProgramError::AccountAlreadyInitialized);
            }
            if payer.lamports < need {
                return Err(ProgramError::InsufficientFunds);
            }
            payer.lamports = payer.lamports - need;
            pda.lamports = need;
            pda.data = zero_vec(self.space);
            pda.owner = self.owner;
            plan.push(
                SystemAction::CreateAccount {
                    lamports: need,
                    space: self.space,
                    owner: self.owner,
                },
            );
            proof {
                assert(plan@ =~= seq![
                    (SystemAction::CreateAccount {
                        lamports: need,
                        space: self.space,
                        owner: self.owner,
                    }),
                ]);
            }
            return Ok(plan);
        }
        let topup = if need > pda.lamports {
            need - pda.lamports
        } else {
            0
        };
        if topup > 0 {
            if payer.lamports < topup {
                return Err(ProgramError::InsufficientFunds);
            }
            payer.lamports = payer.lamports - topup;
            pda.lamports = pda.lamports + topup;
            plan.push(SystemAction::Transfer { lamports: topup });
        }
        if pda.data.len() != 0 {
            return Err(ProgramError::AccountAlreadyInitialized);
        }
        pda.data = zero_vec(self.space);
        plan.push(SystemAction::Allocate { space: self.space });
        pda.owner = self.owner;
        plan.push(SystemAction::Assign { owner: self.owner });
        proof {
            let ghost topup_spec = spec_top_up(rent_minimum, old(pda).lamports);
            if topup_spec > 0 {
                assert(plan@ =~= seq![(SystemAction::Transfer { lamports: topup_spec })] + seq![
                    (SystemAction::Allocate { space: self.space }),
                    (SystemAction::Assign { owner: self.owner }),
                ]);
            } else {
                assert(plan@ =~= Seq::<SystemAction>::empty() + seq![
                    (SystemAction::Allocate { space: self.space }),
                    (SystemAction::Assign { owner: self.owner }),
                ]);
            }
        }
        Ok(plan)
    }
}

/// Resize an existing program account in place.
pub struct ResizeProgramAccount {
    /// The new number of bytes of memory.
    pub space: usize,
    /// Identity of the program that owns the account.
    pub program: Pubkey,
}

/// The exact state transition and action trace of a resize: only an account
/// the program owns may be resized; the balance is first topped up to the new
/// size's rent-exempt minimum, then the buffer is resized in place, keeping
/// existing bytes up to the smaller length and zero-filling any growth.
pub open spec fn resize_transition(
    op: ResizeProgramAccount,
    payer0: AccountInfo,
    pda0: AccountInfo,
    rent_minimum: u64,
    payer1: AccountInfo,
    pda1: AccountInfo,
    r: Result<Seq<SystemAction>, ProgramError>,
) -> bool {
    let topup = spec_top_up(rent_minimum, pda0.lamports);
    &&& balance_change_only(payer0, payer1)
    &&& same_identity(pda0, pda1)
    &&& pda1.owner == pda0.owner
    &&& if pda0.owner@ != op.program@ {
        &&& r == Err::<Seq<SystemAction>, _>(ProgramError::IllegalOwner)
        &&& account_unchanged(payer0, payer1)
        &&& account_unchanged(pda0, pda1)
    } else if topup > 0 && payer0.lamports < topup {
        &&& r == Err::<Seq<SystemAction>, _>(ProgramError::InsufficientFunds)
        &&& account_unchanged(payer0, payer1)
        &&& account_unchanged(pda0, pda1)
    } else {
        &&& r == Ok::<_, ProgramError>(
            if topup > 0 {
                seq![(SystemAction::Transfer { lamports: topup })]
            } else {
                Seq::<SystemAction>::empty()
            },
        )
        &&& payer1.lamports == payer0.lamports - topup
        &&& pda1.lamports == pda0.lamports + topup
        &&& pda1.data@ == resized(pda0.data@, op.space as nat)
    }
}

impl ResizeProgramAccount {
    /// Resize the account to `self.space` bytes, topping its balance up to
    /// the new rent-exempt minimum first.
    pub fn invoke(&self, payer: &mut AccountInfo, pda: &mut AccountInfo, rent_minimum: u64) -> (r:
        Result<Vec<SystemAction>, ProgramError>)
        ensures
            resize_transition(
                *self,
                *old(payer),
                *old(pda),
                rent_minimum,
                *final(payer),
                *final(pda),
                match r {
                    Ok(plan) => Ok(plan@),
                    Err(e) => Err(e),
                },
            ),
    {
        if !pda.is_owned_by(&self.program) {
            return Err(ProgramError::IllegalOwner);
        }
        let need = required_balance(rent_minimum);
        let mut plan: Vec<SystemAction> = Vec::new();
        let topup = if need > pda.lamports {
            need - pda.lamports
        } else {
            0
        };
        if topup > 0 {
            if payer.lamports < topup {
                return Err(ProgramError::InsufficientFunds);
            }
            payer.lamports = payer.lamports - topup;
            pda.lamports = pda.lamports + topup;
            plan.push(SystemAction::Transfer { lamports: topup });
            proof {
                assert(plan@ =~= seq![(SystemAction::Transfer { lamports: topup })]);
            }
        }
        let mut resized_data: Vec<u8> = Vec::new();
        let mut i: usize = 0;
        while i < self.space
            invariant
                i <= self.space,
                resized_data@ =~= resized(pda.data@, self.space as nat).take(i as int),
            decreases self.space - i,
        {
            let byte = if i < pda.data.len() {
                pda.data[i]
            } else {
                0
            };
            resized_data.push(byte);
            proof {
                assert(resized_data@ =~= resized(pda.data@, self.space as nat).take(i + 1));
            }
            i = i + 1;
        }
        proof {
            assert(resized_data@ =~= resized(pda.data@, self.space as nat));
        }
        pda.data = resized_data;
        Ok(plan)
    }
}

/// Close a program account: move its whole balance to a destination by direct
/// balance mutation (the native transfer refuses data-carrying accounts),
/// then shrink the buffer to empty, then mark the account closed by
/// reassigning it to the system program. The order matters: nothing between
/// the steps ever looks like a live, funded account that lost its value.
pub struct CloseProgramAccount;

/// The exact state transition of a close: the destination receives the whole
/// balance, the source ends with no balance, no data, and the closed-marker
/// owner. A destination balance that cannot take the source's is refused
/// outright.
pub open spec fn close_transition(
    acct0: AccountInfo,
    dest0: AccountInfo,
    acct1: AccountInfo,
    dest1: AccountInfo,
    r: Result<(), ProgramError>,
) -> bool {
    &&& balance_change_only(dest0, dest1)
    &&& same_identity(acct0, acct1)
    &&& if acct0.lamports + dest0.lamports > u64::MAX {
        &&& r == Err::<(), _>(ProgramError::ArithmeticOverflow)
        &&& account_unchanged(acct0, acct1)
        &&& account_unchanged(dest0, dest1)
    } else {
        &&& r == Ok::<_, ProgramError>(())
        &&& dest1.lamports == dest0.lamports + acct0.lamports
        &&& acct1.lamports == 0
        &&& acct1.data@ == Seq::<u8>::empty()
        &&& acct1.owner@ == SYSTEM_PROGRAM_ID@
    }
}

impl CloseProgramAccount {
    /// Close `account`, sending its whole balance to `destination`.
    pub fn invoke(account: &mut AccountInfo, destination: &mut AccountInfo) -> (r: Result<
        (),
        ProgramError,
    >)
        ensures
            close_transition(
                *old(account),
                *old(destination),
                *final(account),
                *final(destination),
                r,
            ),
    {
        if account.lamports > u64::MAX - destination.lamports {
            return Err(ProgramError::ArithmeticOverflow);
        }
        destination.lamports = destination.lamports + account.lamports;
        account.lamports = 0;
        account.data = Vec::new();
        account.owner = SYSTEM_PROGRAM_ID;
        Ok(())
    }
}

/// Closing is idempotent: a second close of an account that a first close
/// already defunded, emptied and marked succeeds, moves no value, and leaves
/// both accounts exactly as they were — never a balance underflow.
pub proof fn lemma_close_idempotent(
    acct0: AccountInfo,
    dest0: AccountInfo,
    acct1: AccountInfo,
    dest1: AccountInfo,
    acct2: AccountInfo,
    dest2: AccountInfo,
    r2: Result<(), ProgramError>,
)
    requires
        close_transition(acct0, dest0, acct1, dest1, Ok(())),
        close_transition(acct1, dest1, acct2, dest2, r2),
    ensures
        r2 == Ok::<(), ProgramError>(()),
        acct2.lamports == acct1.lamports,
        acct2.data@ == acct1.data@,
        acct2.owner@ == acct1.owner@,
        dest2.lamports == dest1.lamports,
        dest2.data@ == dest1.data@,
        dest2.owner == dest1.owner,
{
}

/// Emit an event by an authorized self-call: the envelope carries the fixed
/// event discriminator and then the payload, and the call names the
/// event-authority record — a derived address only the program itself can
/// sign for — as a required read-only signer. An observer that sees such a
/// call validly signed knows the bytes originated inside this program, not in
/// a spoofed outside call with the discriminator prepended by hand.
pub struct EmitEvent {
    /// The program's own identity, the target of the self-call.
    pub program_id: Pubkey,
    /// Address of the event-authority record that must co-sign.
    pub event_authority: Pubkey,
    /// The event payload.
    pub data: Vec<u8>,
}

/// An authorized self-call, ready for the host's invocation mechanism.
pub struct SelfInvoke {
    /// The called program: the emitting program itself.
    pub program_id: Pubkey,
    /// The account named as a required read-only signer of the inner call.
    pub authority: Pubkey,
    /// The instruction bytes: the event discriminator, then the payload.
    pub data: Vec<u8>,
}

impl EmitEvent {
    /// Build the authorized self-call for this event. Fails exactly when the
    /// payload is empty or longer than the self-call data buffer allows.
    pub fn invoke_signed(&self) -> (r: Result<SelfInvoke, ProgramError>)
        ensures
            match r {
                Ok(call) => {
                    &&& 1 <= self.data@.len() <= MAX_CPI_INSTRUCTION_DATA_LEN
                    &&& call.program_id == self.program_id
                    &&& call.authority == self.event_authority
                    &&& call.data@ == seq![EMIT_EVENT_DISCRIMINATOR] + self.data@
                },
                Err(e) => {
                    &&& e == ProgramError::InvalidInstructionData
                    &&& (self.data@.len() == 0 || self.data@.len() > MAX_CPI_INSTRUCTION_DATA_LEN)
                },
            },
    {
        if self.data.len() > MAX_CPI_INSTRUCTION_DATA_LEN || self.data.len() == 0 {
            return Err(ProgramError::InvalidInstructionData);
        }
        let mut buf: Vec<u8> = Vec::new();
        buf.push(EMIT_EVENT_DISCRIMINATOR);
        let mut i: usize = 0;
        while i < self.data.len()
            invariant
                i <= self.data@.len(),
                buf@ =~= seq![EMIT_EVENT_DISCRIMINATOR] + self.data@.take(i as int),
            decreases self.data@.len() - i,
        {
            buf.push(self.data[i]);
            proof {
                assert(buf@ =~= seq![EMIT_EVENT_DISCRIMINATOR] + self.data@.take(i + 1));
            }
            i = i + 1;
        }
        proof {
            assert(buf@ =~= seq![EMIT_EVENT_DISCRIMINATOR] + self.data@);
        }
        Ok(SelfInvoke { program_id: self.program_id, authority: self.event_authority, data: buf })
    }
}

} // verus!
