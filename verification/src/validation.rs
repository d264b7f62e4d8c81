use vstd::prelude::*;

use crate::account::{pubkey_eq, AccountInfo, Pubkey};
use crate::consts::SYSVAR_PROGRAM_ID;
use crate::error::ProgramError;
use crate::pda::{
    derive_pda, find_program_address, lemma_canonical_bump_unique, seed_arity_ok, spec_bump_found,
    spec_derive_pda,
};

verus! {

/// A declarative, builder-constructed conjunction of independent predicates
/// over one account reference. Each predicate is either configured (it must
/// hold) or absent (it is not checked); [`Validation::run`] evaluates the
/// configured predicates and reports the first failing one.
pub struct Validation {
    /// Demand that the caller signed for the account.
    pub is_signer: bool,
    /// Demand that the account is writable in this call.
    pub is_writable: bool,
    /// Demand that the account is executable.
    pub is_executable: bool,
    /// Demand that the account's buffer is empty.
    pub is_empty: bool,
    /// Demand a discriminator tag under a required owner.
    pub is_type: Option<(u8, Pubkey)>,
    /// Demand that the account is the given executable program.
    pub is_program: Option<Pubkey>,
    /// Demand that the account is the given sysvar.
    pub is_sysvar: Option<Pubkey>,
    /// Demand an exact address.
    pub has_address: Option<Pubkey>,
    /// Demand an exact owner.
    pub has_owner: Option<Pubkey>,
    /// Demand that the address is derived from the seeds under the program,
    /// searching for the canonical bump.
    pub has_seeds: Option<(Vec<Vec<u8>>, Pubkey)>,
    /// Demand that the address is derived from the seeds under the program at
    /// a caller-supplied bump.
    pub has_seeds_with_bump: Option<(Vec<Vec<u8>>, Pubkey, u8)>,
    /// Demand that the address is derived from the seeds under the program at
    /// the bump stored in the account's byte 1.
    pub has_seeds_with_saved_bump: Option<(Vec<Vec<u8>>, Pubkey)>,
}

/// Verdict of a configured type rule: the required program must own the
/// account before its tag byte may be trusted, and byte 0 must carry the
/// required discriminator.
pub open spec fn check_is_type(rule: Option<(u8, Pubkey)>, a: AccountInfo) -> Result<
    (),
    ProgramError,
> {
    match rule {
        None => Ok(()),
        Some(c) => if a.owner@ != c.1@ {
            Err(ProgramError::InvalidAccountOwner)
        } else if a.data@.len() == 0 || a.data@[0] != c.0 {
            Err(ProgramError::InvalidAccountData)
        } else {
            Ok(())
        },
    }
}

/// Verdict of a configured program rule: exact address, and executable.
pub open spec fn check_is_program(rule: Option<Pubkey>, a: AccountInfo) -> Result<
    (),
    ProgramError,
> {
    match rule {
        None => Ok(()),
        Some(id) => if a.key@ != id@ {
            Err(ProgramError::InvalidAccountOwner)
        } else if !a.executable {
            Err(ProgramError::InvalidAccountData)
        } else {
            Ok(())
        },
    }
}

/// Verdict of a configured sysvar rule: owned by the well-known sysvar owner,
/// at the exact sysvar address.
pub open spec fn check_is_sysvar(rule: Option<Pubkey>, a: AccountInfo) -> Result<
    (),
    ProgramError,
> {
    match rule {
        None => Ok(()),
        Some(id) => if a.owner@ != SYSVAR_PROGRAM_ID@ {
            Err(ProgramError::InvalidAccountOwner)
        } else if a.key@ != id@ {
            Err(ProgramError::InvalidAccountData)
        } else {
            Ok(())
        },
    }
}

/// Verdict of a configured address rule.
pub open spec fn check_has_address(rule: Option<Pubkey>, a: AccountInfo) -> Result<
    (),
    ProgramError,
> {
    match rule {
        None => Ok(()),
        Some(addr) => if a.key@ != addr@ {
            Err(ProgramError::InvalidAccountData)
        } else {
            Ok(())
        },
    }
}

/// Verdict of a configured owner rule.
pub open spec fn check_has_owner(rule: Option<Pubkey>, a: AccountInfo) -> Result<
    (),
    ProgramError,
> {
    match rule {
        None => Ok(()),
        Some(id) => if a.owner@ != id@ {
            Err(ProgramError::InvalidAccountOwner)
        } else {
            Ok(())
        },
    }
}

/// Verdict of a configured seed rule with canonical-bump search: the
/// account's address must be the derivation at the canonical bump.
pub open spec fn check_has_seeds(rule: Option<(Vec<Vec<u8>>, Pubkey)>, a: AccountInfo) -> Result<
    (),
    ProgramError,
> {
    match rule {
        None => Ok(()),
        Some(c) => if !seed_arity_ok(c.0.deep_view()) {
            Err(ProgramError::InvalidSeeds)
        } else if exists|b: u8|
            #[trigger] spec_bump_found(c.0.deep_view(), c.1@, b) && a.key@ == spec_derive_pda(
                c.0.deep_view(),
                c.1@,
                b,
            ) {
            Ok(())
        } else {
            Err(ProgramError::InvalidSeeds)
        },
    }
}

/// Verdict of a configured seed rule with a caller-supplied bump: the account
/// must be initialized (at least two bytes) and its address must equal the
/// derivation at exactly that bump.
pub open spec fn check_has_seeds_with_bump(
    rule: Option<(Vec<Vec<u8>>, Pubkey, u8)>,
    a: AccountInfo,
) -> Result<(), ProgramError> {
    match rule {
        None => Ok(()),
        Some(c) => if a.data@.len() < 2 {
            Err(ProgramError::InvalidAccountData)
        } else if !seed_arity_ok(c.0.deep_view()) {
            Err(ProgramError::InvalidSeeds)
        } else if a.key@ != spec_derive_pda(c.0.deep_view(), c.1@, c.2) {
            Err(ProgramError::InvalidSeeds)
        } else {
            Ok(())
        },
    }
}

/// Verdict of a configured seed rule with the stored bump: the program must
/// own the account, the account must be initialized, and the address must
/// equal the derivation at the bump stored in the account's byte 1.
pub open spec fn check_has_seeds_with_saved_bump(
    rule: Option<(Vec<Vec<u8>>, Pubkey)>,
    a: AccountInfo,
) -> Result<(), ProgramError> {
    match rule {
        None => Ok(()),
        Some(c) => if a.owner@ != c.1@ {
            Err(ProgramError::InvalidAccountOwner)
        } else if a.data@.len() < 2 {
            Err(ProgramError::InvalidAccountData)
        } else if !seed_arity_ok(c.0.deep_view()) {
            Err(ProgramError::InvalidSeeds)
        } else if a.key@ != spec_derive_pda(c.0.deep_view(), c.1@, a.data@[1]) {
            Err(ProgramError::InvalidSeeds)
        } else {
            Ok(())
        },
    }
}

/// The verdict of a rule set over an account: the configured predicates in
/// evaluation order, short-circuiting at the first failure.
pub open spec fn spec_run(v: Validation, a: AccountInfo) -> Result<(), ProgramError> {
    if v.is_signer && !a.is_signer {
        Err(ProgramError::MissingRequiredSignature)
    } else if v.is_writable && !a.is_writable {
        Err(ProgramError::InvalidAccountData)
    } else if v.is_executable && !a.executable {
        Err(ProgramError::InvalidAccountData)
    } else if v.is_empty && a.data@.len() != 0 {
        Err(ProgramError::AccountAlreadyInitialized)
    } else if check_is_type(v.is_type, a) is Err {
        check_is_type(v.is_type, a)
    } else if check_is_program(v.is_program, a) is Err {
        check_is_program(v.is_program, a)
    } else if check_is_sysvar(v.is_sysvar, a) is Err {
        check_is_sysvar(v.is_sysvar, a)
    } else if check_has_address(v.has_address, a) is Err {
        check_has_address(v.has_address, a)
    } else if check_has_owner(v.has_owner, a) is Err {
        check_has_owner(v.has_owner, a)
    } else if check_has_seeds(v.has_seeds, a) is Err {
        check_has_seeds(v.has_seeds, a)
    } else if check_has_seeds_with_bump(v.has_seeds_with_bump, a) is Err {
        check_has_seeds_with_bump(v.has_seeds_with_bump, a)
    } else if check_has_seeds_with_saved_bump(v.has_seeds_with_saved_bump, a) is Err {
        check_has_seeds_with_saved_bump(v.has_seeds_with_saved_bump, a)
    } else {
        Ok(())
    }
}

/// Whether an account satisfies every configured predicate of a rule set:
/// the order-free conjunction the short-circuiting verdict decides.
pub open spec fn accepts(v: Validation, a: AccountInfo) -> bool {
    &&& v.is_signer ==> a.is_signer
    &&& v.is_writable ==> a.is_writable
    &&& v.is_executable ==> a.executable
    &&& v.is_empty ==> a.data@.len() == 0
    &&& check_is_type(v.is_type, a) is Ok
    &&& check_is_program(v.is_program, a) is Ok
    &&& check_is_sysvar(v.is_sysvar, a) is Ok
    &&& check_has_address(v.has_address, a) is Ok
    &&& check_has_owner(v.has_owner, a) is Ok
    &&& check_has_seeds(v.has_seeds, a) is Ok
    &&& check_has_seeds_with_bump(v.has_seeds_with_bump, a) is Ok
    &&& check_has_seeds_with_saved_bump(v.has_seeds_with_saved_bump, a) is Ok
}

impl Validation {
    /// A rule set with no predicate configured; it accepts every account.
    pub fn default() -> (v: Validation)
        ensures
            !v.is_signer,
            !v.is_writable,
            !v.is_executable,
            !v.is_empty,
            v.is_type is None,
            v.is_program is None,
            v.is_sysvar is None,
            v.has_address is None,
            v.has_owner is None,
            v.has_seeds is None,
            v.has_seeds_with_bump is None,
            v.has_seeds_with_saved_bump is None,
    {
        Validation {
            is_signer: false,
            is_writable: false,
            is_executable: false,
            is_empty: false,
            is_type: None,
            is_program: None,
            is_sysvar: None,
            has_address: None,
            has_owner: None,
            has_seeds: None,
            has_seeds_with_bump: None,
            has_seeds_with_saved_bump: None,
        }
    }

    /// Configure the signer predicate.
    pub fn is_signer(self, must: bool) -> (r: Self)
        ensures
            r == (Validation { is_signer: must, ..self }),
    {
        Validation { is_signer: must, ..self }
    }

    /// Configure the writability predicate.
    pub fn is_writable(self, must: bool) -> (r: Self)
        ensures
            r == (Validation { is_writable: must, ..self }),
    {
        Validation { is_writable: must, ..self }
    }

    /// Configure the executability predicate.
    pub fn is_executable(self, must: bool) -> (r: Self)
        ensures
            r == (Validation { is_executable: must, ..self }),
    {
        Validation { is_executable: must, ..self }
    }

    /// Configure the emptiness predicate.
    pub fn is_empty(self, must: bool) -> (r: Self)
        ensures
            r == (Validation { is_empty: must, ..self }),
    {
        Validation { is_empty: must, ..self }
    }

    /// Demand that `program_id` owns the account and that its record carries
    /// `discriminator` in byte 0.
    pub fn is_type(self, program_id: &Pubkey, discriminator: u8) -> (r: Self)
        ensures
            r == (Validation { is_type: Some((discriminator, *program_id)), ..self }),
    {
        Validation { is_type: Some((discriminator, *program_id)), ..self }
    }

    /// Demand that the account is the executable program `program_id`.
    pub fn is_program(self, program_id: &Pubkey) -> (r: Self)
        ensures
            r == (Validation { is_program: Some(*program_id), ..self }),
    {
        Validation { is_program: Some(*program_id), ..self }
    }

    /// Demand that the account is the sysvar `sysvar_id`.
    pub fn is_sysvar(self, sysvar_id: &Pubkey) -> (r: Self)
        ensures
            r == (Validation { is_sysvar: Some(*sysvar_id), ..self }),
    {
        Validation { is_sysvar: Some(*sysvar_id), ..self }
    }

    /// Demand the exact address `address`.
    pub fn has_address(self, address: &Pubkey) -> (r: Self)
        ensures
            r == (Validation { has_address: Some(*address), ..self }),
    {
        Validation { has_address: Some(*address), ..self }
    }

    /// Demand the exact owner `program_id`.
    pub fn has_owner(self, program_id: &Pubkey) -> (r: Self)
        ensures
            r == (Validation { has_owner: Some(*program_id), ..self }),
    {
        Validation { has_owner: Some(*program_id), ..self }
    }

    /// Demand that the address is derived from `seeds` under `program_id`,
    /// searching for the canonical bump.
    pub fn has_seeds(self, seeds: Vec<Vec<u8>>, program_id: &Pubkey) -> (r: Self)
        ensures
            r == (Validation { has_seeds: Some((seeds, *program_id)), ..self }),
    {
        Validation { has_seeds: Some((seeds, *program_id)), ..self }
    }

    /// Demand that the address is derived from `seeds` under `program_id` at
    /// the caller-supplied `bump`.
    pub fn has_seeds_with_bump(self, seeds: Vec<Vec<u8>>, program_id: &Pubkey, bump: u8) -> (r:
        Self)
        ensures
            r == (Validation { has_seeds_with_bump: Some((seeds, *program_id, bump)), ..self }),
    {
        Validation { has_seeds_with_bump: Some((seeds, *program_id, bump)), ..self }
    }

    /// Demand that the address is derived from `seeds` under `program_id` at
    /// the bump stored in the account's byte 1.
    pub fn has_seeds_with_saved_bump(self, seeds: Vec<Vec<u8>>, program_id: &Pubkey) -> (r: Self)
        ensures
            r == (Validation { has_seeds_with_saved_bump: Some((seeds, *program_id)), ..self }),
    {
        Validation { has_seeds_with_saved_bump: Some((seeds, *program_id)), ..self }
    }

    /// Evaluate every configured predicate against `ai`, returning the first
    /// failing predicate's reason, or success exactly when the account
    /// satisfies the whole conjunction.
    #[must_use]
    pub fn run(self, ai: &AccountInfo) -> (r: Result<(), ProgramError>)
        ensures
            r == spec_run(self, *ai),
            r is Ok <==> accepts(self, *ai),
    {
        if self.is_signer && !ai.is_signer {
            return Err(ProgramError::MissingRequiredSignature);
        }
        if self.is_writable && !ai.is_writable {
            return Err(ProgramError::InvalidAccountData);
        }
        if self.is_executable && !ai.executable {
            return Err(ProgramError::InvalidAccountData);
        }
        if self.is_empty && !ai.data_is_empty() {
            return Err(ProgramError::AccountAlreadyInitialized);
        }
        if let Some(c) = self.is_type {
            let (discriminator, program_id) = c;
            if !ai.is_owned_by(&program_id) {
                return Err(ProgramError::InvalidAccountOwner);
            }
            if ai.data.len() == 0 {
                return Err(ProgramError::InvalidAccountData);
            }
            if ai.data[0] != discriminator {
                return Err(ProgramError::InvalidAccountData);
            }
        }
        if let Some(program_id) = self.is_program {
            if !pubkey_eq(&ai.key, &program_id) {
                return Err(ProgramError::InvalidAccountOwner);
            }
            if !ai.executable {
                return Err(ProgramError::InvalidAccountData);
            }
        }
        if let Some(sysvar_id) = self.is_sysvar {
            if !ai.is_owned_by(&SYSVAR_PROGRAM_ID) {
                return Err(ProgramError::InvalidAccountOwner);
            }
            if !pubkey_eq(&ai.key, &sysvar_id) {
                return Err(ProgramError::InvalidAccountData);
            }
        }
        if let Some(address) = self.has_address {
            if !pubkey_eq(&ai.key, &address) {
                return Err(ProgramError::InvalidAccountData);
            }
        }
        if let Some(owner) = self.has_owner {
            if !ai.is_owned_by(&owner) {
                return Err(ProgramError::InvalidAccountOwner);
            }
        }
        if let Some(c) = &self.has_seeds {
            match find_program_address(&c.0, &c.1) {
                Ok(found) => {
                    if !pubkey_eq(&ai.key, &found.0) {
                        proof {
                            assert forall|b: u8|
                                spec_bump_found(c.0.deep_view(), c.1@, b) implies b
                                == found.1 by {
                                lemma_canonical_bump_unique(c.0.deep_view(), c.1@, b, found.1);
                            }
                        }
                        return Err(ProgramError::InvalidSeeds);
                    }
                    proof {
                        assert(spec_bump_found(c.0.deep_view(), c.1@, found.1) && ai.key@
                            == spec_derive_pda(c.0.deep_view(), c.1@, found.1));
                    }
                },
                Err(_) => {
                    return Err(ProgramError::InvalidSeeds);
                },
            }
        }
        if let Some(c) = &self.has_seeds_with_bump {
            if ai.data.len() < 2 {
                return Err(ProgramError::InvalidAccountData);
            }
            let derived = match derive_pda(&c.0, &c.1, c.2) {
                Ok(p) => p,
                Err(e) => {
                    return Err(e);
                },
            };
            if !pubkey_eq(&ai.key, &derived) {
                return Err(ProgramError::InvalidSeeds);
            }
        }
        if let Some(c) = &self.has_seeds_with_saved_bump {
            if !ai.is_owned_by(&c.1) {
                return Err(ProgramError::InvalidAccountOwner);
            }
            if ai.data.len() < 2 {
                return Err(ProgramError::InvalidAccountData);
            }
            let saved_bump = ai.data[1];
            let derived = match derive_pda(&c.0, &c.1, saved_bump) {
                Ok(p) => p,
                Err(e) => {
                    return Err(e);
                },
            };
            if !pubkey_eq(&ai.key, &derived) {
                return Err(ProgramError::InvalidSeeds);
            }
        }
        Ok(())
    }
}

/// Business-rule checks beyond structural validity, attached to an already
/// obtained and structurally validated typed view: an arbitrary caller
/// predicate with either the generic structural failure reason or a
/// caller-supplied one.
pub trait AccountValidation: Sized {
    /// Check `condition` on the view, failing with the generic structural
    /// reason when it does not hold.
    fn assert_that<F: Fn(&Self) -> bool>(&self, condition: F) -> (r: Result<&Self, ProgramError>)
        requires
            call_requires(condition, (self,)),
        ensures
            match r {
                Ok(s) => s == self && call_ensures(condition, (self,), true),
                Err(e) => e == ProgramError::InvalidAccountData && call_ensures(
                    condition,
                    (self,),
                    false,
                ),
            },
    ;

    /// Check `condition` on the view, failing with `err` when it does not
    /// hold.
    fn assert_err<F: Fn(&Self) -> bool>(&self, condition: F, err: ProgramError) -> (r: Result<
        &Self,
        ProgramError,
    >)
        requires
            call_requires(condition, (self,)),
        ensures
            match r {
                Ok(s) => s == self && call_ensures(condition, (self,), true),
                Err(e) => e == err && call_ensures(condition, (self,), false),
            },
    ;

    /// Check `condition` on an exclusively borrowed view, failing with the
    /// generic structural reason when it does not hold. The view itself is
    /// not changed by the check.
    fn assert_mut<F: Fn(&Self) -> bool>(&mut self, condition: F) -> (r: Result<(), ProgramError>)
        requires
            call_requires(condition, (&*old(self),)),
        ensures
            *final(self) == *old(self),
            match r {
                Ok(_) => call_ensures(condition, (&*old(self),), true),
                Err(e) => e == ProgramError::InvalidAccountData && call_ensures(
                    condition,
                    (&*old(self),),
                    false,
                ),
            },
    ;

    /// Check `condition` on an exclusively borrowed view, failing with `err`
    /// when it does not hold. The view itself is not changed by the check.
    fn assert_mut_err<F: Fn(&Self) -> bool>(&mut self, condition: F, err: ProgramError) -> (r:
        Result<(), ProgramError>)
        requires
            call_requires(condition, (&*old(self),)),
        ensures
            *final(self) == *old(self),
            match r {
                Ok(_) => call_ensures(condition, (&*old(self),), true),
                Err(e) => e == err && call_ensures(condition, (&*old(self),), false),
            },
    ;
}

impl<T: crate::deserialize::Account + Sized> AccountValidation for T {
    fn assert_that<F: Fn(&Self) -> bool>(&self, condition: F) -> (r: Result<&Self, ProgramError>) {
        if condition(self) {
            Ok(self)
        } else {
            Err(ProgramError::InvalidAccountData)
        }
    }

    fn assert_err<F: Fn(&Self) -> bool>(&self, condition: F, err: ProgramError) -> (r: Result<
        &Self,
        ProgramError,
    >) {
        if condition(self) {
            Ok(self)
        } else {
            Err(err)
        }
    }

    fn assert_mut<F: Fn(&Self) -> bool>(&mut self, condition: F) -> (r: Result<
        (),
        ProgramError,
    >) {
        if condition(&*self) {
            Ok(())
        } else {
            Err(ProgramError::InvalidAccountData)
        }
    }

    fn assert_mut_err<F: Fn(&Self) -> bool>(&mut self, condition: F, err: ProgramError) -> (r:
        Result<(), ProgramError>) {
        if condition(&*self) {
            Ok(())
        } else {
            Err(err)
        }
    }
}

/// Whether no predicate is configured by both of two rule sets, so that the
/// two can be run as one combined set.
pub open spec fn disjoint_rules(v1: Validation, v2: Validation) -> bool {
    &&& !(v1.is_type is Some && v2.is_type is Some)
    &&& !(v1.is_program is Some && v2.is_program is Some)
    &&& !(v1.is_sysvar is Some && v2.is_sysvar is Some)
    &&& !(v1.has_address is Some && v2.has_address is Some)
    &&& !(v1.has_owner is Some && v2.has_owner is Some)
    &&& !(v1.has_seeds is Some && v2.has_seeds is Some)
    &&& !(v1.has_seeds_with_bump is Some && v2.has_seeds_with_bump is Some)
    &&& !(v1.has_seeds_with_saved_bump is Some && v2.has_seeds_with_saved_bump is Some)
}

/// Whether `v` is the union of the predicates configured by `v1` and `v2`.
pub open spec fn merged_rules(v1: Validation, v2: Validation, v: Validation) -> bool {
    &&& v.is_signer == (v1.is_signer || v2.is_signer)
    &&& v.is_writable == (v1.is_writable || v2.is_writable)
    &&& v.is_executable == (v1.is_executable || v2.is_executable)
    &&& v.is_empty == (v1.is_empty || v2.is_empty)
    &&& v.is_type == (if v1.is_type is Some {
        v1.is_type
    } else {
        v2.is_type
    })
    &&& v.is_program == (if v1.is_program is Some {
        v1.is_program
    } else {
        v2.is_program
    })
    &&& v.is_sysvar == (if v1.is_sysvar is Some {
        v1.is_sysvar
    } else {
        v2.is_sysvar
    })
    &&& v.has_address == (if v1.has_address is Some {
        v1.has_address
    } else {
        v2.has_address
    })
    &&& v.has_owner == (if v1.has_owner is Some {
        v1.has_owner
    } else {
        v2.has_owner
    })
    &&& v.has_seeds == (if v1.has_seeds is Some {
        v1.has_seeds
    } else {
        v2.has_seeds
    })
    &&& v.has_seeds_with_bump == (if v1.has_seeds_with_bump is Some {
        v1.has_seeds_with_bump
    } else {
        v2.has_seeds_with_bump
    })
    &&& v.has_seeds_with_saved_bump == (if v1.has_seeds_with_saved_bump is Some {
        v1.has_seeds_with_saved_bump
    } else {
        v2.has_seeds_with_saved_bump
    })
}

/// Splitting a rule set does not change what it lets through: when two rule
/// sets share no configured predicate, an account passes their union exactly
/// when it passes each of the two on its own.
pub proof fn lemma_rule_sets_compose(v1: Validation, v2: Validation, v: Validation, a: AccountInfo)
    requires
        disjoint_rules(v1, v2),
        merged_rules(v1, v2, v),
    ensures
        accepts(v, a) <==> (accepts(v1, a) && accepts(v2, a)),
{
}

/// A bump-supplied seed rule accepts exactly the account whose address is the
/// derivation at that bump: on an initialized account with workable seed
/// arity the rule passes iff the account's address equals the derivation.
pub proof fn lemma_bump_rule_exact(rule: (Vec<Vec<u8>>, Pubkey, u8), a: AccountInfo)
    requires
        a.data@.len() >= 2,
        seed_arity_ok(rule.0.deep_view()),
    ensures
        check_has_seeds_with_bump(Some(rule), a) is Ok <==> a.key@ == spec_derive_pda(
            rule.0.deep_view(),
            rule.1@,
            rule.2,
        ),
{
}

/// Supplying any bump whose derivation differs from the accepted bump's
/// derivation makes the bump-supplied seed rule reject.
pub proof fn lemma_bump_rule_rejects_other(
    rule: (Vec<Vec<u8>>, Pubkey, u8),
    other: u8,
    a: AccountInfo,
)
    requires
        check_has_seeds_with_bump(Some(rule), a) is Ok,
        spec_derive_pda(rule.0.deep_view(), rule.1@, other) != spec_derive_pda(
            rule.0.deep_view(),
            rule.1@,
            rule.2,
        ),
    ensures
        check_has_seeds_with_bump(Some((rule.0, rule.1, other)), a) is Err,
{
}

} // verus!
