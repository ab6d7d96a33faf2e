//! Declared constraints on account slots, and their validation.
//!
//! Every slot of an instruction's account list carries an ordered list of
//! predicates. An account reaches a handler only after all of them
//! hold; the first that fails is reported with the slot's name.

use vstd::prelude::*;
use crate::account::{carries_tag, is_blank, AccountRecord, AccountView};
use crate::address::Address;
use crate::derivation::{verifies, verify, SeedSpec, SeedSpecView};
use crate::error::{EngineError, EngineErrorView, ViolationKind};

verus! {

/// A predicate on one account.
#[derive(Clone, Debug, PartialEq, Eq)]
pub enum Constraint {
    /// The account signed the transaction.
    Signer,
    /// The account may be written to.
    Writable,
    /// The account belongs to the given program.
    OwnedBy(Address),
    /// The account's address is the one derived from the seeds under the
    /// validating program, with the canonical bump.
    DerivedFrom(SeedSpec),
    /// The account holds no state yet.
    Uninitialized,
    /// The account's data is led by the given type tag.
    Discriminator([u8; 8]),
    /// The account is the one at the given address.
    HasAddress(Address),
    /// The account is an executable program.
    Executable,
}

/// The mathematical content of a [`Constraint`].
pub ghost enum ConstraintView {
    Signer,
    Writable,
    OwnedBy(Address),
    DerivedFrom(SeedSpecView),
    Uninitialized,
    Discriminator(Seq<u8>),
    HasAddress(Address),
    Executable,
}

impl View for Constraint {
    type V = ConstraintView;

    open spec fn view(&self) -> ConstraintView {
        match self {
            Constraint::Signer => ConstraintView::Signer,
            Constraint::Writable => ConstraintView::Writable,
            Constraint::OwnedBy(owner) => ConstraintView::OwnedBy(*owner),
            Constraint::DerivedFrom(seeds) => ConstraintView::DerivedFrom(seeds@),
            Constraint::Uninitialized => ConstraintView::Uninitialized,
            Constraint::Discriminator(tag) => ConstraintView::Discriminator(tag@),
            Constraint::HasAddress(address) => ConstraintView::HasAddress(*address),
            Constraint::Executable => ConstraintView::Executable,
        }
    }
}

impl ConstraintView {
    /// The kind of violation that a failure of this predicate is.
    pub open spec fn kind(self) -> ViolationKind {
        match self {
            ConstraintView::Signer => ViolationKind::Signer,
            ConstraintView::Writable => ViolationKind::Writable,
            ConstraintView::OwnedBy(_) => ViolationKind::Owner,
            ConstraintView::DerivedFrom(_) => ViolationKind::Derivation,
            ConstraintView::Uninitialized => ViolationKind::InitState,
            ConstraintView::Discriminator(_) => ViolationKind::Discriminator,
            ConstraintView::HasAddress(_) => ViolationKind::Address,
            ConstraintView::Executable => ViolationKind::Executable,
        }
    }

    /// Whether the predicate holds of the account, validated on behalf of the
    /// program `program_id`.
    pub open spec fn holds(self, account: AccountView, program_id: Address) -> bool {
        match self {
            ConstraintView::Signer => account.is_signer,
            ConstraintView::Writable => account.is_writable,
            ConstraintView::OwnedBy(owner) => account.owner == owner,
            ConstraintView::DerivedFrom(seeds) => verifies(account.address, seeds, program_id),
            ConstraintView::Uninitialized => is_blank(account.data),
            ConstraintView::Discriminator(tag) => carries_tag(account.data, tag),
            ConstraintView::HasAddress(address) => account.address == address,
            ConstraintView::Executable => account.is_executable,
        }
    }
}

impl Constraint {
    /// The kind of violation that a failure of this predicate is.
    pub fn kind(&self) -> (k: ViolationKind)
        ensures
            k == self@.kind(),
    {
        match self {
            Constraint::Signer => ViolationKind::Signer,
            Constraint::Writable => ViolationKind::Writable,
            Constraint::OwnedBy(_) => ViolationKind::Owner,
            Constraint::DerivedFrom(_) => ViolationKind::Derivation,
            Constraint::Uninitialized => ViolationKind::InitState,
            Constraint::Discriminator(_) => ViolationKind::Discriminator,
            Constraint::HasAddress(_) => ViolationKind::Address,
            Constraint::Executable => ViolationKind::Executable,
        }
    }

    /// Evaluates the predicate against an account.
    pub fn check(&self, record: &AccountRecord, program_id: &Address) -> (ok: bool)
        ensures
            ok == self@.holds(record@, *program_id),
    {
        match self {
            Constraint::Signer => record.is_signer,
            Constraint::Writable => record.is_writable,
            Constraint::OwnedBy(owner) => record.owner == *owner,
            Constraint::DerivedFrom(seeds) => verify(&record.address, seeds, program_id),
            Constraint::Uninitialized => record.is_uninitialized(),
            Constraint::Discriminator(tag) => record.has_tag(tag),
            Constraint::HasAddress(address) => record.address == *address,
            Constraint::Executable => record.is_executable,
        }
    }
}

/// The predicates declared for one named slot of an instruction.
#[derive(Clone, Debug, PartialEq, Eq)]
pub struct ConstraintSet {
    pub slot: String,
    pub predicates: Vec<Constraint>,
}

/// The mathematical content of a [`ConstraintSet`].
pub ghost struct ConstraintSetView {
    pub slot: Seq<char>,
    pub predicates: Seq<ConstraintView>,
}

impl View for ConstraintSet {
    type V = ConstraintSetView;

    open spec fn view(&self) -> ConstraintSetView {
        ConstraintSetView {
            slot: self.slot@,
            predicates: Seq::new(self.predicates@.len(), |i: int| self.predicates@[i]@),
        }
    }
}

/// Every predicate holds of the account.
pub open spec fn all_hold(
    account: AccountView,
    predicates: Seq<ConstraintView>,
    program_id: Address,
) -> bool {
    forall|i: int|
        0 <= i < predicates.len() ==> (#[trigger] predicates[i]).holds(account, program_id)
}

/// The predicate at `i` fails and every predicate before it holds.
pub open spec fn fails_first_at(
    account: AccountView,
    predicates: Seq<ConstraintView>,
    program_id: Address,
    i: int,
) -> bool {
    &&& 0 <= i < predicates.len()
    &&& !predicates[i].holds(account, program_id)
    &&& forall|j: int| 0 <= j < i ==> (#[trigger] predicates[j]).holds(account, program_id)
}

/// The kind of the first predicate that fails, in declared order; `None`
/// where all hold.
pub open spec fn violation(
    account: AccountView,
    predicates: Seq<ConstraintView>,
    program_id: Address,
) -> Option<ViolationKind> {
    if exists|i: int| fails_first_at(account, predicates, program_id, i) {
        let first = choose|i: int| fails_first_at(account, predicates, program_id, i);
        Some(predicates[first].kind())
    } else {
        None
    }
}

/// What validation of an account against a constraint set reports: `None`
/// for an account that passes, else the violation with the slot's name.
pub open spec fn rejection(
    account: AccountView,
    set: ConstraintSetView,
    program_id: Address,
) -> Option<EngineErrorView> {
    match violation(account, set.predicates, program_id) {
        Some(kind) => Some(EngineErrorView::ConstraintViolation { kind, slot: set.slot }),
        None => None,
    }
}

/// Only one predicate can be the first to fail.
pub proof fn lemma_first_failure_unique(
    account: AccountView,
    predicates: Seq<ConstraintView>,
    program_id: Address,
    i: int,
    j: int,
)
    requires
        fails_first_at(account, predicates, program_id, i),
        fails_first_at(account, predicates, program_id, j),
    ensures
        i == j,
{
    if i < j {
        assert(predicates[i].holds(account, program_id));
    } else if j < i {
        assert(predicates[j].holds(account, program_id));
    }
}

/// Where some predicate fails, one of them is the first to fail.
pub proof fn lemma_some_failure_is_first(
    account: AccountView,
    predicates: Seq<ConstraintView>,
    program_id: Address,
    i: int,
) -> (first: int)
    requires
        0 <= i < predicates.len(),
        !predicates[i].holds(account, program_id),
    ensures
        first <= i,
        fails_first_at(account, predicates, program_id, first),
    decreases i,
{
    if exists|j: int| 0 <= j < i && !(#[trigger] predicates[j]).holds(account, program_id) {
        let j = choose|j: int| 0 <= j < i && !(#[trigger] predicates[j]).holds(account, program_id);
        lemma_some_failure_is_first(account, predicates, program_id, j)
    } else {
        i
    }
}

/// The violation reported is that of the first failing predicate, and none
/// is reported exactly when all predicates hold.
pub proof fn lemma_violation(
    account: AccountView,
    predicates: Seq<ConstraintView>,
    program_id: Address,
)
    ensures
        violation(account, predicates, program_id) is None <==> all_hold(
            account,
            predicates,
            program_id,
        ),
        forall|i: int| #[trigger]
            fails_first_at(account, predicates, program_id, i) ==> violation(
                account,
                predicates,
                program_id,
            ) == Some(predicates[i].kind()),
{
    assert forall|i: int| #[trigger]
        fails_first_at(account, predicates, program_id, i) implies violation(
        account,
        predicates,
        program_id,
    ) == Some(predicates[i].kind()) by {
        let first = choose|k: int| fails_first_at(account, predicates, program_id, k);
        lemma_first_failure_unique(account, predicates, program_id, first, i);
    }
    if !all_hold(account, predicates, program_id) {
        let i = choose|i: int|
            0 <= i < predicates.len() && !(#[trigger] predicates[i]).holds(account, program_id);
        let first = lemma_some_failure_is_first(account, predicates, program_id, i);
    }
}

/// An account that passed validation. A handle can only be had from
/// [`validate`]; it borrows the record and never changes it.
#[derive(Clone, Copy, Debug)]
pub struct ValidatedAccount<'a> {
    record: &'a AccountRecord,
}

impl<'a> View for ValidatedAccount<'a> {
    type V = AccountView;

    closed spec fn view(&self) -> AccountView {
        self.record@
    }
}

impl<'a> ValidatedAccount<'a> {
    /// The record behind the handle.
    pub fn record(&self) -> (record: &'a AccountRecord)
        ensures
            record@ == self@,
    {
        self.record
    }
}

/// Validates an account against the constraint set of its slot, on behalf
/// of the program `program_id`.
///
/// The predicates are evaluated in declared order. The account passes when
/// all of them hold; otherwise the first that fails is reported, with the
/// slot's name.
pub fn validate<'a>(record: &'a AccountRecord, set: &ConstraintSet, program_id: &Address) -> (r:
    Result<ValidatedAccount<'a>, EngineError>)
    ensures
        match r {
            Ok(account) => rejection(record@, set@, *program_id) is None && account@ == record@,
            Err(e) => rejection(record@, set@, *program_id) == Some(e@),
        },
{
    let ghost predicates = set@.predicates;
    let mut i: usize = 0;
    while i < set.predicates.len()
        invariant
            i <= set.predicates.len(),
            predicates == set@.predicates,
            forall|j: int| 0 <= j < i ==> (#[trigger] predicates[j]).holds(record@, *program_id),
        decreases set.predicates.len() - i,
    {
        let predicate = &set.predicates[i];
        assert(predicate@ == predicates[i as int]);
        if !predicate.check(record, program_id) {
            proof {
                assert(fails_first_at(record@, predicates, *program_id, i as int));
                lemma_violation(record@, predicates, *program_id);
            }
            return Err(
                EngineError::ConstraintViolation { kind: predicate.kind(), slot: set.slot.clone() },
            );
        }
        i = i + 1;
    }
    proof {
        assert(all_hold(record@, predicates, *program_id));
        lemma_violation(record@, predicates, *program_id);
    }
    Ok(ValidatedAccount { record })
}

/// With a predicate that requires another owner than the account has,
/// validation always fails; and it fails with an ownership violation where
/// the predicates declared before that one hold.
pub proof fn law_wrong_owner_rejected(
    account: AccountView,
    predicates: Seq<ConstraintView>,
    program_id: Address,
    i: int,
    required: Address,
)
    requires
        0 <= i < predicates.len(),
        predicates[i] == ConstraintView::OwnedBy(required),
        account.owner != required,
    ensures
        violation(account, predicates, program_id) is Some,
        (forall|j: int| 0 <= j < i ==> (#[trigger] predicates[j]).holds(account, program_id))
            ==> violation(account, predicates, program_id) == Some(ViolationKind::Owner),
{
    lemma_violation(account, predicates, program_id);
    assert(!predicates[i].holds(account, program_id));
    if forall|j: int| 0 <= j < i ==> (#[trigger] predicates[j]).holds(account, program_id) {
        assert(fails_first_at(account, predicates, program_id, i));
    }
}

/// An account that passes a tag predicate fails the tag predicate of every
/// other tag, whatever the rest of its data.
pub proof fn law_tag_excludes_other_tags(
    account: AccountView,
    program_id: Address,
    a: Seq<u8>,
    b: Seq<u8>,
)
    requires
        ConstraintView::Discriminator(a).holds(account, program_id),
        a != b,
    ensures
        !ConstraintView::Discriminator(b).holds(account, program_id),
{
}

} // verus!
