//! The entry layer: from an instruction tag and a raw account list to the
//! handler's validated accounts.
//!
//! A program declares its instructions once, each with its tag and the
//! constraint sets of its account slots. For an incoming instruction the
//! declaration is looked up and every slot is validated, in order, before
//! any handler runs. The first failure ends the instruction: a handler is
//! never given an account list that was checked in part.

use vstd::prelude::*;
use crate::account::{AccountRecord, AccountView};
use crate::address::Address;
use crate::constraint::{
    lemma_violation, rejection, validate, ConstraintSet, ConstraintSetView, ValidatedAccount,
};
use crate::error::{EngineError, EngineErrorView};

verus! {

/// The declaration of one instruction: its tag and the constraint sets of
/// its account slots, in the order of the account list.
#[derive(Clone, Debug, PartialEq, Eq)]
pub struct InstructionSpec {
    pub tag: u64,
    pub slots: Vec<ConstraintSet>,
}

/// The mathematical content of an [`InstructionSpec`].
pub ghost struct InstructionSpecView {
    pub tag: u64,
    pub slots: Seq<ConstraintSetView>,
}

/// The contents of a list of constraint sets.
pub open spec fn slots_view(slots: Seq<ConstraintSet>) -> Seq<ConstraintSetView> {
    Seq::new(slots.len(), |i: int| slots[i]@)
}

/// The contents of a list of account records.
pub open spec fn records_view(records: Seq<AccountRecord>) -> Seq<AccountView> {
    Seq::new(records.len(), |i: int| records[i]@)
}

/// The contents of a list of validated accounts.
pub open spec fn validated_view(accounts: Seq<ValidatedAccount<'_>>) -> Seq<AccountView> {
    Seq::new(accounts.len(), |i: int| accounts[i]@)
}

impl View for InstructionSpec {
    type V = InstructionSpecView;

    open spec fn view(&self) -> InstructionSpecView {
        InstructionSpecView { tag: self.tag, slots: slots_view(self.slots@) }
    }
}

/// A program: its own id and the instructions it declares.
#[derive(Clone, Debug, PartialEq, Eq)]
pub struct Program {
    pub id: Address,
    pub instructions: Vec<InstructionSpec>,
}

/// The mathematical content of a [`Program`].
pub ghost struct ProgramView {
    pub id: Address,
    pub instructions: Seq<InstructionSpecView>,
}

impl View for Program {
    type V = ProgramView;

    open spec fn view(&self) -> ProgramView {
        ProgramView {
            id: self.id,
            instructions: Seq::new(self.instructions@.len(), |i: int| self.instructions@[i]@),
        }
    }
}

/// What stands against filling slot `i`: the account list is too short, or
/// the account at `i` fails the slot's constraint set. `None` where the slot
/// is filled by an account that passes.
pub open spec fn slot_failure(
    records: Seq<AccountView>,
    slots: Seq<ConstraintSetView>,
    program_id: Address,
    i: int,
) -> Option<EngineErrorView> {
    if i >= records.len() {
        Some(EngineErrorView::MissingAccount { slot: slots[i].slot })
    } else {
        rejection(records[i], slots[i], program_id)
    }
}

/// Slot `i` is the first that cannot be filled.
pub open spec fn fails_first_at_slot(
    records: Seq<AccountView>,
    slots: Seq<ConstraintSetView>,
    program_id: Address,
    i: int,
) -> bool {
    &&& 0 <= i < slots.len()
    &&& slot_failure(records, slots, program_id, i) is Some
    &&& forall|j: int| 0 <= j < i ==> slot_failure(records, slots, program_id, j) is None
}

/// Every slot is filled by an account that passes its constraint set.
pub open spec fn all_filled(
    records: Seq<AccountView>,
    slots: Seq<ConstraintSetView>,
    program_id: Address,
) -> bool {
    forall|i: int| 0 <= i < slots.len() ==> slot_failure(records, slots, program_id, i) is None
}

/// The failure of the first slot that cannot be filled, in slot order;
/// `None` where all slots are filled.
pub open spec fn first_failure(
    records: Seq<AccountView>,
    slots: Seq<ConstraintSetView>,
    program_id: Address,
) -> Option<EngineErrorView> {
    if exists|i: int| fails_first_at_slot(records, slots, program_id, i) {
        let first = choose|i: int| fails_first_at_slot(records, slots, program_id, i);
        slot_failure(records, slots, program_id, first)
    } else {
        None
    }
}

/// Only one slot can be the first to fail.
pub proof fn lemma_first_slot_unique(
    records: Seq<AccountView>,
    slots: Seq<ConstraintSetView>,
    program_id: Address,
    i: int,
    j: int,
)
    requires
        fails_first_at_slot(records, slots, program_id, i),
        fails_first_at_slot(records, slots, program_id, j),
    ensures
        i == j,
{
    if i < j {
        assert(slot_failure(records, slots, program_id, i) is None);
    } else if j < i {
        assert(slot_failure(records, slots, program_id, j) is None);
    }
}

/// Where some slot fails, one of them is the first to fail.
pub proof fn lemma_some_slot_is_first(
    records: Seq<AccountView>,
    slots: Seq<ConstraintSetView>,
    program_id: Address,
    i: int,
) -> (first: int)
    requires
        0 <= i < slots.len(),
        slot_failure(records, slots, program_id, i) is Some,
    ensures
        first <= i,
        fails_first_at_slot(records, slots, program_id, first),
    decreases i,
{
    if exists|j: int| 0 <= j < i && slot_failure(records, slots, program_id, j) is Some {
        let j = choose|j: int| 0 <= j < i && slot_failure(records, slots, program_id, j) is Some;
        lemma_some_slot_is_first(records, slots, program_id, j)
    } else {
        i
    }
}

/// The failure reported is that of the first slot that fails, and none is
/// reported exactly when every slot is filled.
pub proof fn lemma_first_failure(
    records: Seq<AccountView>,
    slots: Seq<ConstraintSetView>,
    program_id: Address,
)
    ensures
        first_failure(records, slots, program_id) is None <==> all_filled(
            records,
            slots,
            program_id,
        ),
        forall|i: int| #[trigger]
            fails_first_at_slot(records, slots, program_id, i) ==> first_failure(
                records,
                slots,
                program_id,
            ) == slot_failure(records, slots, program_id, i),
{
    assert forall|i: int| #[trigger]
        fails_first_at_slot(records, slots, program_id, i) implies first_failure(
        records,
        slots,
        program_id,
    ) == slot_failure(records, slots, program_id, i) by {
        let first = choose|k: int| fails_first_at_slot(records, slots, program_id, k);
        lemma_first_slot_unique(records, slots, program_id, first, i);
    }
    if !all_filled(records, slots, program_id) {
        let i = choose|i: int|
            0 <= i < slots.len() && slot_failure(records, slots, program_id, i) is Some;
        let first = lemma_some_slot_is_first(records, slots, program_id, i);
    }
}

/// Where no slot fails, every slot is filled, and the account in it
/// satisfies every predicate declared for the slot.
pub proof fn law_filled_slots_hold(
    records: Seq<AccountView>,
    slots: Seq<ConstraintSetView>,
    program_id: Address,
    i: int,
    k: int,
)
    requires
        first_failure(records, slots, program_id) is None,
        0 <= i < slots.len(),
        0 <= k < slots[i].predicates.len(),
    ensures
        i < records.len(),
        slots[i].predicates[k].holds(records[i], program_id),
{
    lemma_first_failure(records, slots, program_id);
    assert(slot_failure(records, slots, program_id, i) is None);
    lemma_violation(records[i], slots[i].predicates, program_id);
}

/// Validates the account list of an instruction against its slots, on
/// behalf of the program `program_id`.
///
/// The account at each position is validated against the slot at that
/// position, in order. Accounts beyond the last slot are left alone. The
/// first slot that cannot be filled ends the validation with its failure;
/// otherwise the validated accounts come back, one per slot.
pub fn validate_all<'a>(
    records: &'a Vec<AccountRecord>,
    slots: &Vec<ConstraintSet>,
    program_id: &Address,
) -> (r: Result<Vec<ValidatedAccount<'a>>, EngineError>)
    ensures
        match r {
            Ok(accounts) => first_failure(
                records_view(records@),
                slots_view(slots@),
                *program_id,
            ) is None && slots@.len() <= records@.len() && accounts@.len() == slots@.len()
                && validated_view(accounts@) == records_view(records@).take(slots@.len() as int),
            Err(e) => first_failure(records_view(records@), slots_view(slots@), *program_id)
                == Some(e@),
        },
{
    let ghost rs = records_view(records@);
    let ghost ss = slots_view(slots@);
    let mut accounts: Vec<ValidatedAccount<'a>> = Vec::new();
    let mut i: usize = 0;
    while i < slots.len()
        invariant
            i <= slots.len(),
            rs == records_view(records@),
            ss == slots_view(slots@),
            i <= records.len(),
            accounts@.len() == i,
            forall|j: int| 0 <= j < i ==> slot_failure(rs, ss, *program_id, j) is None,
            forall|j: int| 0 <= j < i ==> (#[trigger] accounts@[j])@ == rs[j],
        decreases slots.len() - i,
    {
        if i >= records.len() {
            proof {
                assert(fails_first_at_slot(rs, ss, *program_id, i as int));
                lemma_first_failure(rs, ss, *program_id);
            }
            return Err(EngineError::MissingAccount { slot: slots[i].slot.clone() });
        }
        match validate(&records[i], &slots[i], program_id) {
            Ok(account) => {
                accounts.push(account);
            },
            Err(e) => {
                proof {
                    assert(fails_first_at_slot(rs, ss, *program_id, i as int));
                    lemma_first_failure(rs, ss, *program_id);
                }
                return Err(e);
            },
        }
        i = i + 1;
    }
    proof {
        assert(all_filled(rs, ss, *program_id));
        lemma_first_failure(rs, ss, *program_id);
        assert(validated_view(accounts@) =~= rs.take(slots@.len() as int));
    }
    Ok(accounts)
}

/// `i` is the first declared instruction with the tag.
pub open spec fn declared_at(instructions: Seq<InstructionSpecView>, tag: u64, i: int) -> bool {
    &&& 0 <= i < instructions.len()
    &&& instructions[i].tag == tag
    &&& forall|j: int| 0 <= j < i ==> (#[trigger] instructions[j]).tag != tag
}

/// The position of the first declared instruction with the tag.
pub open spec fn lookup_spec(instructions: Seq<InstructionSpecView>, tag: u64) -> Option<int> {
    if exists|i: int| declared_at(instructions, tag, i) {
        Some(choose|i: int| declared_at(instructions, tag, i))
    } else {
        None
    }
}

/// Finds the declaration of the instruction with the given tag: the first
/// one, where several carry it.
pub fn lookup(program: &Program, tag: u64) -> (r: Option<usize>)
    ensures
        match r {
            Some(i) => lookup_spec(program@.instructions, tag) == Some(i as int),
            None => lookup_spec(program@.instructions, tag) is None,
        },
        r matches Some(i) ==> i < program.instructions@.len() && program.instructions@[i as int].tag
            == tag,
        r is None ==> forall|j: int|
            0 <= j < program.instructions@.len() ==> (#[trigger] program.instructions@[j]).tag
                != tag,
{
    let ghost declared = program@.instructions;
    let mut i: usize = 0;
    while i < program.instructions.len()
        invariant
            i <= program.instructions.len(),
            declared == program@.instructions,
            forall|j: int| 0 <= j < i ==> (#[trigger] declared[j]).tag != tag,
        decreases program.instructions.len() - i,
    {
        if program.instructions[i].tag == tag {
            proof {
                assert(declared[i as int].tag == tag);
                assert(declared_at(declared, tag, i as int));
                let chosen = choose|k: int| declared_at(declared, tag, k);
                if chosen < i {
                    assert(declared[chosen].tag != tag);
                } else if i < chosen {
                    assert(declared[i as int].tag != tag);
                }
            }
            return Some(i);
        }
        i = i + 1;
    }
    proof {
        assert forall|k: int| !declared_at(declared, tag, k) by {
            if 0 <= k < declared.len() {
                assert(declared[k].tag != tag);
            }
        }
        assert forall|j: int| 0 <= j < program.instructions@.len() implies (
        #[trigger] program.instructions@[j]).tag != tag by {
            assert(declared[j].tag != tag);
        }
    }
    None
}

/// An instruction that passed the entry layer: which declaration it matched
/// and its validated accounts, one per declared slot.
#[derive(Clone, Debug)]
pub struct Dispatched<'a> {
    pub index: usize,
    pub accounts: Vec<ValidatedAccount<'a>>,
}

/// What [`dispatch`] returns: the matched declaration and the accounts of
/// its slots, or the failure that ended the instruction.
pub open spec fn dispatch_spec(program: ProgramView, tag: u64, records: Seq<AccountView>) -> Result<
    (int, Seq<AccountView>),
    EngineErrorView,
> {
    match lookup_spec(program.instructions, tag) {
        None => Err(EngineErrorView::UnknownInstruction { tag }),
        Some(i) => match first_failure(records, program.instructions[i].slots, program.id) {
            Some(e) => Err(e),
            None => Ok((i, records.take(program.instructions[i].slots.len() as int))),
        },
    }
}

/// Takes an incoming instruction through the entry layer.
///
/// Looks up the declaration for `tag` and validates the account list
/// against its slots. On success the caller runs the handler of the matched
/// declaration on the validated accounts; on any failure no handler is to
/// run.
pub fn dispatch<'a>(program: &Program, tag: u64, records: &'a Vec<AccountRecord>) -> (r: Result<
    Dispatched<'a>,
    EngineError,
>)
    ensures
        match r {
            Ok(d) => dispatch_spec(program@, tag, records_view(records@)) == Ok::<
                (int, Seq<AccountView>),
                EngineErrorView,
            >((d.index as int, validated_view(d.accounts@))),
            Err(e) => dispatch_spec(program@, tag, records_view(records@)) == Err::<
                (int, Seq<AccountView>),
                EngineErrorView,
            >(e@),
        },
{
    match lookup(program, tag) {
        None => Err(EngineError::UnknownInstruction { tag }),
        Some(index) => {
            assert(program@.instructions[index as int].slots == slots_view(
                program.instructions@[index as int].slots@,
            ));
            match validate_all(records, &program.instructions[index].slots, &program.id) {
                Ok(accounts) => Ok(Dispatched { index, accounts }),
                Err(e) => Err(e),
            }
        },
    }
}

/// Takes an incoming instruction through the entry layer and runs its
/// handler.
///
/// The handler is called once, with the position of the matched declaration,
/// the validated accounts of its slots and the payload, and only after every
/// slot was validated. It has to accept what the entry layer can hand it for
/// this instruction, and nothing else. On any failure of the entry layer the
/// handler is not called and the failure is the result.
pub fn handle<'a, T, F>(
    program: &Program,
    tag: u64,
    records: &'a Vec<AccountRecord>,
    payload: &Vec<u8>,
    handler: F,
) -> (r: Result<T, EngineError>) where
    F: FnOnce(usize, Vec<ValidatedAccount<'a>>, &Vec<u8>) -> Result<T, EngineError>,

    requires
        forall|index: usize, accounts: Vec<ValidatedAccount<'a>>|
            dispatch_spec(program@, tag, records_view(records@)) == Ok::<
                (int, Seq<AccountView>),
                EngineErrorView,
            >((index as int, validated_view(accounts@))) ==> #[trigger] handler.requires(
                (index, accounts, payload),
            ),
    ensures
        match dispatch_spec(program@, tag, records_view(records@)) {
            Ok((index, views)) => exists|accounts: Vec<ValidatedAccount<'a>>|
                #[trigger] validated_view(accounts@) == views && handler.ensures(
                    (index as usize, accounts, payload),
                    r,
                ),
            Err(e) => r matches Err(failure) && failure@ == e,
        },
{
    match dispatch(program, tag, records) {
        Ok(dispatched) => {
            let ghost accounts = dispatched.accounts;
            let r = handler(dispatched.index, dispatched.accounts, payload);
            assert(validated_view(accounts@) == dispatch_spec(
                program@,
                tag,
                records_view(records@),
            )->Ok_0.1);
            r
        },
        Err(e) => Err(e),
    }
}

} // verus!
