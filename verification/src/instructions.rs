//! The instructions of the vault programs: the account set that each one
//! declares, and its handler.
//!
//! An account set names the slots of an instruction and declares their
//! constraints. It is filled from the raw account list by validation alone.
//! A handler asks for an account set as validation leaves it, and changes
//! nothing itself: it returns what is to be stored or invoked. For every
//! instruction there is an entry function that validates the account list
//! and then runs the handler.

use vstd::prelude::*;
use vstd::bytes::spec_u64_to_le_bytes;
use anchor_lang::prelude::Pubkey;
use anchor_lang::solana_program::system_instruction;
use crate::account::{
    carries_tag, is_blank, law_state_round_trip, law_stored_state_is_not_blank, AccountRecord,
    AccountView, State, STATE_LEN, STATE_TAG,
};
use crate::address::{lemma_address_bytes, Address};
use crate::constraint::{
    fails_first_at, lemma_violation, Constraint, ConstraintSet, ConstraintSetView, ConstraintView,
    ValidatedAccount,
};
use crate::derivation::{Seed, SeedSpec, SeedSpecView};
use crate::dispatch::{
    fails_first_at_slot, first_failure, law_filled_slots_hold, lemma_first_failure, records_view,
    slot_failure, slots_view, validate_all, validated_view,
};
use crate::error::{EngineError, EngineErrorView, ViolationKind};
use crate::invocation::{
    build, claims_valid, claims_view, flags_valid, refs_view, AccountMeta, AccountRef,
    AccountRefView, AuthorityView, DelegatedAuthority, DelegatedAuthorityView,
    InvocationDescriptor, InvocationView,
};

verus! {

/// The address of the system program.
pub const SYSTEM_PROGRAM_ID: [u8; 32] = [
    0, 0, 0, 0, 0, 0, 0, 0, 0, 0, 0, 0, 0, 0, 0, 0,
    0, 0, 0, 0, 0, 0, 0, 0, 0, 0, 0, 0, 0, 0, 0, 0,
];

/// The address of the token program.
pub const TOKEN_PROGRAM_ID: [u8; 32] = [
    6, 221, 246, 225, 215, 101, 161, 147, 217, 203, 225, 70, 206, 235, 121, 172,
    28, 180, 133, 237, 95, 91, 55, 145, 58, 140, 245, 133, 126, 255, 0, 169,
];

/// The address of the rent sysvar.
pub const RENT_SYSVAR_ID: [u8; 32] = [
    6, 167, 213, 23, 25, 44, 92, 81, 33, 140, 201, 76, 61, 74, 241, 127,
    88, 218, 238, 8, 155, 161, 253, 68, 227, 219, 217, 138, 0, 0, 0, 0,
];

/// The address of the system program.
pub open spec fn system_program() -> Address {
    Address { bytes: SYSTEM_PROGRAM_ID }
}

/// The address of the token program.
pub open spec fn token_program() -> Address {
    Address { bytes: TOKEN_PROGRAM_ID }
}

/// The address of the rent sysvar.
pub open spec fn rent_sysvar() -> Address {
    Address { bytes: RENT_SYSVAR_ID }
}

/// The address of the system program.
pub fn system_program_id() -> (id: Address)
    ensures
        id == system_program(),
{
    Address { bytes: SYSTEM_PROGRAM_ID }
}

/// The address of the token program.
pub fn token_program_id() -> (id: Address)
    ensures
        id == token_program(),
{
    Address { bytes: TOKEN_PROGRAM_ID }
}

/// The address of the rent sysvar.
pub fn rent_sysvar_id() -> (id: Address)
    ensures
        id == rent_sysvar(),
{
    Address { bytes: RENT_SYSVAR_ID }
}

/// What a handler is given: the id of the program that runs and the
/// validated accounts of the instruction.
#[derive(Clone, Copy, Debug)]
pub struct Context<T> {
    pub program_id: Address,
    pub accounts: T,
}

/// A constraint set under a slot name.
fn slot_of(name: &str, predicates: Vec<Constraint>) -> (set: ConstraintSet)
    ensures
        set.slot@ == name@,
        set.predicates == predicates,
{
    ConstraintSet { slot: name.to_owned(), predicates }
}

/// The predicates of an account that pays: it signs and is written to.
fn payer_predicates() -> (predicates: Vec<Constraint>)
    ensures
        predicates@ == seq![Constraint::Signer, Constraint::Writable],
{
    let mut predicates: Vec<Constraint> = Vec::new();
    predicates.push(Constraint::Signer);
    predicates.push(Constraint::Writable);
    predicates
}

/// The predicates of a slot for the program `id`: the account sits at that
/// address and is executable.
fn program_predicates(id: Address) -> (predicates: Vec<Constraint>)
    ensures
        predicates@ == seq![Constraint::HasAddress(id), Constraint::Executable],
{
    let mut predicates: Vec<Constraint> = Vec::new();
    predicates.push(Constraint::HasAddress(id));
    predicates.push(Constraint::Executable);
    predicates
}

/// The constraint set of a slot named `payer`.
pub open spec fn payer_slot() -> ConstraintSetView {
    ConstraintSetView {
        slot: "payer"@,
        predicates: seq![ConstraintView::Signer, ConstraintView::Writable],
    }
}

/// The constraint set of a slot for the program `id`.
pub open spec fn program_slot(name: Seq<char>, id: Address) -> ConstraintSetView {
    ConstraintSetView {
        slot: name,
        predicates: seq![ConstraintView::HasAddress(id), ConstraintView::Executable],
    }
}

/// The account is the program `id`.
pub open spec fn is_program(account: AccountView, id: Address) -> bool {
    account.address == id && account.is_executable
}

/// The account set of `initialize`: no accounts.
#[derive(Clone, Copy, Debug, PartialEq, Eq)]
pub struct Initialize {}

impl Initialize {
    /// The declared slots: none.
    pub fn slots() -> (slots: Vec<ConstraintSet>)
        ensures
            slots@.len() == 0,
    {
        Vec::new()
    }

    /// Fills the account set. With no slot declared, any account list will
    /// do.
    pub fn try_accounts(program_id: &Address, records: &Vec<AccountRecord>) -> (r: Result<
        Initialize,
        EngineError,
    >)
        ensures
            r is Ok,
    {
        Ok(Initialize {  })
    }
}

/// Handler of `initialize`: there is nothing to do.
pub fn initialize(ctx: Context<Initialize>) -> (r: Result<(), EngineError>)
    ensures
        r is Ok,
{
    Ok(())
}

/// Entry of `initialize`: any account list is accepted and the handler runs.
pub fn run_initialize(program_id: &Address, records: &Vec<AccountRecord>) -> (r: Result<
    (),
    EngineError,
>)
    ensures
        r is Ok,
{
    match Initialize::try_accounts(program_id, records) {
        Ok(accounts) => initialize(Context { program_id: *program_id, accounts }),
        Err(e) => Err(e),
    }
}

/// The account set of `initialize_with_pda`.
#[derive(Clone, Copy, Debug)]
pub struct InitializeWithPda<'a> {
    pub payer: ValidatedAccount<'a>,
    pub state: ValidatedAccount<'a>,
    pub system_program: ValidatedAccount<'a>,
}

/// The seeds of the state account: the word `state` and the payer's address.
pub open spec fn state_seeds(payer: Address) -> SeedSpecView {
    SeedSpecView {
        components: seq![seq![115u8, 116u8, 97u8, 116u8, 101u8], payer.bytes@],
        bump: None,
    }
}

/// The payer whose address enters the seeds: the first account of the list.
pub open spec fn payer_of(records: Seq<AccountView>) -> Address {
    if records.len() > 0 {
        records[0].address
    } else {
        arbitrary()
    }
}

impl<'a> InitializeWithPda<'a> {
    /// The declared slots, for the given payer.
    pub open spec fn slots_spec(payer: Address) -> Seq<ConstraintSetView> {
        seq![
            payer_slot(),
            ConstraintSetView {
                slot: "state"@,
                predicates: seq![
                    ConstraintView::Writable,
                    ConstraintView::DerivedFrom(state_seeds(payer)),
                    ConstraintView::Uninitialized,
                ],
            },
            program_slot("system_program"@, system_program()),
        ]
    }

    /// The declared slots: the payer signs and is written to; the state
    /// account is written to, sits at the address derived from the word
    /// `state` and the payer's address, and holds no state yet; the third
    /// account is the system program.
    pub fn slots(payer: &Address) -> (slots: Vec<ConstraintSet>)
        ensures
            slots_view(slots@) == Self::slots_spec(*payer),
    {
        let mut word: Vec<u8> = Vec::new();
        word.push(115);
        word.push(116);
        word.push(97);
        word.push(116);
        word.push(101);
        let mut components: Vec<Seed> = Vec::new();
        components.push(Seed::Literal(word));
        components.push(Seed::Key(*payer));
        let seeds = SeedSpec { components, bump: None };
        assert(seeds@.components =~~= state_seeds(*payer).components);
        let mut state: Vec<Constraint> = Vec::new();
        state.push(Constraint::Writable);
        state.push(Constraint::DerivedFrom(seeds));
        state.push(Constraint::Uninitialized);
        let mut slots: Vec<ConstraintSet> = Vec::new();
        slots.push(slot_of("payer", payer_predicates()));
        slots.push(slot_of("state", state));
        slots.push(slot_of("system_program", program_predicates(system_program_id())));
        proof {
            let expected = Self::slots_spec(*payer);
            assert(slots@[0]@.predicates =~= expected[0].predicates);
            assert(slots@[1]@.predicates =~= expected[1].predicates);
            assert(slots@[2]@.predicates =~= expected[2].predicates);
            assert(slots_view(slots@) =~= expected);
        }
        slots
    }

    /// What validation on behalf of `program_id` establishes of the
    /// accounts.
    pub open spec fn wf(self, program_id: Address) -> bool {
        &&& self.payer@.is_signer
        &&& self.payer@.is_writable
        &&& self.state@.is_writable
        &&& ConstraintView::DerivedFrom(state_seeds(self.payer@.address)).holds(
            self.state@,
            program_id,
        )
        &&& is_blank(self.state@.data)
        &&& is_program(self.system_program@, system_program())
    }

    /// Fills the account set from the account list: payer, state account and
    /// system program, in that order.
    pub fn try_accounts(program_id: &Address, records: &'a Vec<AccountRecord>) -> (r: Result<
        InitializeWithPda<'a>,
        EngineError,
    >)
        ensures
            match r {
                Ok(accounts) => {
                    &&& first_failure(
                        records_view(records@),
                        Self::slots_spec(payer_of(records_view(records@))),
                        *program_id,
                    ) is None
                    &&& records@.len() >= 3
                    &&& accounts.payer@ == records@[0]@
                    &&& accounts.state@ == records@[1]@
                    &&& accounts.system_program@ == records@[2]@
                    &&& accounts.wf(*program_id)
                },
                Err(e) => first_failure(
                    records_view(records@),
                    Self::slots_spec(payer_of(records_view(records@))),
                    *program_id,
                ) == Some(e@),
            },
    {
        if records.len() == 0 {
            proof {
                let rs = records_view(records@);
                let ss = Self::slots_spec(payer_of(rs));
                assert(fails_first_at_slot(rs, ss, *program_id, 0));
                lemma_first_failure(rs, ss, *program_id);
            }
            return Err(EngineError::MissingAccount { slot: "payer".to_owned() });
        }
        let slots = Self::slots(&records[0].address);
        assert(slots_view(slots@).len() == 3);
        match validate_all(records, &slots, program_id) {
            Ok(accounts) => {
                assert(accounts@[0]@ == validated_view(accounts@)[0]);
                assert(accounts@[1]@ == validated_view(accounts@)[1]);
                assert(accounts@[2]@ == validated_view(accounts@)[2]);
                let filled = InitializeWithPda {
                    payer: accounts[0],
                    state: accounts[1],
                    system_program: accounts[2],
                };
                proof {
                    let rs = records_view(records@);
                    let ss = Self::slots_spec(payer_of(rs));
                    law_filled_slots_hold(rs, ss, *program_id, 0, 0);
                    law_filled_slots_hold(rs, ss, *program_id, 0, 1);
                    law_filled_slots_hold(rs, ss, *program_id, 1, 0);
                    law_filled_slots_hold(rs, ss, *program_id, 1, 1);
                    law_filled_slots_hold(rs, ss, *program_id, 1, 2);
                    law_filled_slots_hold(rs, ss, *program_id, 2, 0);
                    law_filled_slots_hold(rs, ss, *program_id, 2, 1);
                    assert(rs.take(3)[0] == rs[0]);
                    assert(rs.take(3)[1] == rs[1]);
                    assert(rs.take(3)[2] == rs[2]);
                }
                Ok(filled)
            },
            Err(e) => Err(e),
        }
    }
}

/// Handler of `initialize_with_pda`: the state account starts with a count
/// of zero. The record returned is the one to store in the state account.
pub fn initialize_with_pda(ctx: Context<InitializeWithPda<'_>>) -> (r: Result<State, EngineError>)
    requires
        ctx.accounts.wf(ctx.program_id),
    ensures
        r == Ok::<State, EngineError>(State { count: 0 }),
{
    Ok(State { count: 0 })
}

/// Entry of `initialize_with_pda`: validates the account list and runs the
/// handler. The first slot that cannot be filled is the failure; with every
/// slot filled the result is the state record to store.
pub fn run_initialize_with_pda(program_id: &Address, records: &Vec<AccountRecord>) -> (r: Result<
    State,
    EngineError,
>)
    ensures
        match first_failure(
            records_view(records@),
            InitializeWithPda::slots_spec(payer_of(records_view(records@))),
            *program_id,
        ) {
            Some(e) => r matches Err(failure) && failure@ == e,
            None => r == Ok::<State, EngineError>(State { count: 0 }),
        },
{
    match InitializeWithPda::try_accounts(program_id, records) {
        Ok(accounts) => initialize_with_pda(Context { program_id: *program_id, accounts }),
        Err(e) => Err(e),
    }
}

/// The state account as it stands after a first initialization: owned by
/// the program, its data the stored record.
pub open spec fn initialized(
    account: AccountView,
    program_id: Address,
    state: State,
) -> AccountView {
    AccountView { owner: program_id, data: state.encoding(), ..account }
}

/// A state account can be initialized once only. After an account list
/// passed the entry of `initialize_with_pda` and the state record was put
/// into the state account, the same list fails the entry with an init-state
/// violation on the slot `state`.
pub proof fn law_second_initialization_fails(
    records: Seq<AccountView>,
    program_id: Address,
    state: State,
)
    requires
        first_failure(records, InitializeWithPda::slots_spec(payer_of(records)), program_id)
            is None,
    ensures
        records.len() >= 3,
        ({
            let stored = initialized(records[1], program_id, state);
            let after = records.update(1, stored);
            &&& stored.owner == program_id
            &&& stored.address == records[1].address
            &&& stored.data.len() == STATE_LEN
            &&& carries_tag(stored.data, STATE_TAG@)
            &&& State::decoding(stored.data) == Some(state)
            &&& first_failure(after, InitializeWithPda::slots_spec(payer_of(after)), program_id)
                == Some(
                EngineErrorView::ConstraintViolation {
                    kind: ViolationKind::InitState,
                    slot: "state"@,
                },
            )
        }),
{
    law_state_round_trip(state);
    let slots = InitializeWithPda::slots_spec(payer_of(records));
    let stored = initialized(records[1], program_id, state);
    let after = records.update(1, stored);
    law_filled_slots_hold(records, slots, program_id, 1, 0);
    law_filled_slots_hold(records, slots, program_id, 1, 1);
    law_filled_slots_hold(records, slots, program_id, 2, 0);
    lemma_first_failure(records, slots, program_id);
    assert(slot_failure(after, slots, program_id, 0) == slot_failure(
        records,
        slots,
        program_id,
        0,
    ));
    law_stored_state_is_not_blank(state);
    let predicates = slots[1].predicates;
    assert(predicates[0].holds(stored, program_id));
    assert(predicates[1].holds(stored, program_id));
    assert(!predicates[2].holds(stored, program_id));
    assert(fails_first_at(stored, predicates, program_id, 2));
    lemma_violation(stored, predicates, program_id);
    assert(fails_first_at_slot(after, slots, program_id, 1));
    lemma_first_failure(after, slots, program_id);
}

/// The bytes of the system program's address: 32 zero bytes.
pub open spec fn system_program_bytes() -> Seq<u8> {
    Seq::new(32, |i: int| 0u8)
}

/// The payload of the system program's transfer instruction: its number, 2,
/// in four bytes, then the amount in eight, both in little-endian order.
pub open spec fn transfer_payload(lamports: u64) -> Seq<u8> {
    seq![2u8, 0u8, 0u8, 0u8] + spec_u64_to_le_bytes(lamports)
}

/// The system program's transfer instruction, as the ledger's SDK builds it.
struct SystemTransfer {
    program_id: Address,
    accounts: Vec<AccountMeta>,
    data: Vec<u8>,
}

/// Calls `system_instruction::transfer` of the ledger's SDK and hands its
/// instruction over field by field. Claimed of it, as its source shows: the
/// target is the system program, whose id is all zero; the funding account
/// comes first, writable and signing, the recipient second, writable and not
/// signing; and the data is the instruction's number and the amount as
/// [`transfer_payload`] lays them out.
#[verifier::external_body]
fn system_transfer(from: &Address, to: &Address, lamports: u64) -> (ix: SystemTransfer)
    ensures
        ix.program_id.bytes@ == system_program_bytes(),
        ix.accounts@ == seq![
            (AccountMeta { address: *from, is_writable: true, is_signer: true }),
            (AccountMeta { address: *to, is_writable: true, is_signer: false }),
        ],
        ix.data@ == transfer_payload(lamports),
{
    let payer = Pubkey::new_from_array(from.bytes);
    let recipient = Pubkey::new_from_array(to.bytes);
    let ix = system_instruction::transfer(&payer, &recipient, lamports);
    let mut accounts: Vec<AccountMeta> = Vec::with_capacity(ix.accounts.len());
    for meta in ix.accounts.iter() {
        let address = Address { bytes: meta.pubkey.to_bytes() };
        let (is_writable, is_signer) = (meta.is_writable, meta.is_signer);
        accounts.push(AccountMeta { address, is_writable, is_signer });
    }
    let program_id = Address { bytes: ix.program_id.to_bytes() };
    SystemTransfer { program_id, accounts, data: ix.data }
}

/// The account set of `transfer_with_cpi`.
#[derive(Clone, Copy, Debug)]
pub struct TransferWithCpi<'a> {
    pub payer: ValidatedAccount<'a>,
    pub recipient: ValidatedAccount<'a>,
    pub system_program: ValidatedAccount<'a>,
}

/// The account set of `cpi_transfer`: that of `transfer_with_cpi`.
pub type InitializeWithCpi<'a> = TransferWithCpi<'a>;

impl<'a> TransferWithCpi<'a> {
    /// The declared slots.
    pub open spec fn slots_spec() -> Seq<ConstraintSetView> {
        seq![
            payer_slot(),
            ConstraintSetView { slot: "recipient"@, predicates: seq![ConstraintView::Writable] },
            program_slot("system_program"@, system_program()),
        ]
    }

    /// The declared slots: the payer signs and is written to, the recipient
    /// is written to, and the third account is the system program.
    pub fn slots() -> (slots: Vec<ConstraintSet>)
        ensures
            slots_view(slots@) == Self::slots_spec(),
    {
        let mut recipient: Vec<Constraint> = Vec::new();
        recipient.push(Constraint::Writable);
        let mut slots: Vec<ConstraintSet> = Vec::new();
        slots.push(slot_of("payer", payer_predicates()));
        slots.push(slot_of("recipient", recipient));
        slots.push(slot_of("system_program", program_predicates(system_program_id())));
        proof {
            let expected = Self::slots_spec();
            assert(slots@[0]@.predicates =~= expected[0].predicates);
            assert(slots@[1]@.predicates =~= expected[1].predicates);
            assert(slots@[2]@.predicates =~= expected[2].predicates);
            assert(slots_view(slots@) =~= expected);
        }
        slots
    }

    /// What validation establishes of the accounts.
    pub open spec fn wf(self) -> bool {
        &&& self.payer@.is_signer
        &&& self.payer@.is_writable
        &&& self.recipient@.is_writable
        &&& is_program(self.system_program@, system_program())
    }

    /// Fills the account set from the account list: payer, recipient and
    /// system program, in that order.
    pub fn try_accounts(program_id: &Address, records: &'a Vec<AccountRecord>) -> (r: Result<
        TransferWithCpi<'a>,
        EngineError,
    >)
        ensures
            match r {
                Ok(accounts) => {
                    &&& first_failure(records_view(records@), Self::slots_spec(), *program_id)
                        is None
                    &&& records@.len() >= 3
                    &&& accounts.payer@ == records@[0]@
                    &&& accounts.recipient@ == records@[1]@
                    &&& accounts.system_program@ == records@[2]@
                    &&& accounts.wf()
                },
                Err(e) => first_failure(records_view(records@), Self::slots_spec(), *program_id)
                    == Some(e@),
            },
    {
        let slots = Self::slots();
        assert(slots_view(slots@).len() == 3);
        match validate_all(records, &slots, program_id) {
            Ok(accounts) => {
                assert(accounts@[0]@ == validated_view(accounts@)[0]);
                assert(accounts@[1]@ == validated_view(accounts@)[1]);
                assert(accounts@[2]@ == validated_view(accounts@)[2]);
                let filled = TransferWithCpi {
                    payer: accounts[0],
                    recipient: accounts[1],
                    system_program: accounts[2],
                };
                proof {
                    let rs = records_view(records@);
                    let ss = Self::slots_spec();
                    law_filled_slots_hold(rs, ss, *program_id, 0, 0);
                    law_filled_slots_hold(rs, ss, *program_id, 0, 1);
                    law_filled_slots_hold(rs, ss, *program_id, 1, 0);
                    law_filled_slots_hold(rs, ss, *program_id, 2, 0);
                    law_filled_slots_hold(rs, ss, *program_id, 2, 1);
                    assert(rs.take(3)[0] == rs[0]);
                    assert(rs.take(3)[1] == rs[1]);
                    assert(rs.take(3)[2] == rs[2]);
                }
                Ok(filled)
            },
            Err(e) => Err(e),
        }
    }
}

/// A transfer is refused unless the third account is the system program.
/// With payer and recipient as declared, an account at another address is
/// reported as an address violation on the slot `system_program`, and one
/// at the right address that is not executable as an executable violation
/// on that slot.
pub proof fn law_transfer_wants_the_system_program(records: Seq<AccountView>, program_id: Address)
    requires
        records.len() >= 3,
        records[0].is_signer,
        records[0].is_writable,
        records[1].is_writable,
        !is_program(records[2], system_program()),
    ensures
        first_failure(records, TransferWithCpi::slots_spec(), program_id) == Some(
            EngineErrorView::ConstraintViolation {
                kind: if records[2].address != system_program() {
                    ViolationKind::Address
                } else {
                    ViolationKind::Executable
                },
                slot: "system_program"@,
            },
        ),
{
    let slots = TransferWithCpi::slots_spec();
    lemma_violation(records[0], slots[0].predicates, program_id);
    lemma_violation(records[1], slots[1].predicates, program_id);
    lemma_violation(records[2], slots[2].predicates, program_id);
    assert(slot_failure(records, slots, program_id, 0) is None);
    assert(slot_failure(records, slots, program_id, 1) is None);
    if records[2].address != system_program() {
        assert(fails_first_at(records[2], slots[2].predicates, program_id, 0));
    } else {
        assert(slots[2].predicates[0].holds(records[2], program_id));
        assert(fails_first_at(records[2], slots[2].predicates, program_id, 1));
    }
    assert(fails_first_at_slot(records, slots, program_id, 2));
    lemma_first_failure(records, slots, program_id);
}

/// The invocation that moves `amount` lamports from `payer` to `recipient`:
/// a call of the system program's transfer instruction on the two accounts,
/// in that order, both writable, the payer signing, with no delegated
/// authority.
pub open spec fn transfer_view(
    payer: AccountView,
    recipient: AccountView,
    amount: u64,
) -> InvocationView {
    InvocationView {
        program_id: system_program(),
        accounts: seq![
            AccountMeta { address: payer.address, is_writable: true, is_signer: true },
            AccountMeta { address: recipient.address, is_writable: true, is_signer: false },
        ],
        payload: transfer_payload(amount),
        authorities: Seq::<AuthorityView>::empty(),
    }
}

/// Handler of `transfer_with_cpi`: describes the transfer of `amount`
/// lamports from the payer to the recipient by the system program. The
/// target of the descriptor is the program that was validated in the slot
/// `system_program`. The caller hands the descriptor to the host for
/// dispatch.
pub fn transfer_with_cpi(ctx: Context<TransferWithCpi<'_>>, amount: u64) -> (r: Result<
    InvocationDescriptor,
    EngineError,
>)
    requires
        ctx.accounts.wf(),
    ensures
        r matches Ok(descriptor) && descriptor@ == transfer_view(
            ctx.accounts.payer@,
            ctx.accounts.recipient@,
            amount,
        ) && descriptor.program_id == ctx.accounts.system_program@.address,
{
    let payer = ctx.accounts.payer.record();
    let recipient = ctx.accounts.recipient.record();
    let ix = system_transfer(&payer.address, &recipient.address, amount);
    assert(ix.accounts@.len() == 2);
    let mut accounts: Vec<AccountRef<'_>> = Vec::new();
    accounts.push(
        AccountRef {
            account: ctx.accounts.payer,
            writable: ix.accounts[0].is_writable,
            signer: ix.accounts[0].is_signer,
        },
    );
    accounts.push(
        AccountRef {
            account: ctx.accounts.recipient,
            writable: ix.accounts[1].is_writable,
            signer: ix.accounts[1].is_signer,
        },
    );
    let claims: Vec<DelegatedAuthority> = Vec::new();
    let target = ctx.accounts.system_program.record().address;
    proof {
        assert(system_program().bytes@ =~= system_program_bytes());
        lemma_address_bytes(ix.program_id, system_program());
        let refs = refs_view(accounts@);
        let none = claims_view(claims@);
        assert(refs =~= seq![
            AccountRefView { account: ctx.accounts.payer@, writable: true, signer: true },
            AccountRefView { account: ctx.accounts.recipient@, writable: true, signer: false },
        ]);
        assert(none =~= Seq::<DelegatedAuthorityView>::empty());
        assert(claims_valid(none, ctx.program_id));
        assert(flags_valid(refs, none));
    }
    let built = build(&ctx.program_id, &target, &accounts, &ix.data, &claims);
    proof {
        let expected = transfer_view(ctx.accounts.payer@, ctx.accounts.recipient@, amount);
        assert(built is Ok);
        let descriptor = built->Ok_0;
        assert(descriptor@.accounts =~= expected.accounts);
        assert(descriptor@.authorities =~= expected.authorities);
    }
    built
}

/// Entry of `transfer_with_cpi`: validates the account list and runs the
/// handler. The first slot that cannot be filled is the failure; with every
/// slot filled the result is the descriptor of the transfer, whose target is
/// the third account of the list.
pub fn run_transfer_with_cpi(program_id: &Address, records: &Vec<AccountRecord>, amount: u64) -> (r:
    Result<InvocationDescriptor, EngineError>)
    ensures
        match first_failure(records_view(records@), TransferWithCpi::slots_spec(), *program_id) {
            Some(e) => r matches Err(failure) && failure@ == e,
            None => {
                &&& records@.len() >= 3
                &&& r matches Ok(descriptor) && descriptor@ == transfer_view(
                    records@[0]@,
                    records@[1]@,
                    amount,
                ) && descriptor.program_id == records@[2]@.address
            },
        },
{
    match TransferWithCpi::try_accounts(program_id, records) {
        Ok(accounts) => transfer_with_cpi(Context { program_id: *program_id, accounts }, amount),
        Err(e) => Err(e),
    }
}

/// Handler of `cpi_transfer`: the same transfer as [`transfer_with_cpi`].
pub fn cpi_transfer(ctx: Context<InitializeWithCpi<'_>>, amount: u64) -> (r: Result<
    InvocationDescriptor,
    EngineError,
>)
    requires
        ctx.accounts.wf(),
    ensures
        r matches Ok(descriptor) && descriptor@ == transfer_view(
            ctx.accounts.payer@,
            ctx.accounts.recipient@,
            amount,
        ) && descriptor.program_id == ctx.accounts.system_program@.address,
{
    transfer_with_cpi(ctx, amount)
}

/// Entry of `cpi_transfer`: as [`run_transfer_with_cpi`].
pub fn run_cpi_transfer(program_id: &Address, records: &Vec<AccountRecord>, amount: u64) -> (r:
    Result<InvocationDescriptor, EngineError>)
    ensures
        match first_failure(records_view(records@), InitializeWithCpi::slots_spec(), *program_id) {
            Some(e) => r matches Err(failure) && failure@ == e,
            None => {
                &&& records@.len() >= 3
                &&& r matches Ok(descriptor) && descriptor@ == transfer_view(
                    records@[0]@,
                    records@[1]@,
                    amount,
                ) && descriptor.program_id == records@[2]@.address
            },
        },
{
    match InitializeWithCpi::try_accounts(program_id, records) {
        Ok(accounts) => cpi_transfer(Context { program_id: *program_id, accounts }, amount),
        Err(e) => Err(e),
    }
}

/// The account set of `initialize_token_mint` and of `mint_tokens`.
#[derive(Clone, Copy, Debug)]
pub struct InitializeToken<'a> {
    pub payer: ValidatedAccount<'a>,
    pub mint: ValidatedAccount<'a>,
    pub token_program: ValidatedAccount<'a>,
    pub system_program: ValidatedAccount<'a>,
    pub rent: ValidatedAccount<'a>,
}

impl<'a> InitializeToken<'a> {
    /// The declared slots.
    pub open spec fn slots_spec() -> Seq<ConstraintSetView> {
        seq![
            payer_slot(),
            ConstraintSetView {
                slot: "mint"@,
                predicates: seq![ConstraintView::Writable, ConstraintView::Uninitialized],
            },
            program_slot("token_program"@, token_program()),
            program_slot("system_program"@, system_program()),
            ConstraintSetView {
                slot: "rent"@,
                predicates: seq![ConstraintView::HasAddress(rent_sysvar())],
            },
        ]
    }

    /// The declared slots: the payer signs and is written to; the mint is
    /// written to and holds no state yet; then come the token program, the
    /// system program and the rent sysvar.
    pub fn slots() -> (slots: Vec<ConstraintSet>)
        ensures
            slots_view(slots@) == Self::slots_spec(),
    {
        let mut mint: Vec<Constraint> = Vec::new();
        mint.push(Constraint::Writable);
        mint.push(Constraint::Uninitialized);
        let mut rent: Vec<Constraint> = Vec::new();
        rent.push(Constraint::HasAddress(rent_sysvar_id()));
        let mut slots: Vec<ConstraintSet> = Vec::new();
        slots.push(slot_of("payer", payer_predicates()));
        slots.push(slot_of("mint", mint));
        slots.push(slot_of("token_program", program_predicates(token_program_id())));
        slots.push(slot_of("system_program", program_predicates(system_program_id())));
        slots.push(slot_of("rent", rent));
        proof {
            let expected = Self::slots_spec();
            assert(slots@[0]@.predicates =~= expected[0].predicates);
            assert(slots@[1]@.predicates =~= expected[1].predicates);
            assert(slots@[2]@.predicates =~= expected[2].predicates);
            assert(slots@[3]@.predicates =~= expected[3].predicates);
            assert(slots@[4]@.predicates =~= expected[4].predicates);
            assert(slots_view(slots@) =~= expected);
        }
        slots
    }

    /// What validation establishes of the accounts.
    pub open spec fn wf(self) -> bool {
        &&& self.payer@.is_signer
        &&& self.payer@.is_writable
        &&& self.mint@.is_writable
        &&& is_blank(self.mint@.data)
        &&& is_program(self.token_program@, token_program())
        &&& is_program(self.system_program@, system_program())
        &&& self.rent@.address == rent_sysvar()
    }

    /// Fills the account set from the account list: payer, mint, token
    /// program, system program and rent, in that order.
    pub fn try_accounts(program_id: &Address, records: &'a Vec<AccountRecord>) -> (r: Result<
        InitializeToken<'a>,
        EngineError,
    >)
        ensures
            match r {
                Ok(accounts) => {
                    &&& first_failure(records_view(records@), Self::slots_spec(), *program_id)
                        is None
                    &&& records@.len() >= 5
                    &&& accounts.payer@ == records@[0]@
                    &&& accounts.mint@ == records@[1]@
                    &&& accounts.token_program@ == records@[2]@
                    &&& accounts.system_program@ == records@[3]@
                    &&& accounts.rent@ == records@[4]@
                    &&& accounts.wf()
                },
                Err(e) => first_failure(records_view(records@), Self::slots_spec(), *program_id)
                    == Some(e@),
            },
    {
        let slots = Self::slots();
        assert(slots_view(slots@).len() == 5);
        match validate_all(records, &slots, program_id) {
            Ok(accounts) => {
                assert(accounts@[0]@ == validated_view(accounts@)[0]);
                assert(accounts@[1]@ == validated_view(accounts@)[1]);
                assert(accounts@[2]@ == validated_view(accounts@)[2]);
                assert(accounts@[3]@ == validated_view(accounts@)[3]);
                assert(accounts@[4]@ == validated_view(accounts@)[4]);
                let filled = InitializeToken {
                    payer: accounts[0],
                    mint: accounts[1],
                    token_program: accounts[2],
                    system_program: accounts[3],
                    rent: accounts[4],
                };
                proof {
                    let rs = records_view(records@);
                    let ss = Self::slots_spec();
                    law_filled_slots_hold(rs, ss, *program_id, 0, 0);
                    law_filled_slots_hold(rs, ss, *program_id, 0, 1);
                    law_filled_slots_hold(rs, ss, *program_id, 1, 0);
                    law_filled_slots_hold(rs, ss, *program_id, 1, 1);
                    law_filled_slots_hold(rs, ss, *program_id, 2, 0);
                    law_filled_slots_hold(rs, ss, *program_id, 2, 1);
                    law_filled_slots_hold(rs, ss, *program_id, 3, 0);
                    law_filled_slots_hold(rs, ss, *program_id, 3, 1);
                    law_filled_slots_hold(rs, ss, *program_id, 4, 0);
                    assert(rs.take(5)[0] == rs[0]);
                    assert(rs.take(5)[1] == rs[1]);
                    assert(rs.take(5)[2] == rs[2]);
                    assert(rs.take(5)[3] == rs[3]);
                    assert(rs.take(5)[4] == rs[4]);
                }
                Ok(filled)
            },
            Err(e) => Err(e),
        }
    }
}

/// Handler of `initialize_token_mint`: with the accounts validated nothing
/// is left to decide; the host creates the mint.
pub fn initialize_token_mint(ctx: Context<InitializeToken<'_>>) -> (r: Result<(), EngineError>)
    requires
        ctx.accounts.wf(),
    ensures
        r is Ok,
{
    Ok(())
}

/// Entry of `initialize_token_mint`: validates the account list and runs the
/// handler. The first slot that cannot be filled is the failure.
pub fn run_initialize_token_mint(program_id: &Address, records: &Vec<AccountRecord>) -> (r: Result<
    (),
    EngineError,
>)
    ensures
        match first_failure(records_view(records@), InitializeToken::slots_spec(), *program_id) {
            Some(e) => r matches Err(failure) && failure@ == e,
            None => r is Ok,
        },
{
    match InitializeToken::try_accounts(program_id, records) {
        Ok(accounts) => initialize_token_mint(Context { program_id: *program_id, accounts }),
        Err(e) => Err(e),
    }
}

/// Handler of `mint_tokens`: accepts the amount; no tokens are minted.
pub fn mint_tokens(ctx: Context<InitializeToken<'_>>, amount: u64) -> (r: Result<(), EngineError>)
    requires
        ctx.accounts.wf(),
    ensures
        r is Ok,
{
    Ok(())
}

/// Entry of `mint_tokens`: validates the account list and runs the handler.
/// The first slot that cannot be filled is the failure.
pub fn run_mint_tokens(program_id: &Address, records: &Vec<AccountRecord>, amount: u64) -> (r:
    Result<(), EngineError>)
    ensures
        match first_failure(records_view(records@), InitializeToken::slots_spec(), *program_id) {
            Some(e) => r matches Err(failure) && failure@ == e,
            None => r is Ok,
        },
{
    match InitializeToken::try_accounts(program_id, records) {
        Ok(accounts) => mint_tokens(Context { program_id: *program_id, accounts }, amount),
        Err(e) => Err(e),
    }
}

} // verus!
