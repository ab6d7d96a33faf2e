use account_engine::account::{AccountRecord, State, STATE_TAG};
use account_engine::address::Address;
use account_engine::constraint::{validate, Constraint, ConstraintSet};
use account_engine::derivation::{Seed, SeedSpec};
use account_engine::error::{EngineError, ViolationKind};

fn program_id() -> Address {
    Address::new([3u8; 32])
}

fn record() -> AccountRecord {
    AccountRecord {
        address: Address::new([1u8; 32]),
        owner: program_id(),
        lamports: 10,
        data: State { count: 7 }.to_bytes(),
        is_signer: true,
        is_writable: true,
        is_executable: false,
    }
}

fn set(slot: &str, predicates: Vec<Constraint>) -> ConstraintSet {
    ConstraintSet { slot: slot.to_string(), predicates }
}

fn violation(kind: ViolationKind, slot: &str) -> EngineError {
    EngineError::ConstraintViolation { kind, slot: slot.to_string() }
}

fn seeds(bump: Option<u8>) -> SeedSpec {
    SeedSpec { components: vec![Seed::Literal(b"state".to_vec())], bump }
}

fn derived_record() -> (AccountRecord, u8) {
    let derived = account_engine::derivation::derive(&seeds(None), &program_id()).unwrap();
    let mut account = record();
    account.address = derived.address;
    (account, derived.bump)
}

#[test]
fn empty_set_passes_any_account() {
    let account = record();
    let validated = validate(&account, &set("any", vec![]), &program_id()).unwrap();
    assert_eq!(validated.record(), &account);
}

#[test]
fn all_predicates_holding_passes() {
    let (account, bump) = derived_record();
    let predicates = vec![
        Constraint::Signer,
        Constraint::Writable,
        Constraint::OwnedBy(program_id()),
        Constraint::DerivedFrom(seeds(None)),
        Constraint::DerivedFrom(seeds(Some(bump))),
        Constraint::Discriminator(STATE_TAG),
    ];
    let validated = validate(&account, &set("state", predicates), &program_id()).unwrap();
    assert_eq!(validated.record(), &account);
}

#[test]
fn signer_violation() {
    let mut account = record();
    account.is_signer = false;
    assert_eq!(
        validate(&account, &set("payer", vec![Constraint::Signer]), &program_id()).err(),
        Some(violation(ViolationKind::Signer, "payer"))
    );
}

#[test]
fn writable_violation() {
    let mut account = record();
    account.is_writable = false;
    assert_eq!(
        validate(&account, &set("vault", vec![Constraint::Writable]), &program_id()).err(),
        Some(violation(ViolationKind::Writable, "vault"))
    );
}

#[test]
fn owner_violation() {
    let account = record();
    let required = Address::new([4u8; 32]);
    assert_eq!(
        validate(&account, &set("state", vec![Constraint::OwnedBy(required)]), &program_id()).err(),
        Some(violation(ViolationKind::Owner, "state"))
    );
}

#[test]
fn owner_violation_whatever_else_matches() {
    let (account, _) = derived_record();
    let mut required = program_id().to_bytes();
    required[31] ^= 1;
    let predicates = vec![
        Constraint::Signer,
        Constraint::Writable,
        Constraint::DerivedFrom(seeds(None)),
        Constraint::Discriminator(STATE_TAG),
        Constraint::OwnedBy(Address::new(required)),
    ];
    assert_eq!(
        validate(&account, &set("state", predicates), &program_id()).err(),
        Some(violation(ViolationKind::Owner, "state"))
    );
}

#[test]
fn derivation_violation() {
    let account = record();
    assert_eq!(
        validate(&account, &set("state", vec![Constraint::DerivedFrom(seeds(None))]), &program_id())
            .err(),
        Some(violation(ViolationKind::Derivation, "state"))
    );
}

#[test]
fn derivation_violation_on_a_noncanonical_bump() {
    let (account, bump) = derived_record();
    let claimed = Constraint::DerivedFrom(seeds(Some(bump.wrapping_sub(1))));
    assert_eq!(
        validate(&account, &set("state", vec![claimed]), &program_id()).err(),
        Some(violation(ViolationKind::Derivation, "state"))
    );
}

#[test]
fn derivation_is_checked_under_the_validating_program() {
    let (account, _) = derived_record();
    let other = Address::new([8u8; 32]);
    assert_eq!(
        validate(&account, &set("state", vec![Constraint::DerivedFrom(seeds(None))]), &other).err(),
        Some(violation(ViolationKind::Derivation, "state"))
    );
}

#[test]
fn init_state_violation() {
    let account = record();
    assert_eq!(
        validate(&account, &set("state", vec![Constraint::Uninitialized]), &program_id()).err(),
        Some(violation(ViolationKind::InitState, "state"))
    );
}

#[test]
fn discriminator_violation() {
    let account = record();
    let mut tag = STATE_TAG;
    tag[0] ^= 1;
    assert_eq!(
        validate(&account, &set("state", vec![Constraint::Discriminator(tag)]), &program_id())
            .err(),
        Some(violation(ViolationKind::Discriminator, "state"))
    );
    let mut blank = record();
    blank.data = vec![];
    assert_eq!(
        validate(&blank, &set("state", vec![Constraint::Discriminator(STATE_TAG)]), &program_id())
            .err(),
        Some(violation(ViolationKind::Discriminator, "state"))
    );
}

#[test]
fn address_violation() {
    let account = record();
    let elsewhere = Address::new([4u8; 32]);
    assert_eq!(
        validate(&account, &set("vault", vec![Constraint::HasAddress(elsewhere)]), &program_id())
            .err(),
        Some(violation(ViolationKind::Address, "vault"))
    );
    let here = Constraint::HasAddress(account.address);
    assert!(validate(&account, &set("vault", vec![here]), &program_id()).is_ok());
}

#[test]
fn executable_violation() {
    let mut account = record();
    assert_eq!(
        validate(&account, &set("program", vec![Constraint::Executable]), &program_id()).err(),
        Some(violation(ViolationKind::Executable, "program"))
    );
    account.is_executable = true;
    assert!(validate(&account, &set("program", vec![Constraint::Executable]), &program_id())
        .is_ok());
}

#[test]
fn passing_one_tag_fails_every_other() {
    let account = record();
    assert!(validate(&account, &set("a", vec![Constraint::Discriminator(STATE_TAG)]), &program_id())
        .is_ok());
    for i in 0..8 {
        let mut other = STATE_TAG;
        other[i] = other[i].wrapping_add(1);
        assert_eq!(
            validate(&account, &set("b", vec![Constraint::Discriminator(other)]), &program_id())
                .err(),
            Some(violation(ViolationKind::Discriminator, "b"))
        );
    }
}

#[test]
fn the_first_failing_predicate_is_reported() {
    let mut account = record();
    account.is_signer = false;
    account.is_writable = false;
    let required = Address::new([4u8; 32]);
    let one = vec![Constraint::Signer, Constraint::Writable, Constraint::OwnedBy(required)];
    let two = vec![Constraint::OwnedBy(required), Constraint::Writable, Constraint::Signer];
    let three = vec![Constraint::OwnedBy(program_id()), Constraint::Writable, Constraint::Signer];
    assert_eq!(
        validate(&account, &set("s", one), &program_id()).err(),
        Some(violation(ViolationKind::Signer, "s"))
    );
    assert_eq!(
        validate(&account, &set("s", two), &program_id()).err(),
        Some(violation(ViolationKind::Owner, "s"))
    );
    assert_eq!(
        validate(&account, &set("s", three), &program_id()).err(),
        Some(violation(ViolationKind::Writable, "s"))
    );
}

#[test]
fn uninitialized_passes_once_only() {
    let mut account = record();
    account.data = vec![0u8; 16];
    let declared = set("state", vec![Constraint::Uninitialized]);
    assert!(validate(&account, &declared, &program_id()).is_ok());
    State { count: 0 }.store(&mut account);
    assert_eq!(
        validate(&account, &declared, &program_id()).err(),
        Some(violation(ViolationKind::InitState, "state"))
    );
    assert_eq!(
        validate(&account, &declared, &program_id()).err(),
        Some(violation(ViolationKind::InitState, "state"))
    );
}

#[test]
fn predicates_name_their_violation() {
    assert_eq!(Constraint::Signer.kind(), ViolationKind::Signer);
    assert_eq!(Constraint::Writable.kind(), ViolationKind::Writable);
    assert_eq!(Constraint::OwnedBy(program_id()).kind(), ViolationKind::Owner);
    assert_eq!(Constraint::DerivedFrom(seeds(None)).kind(), ViolationKind::Derivation);
    assert_eq!(Constraint::Uninitialized.kind(), ViolationKind::InitState);
    assert_eq!(Constraint::Discriminator(STATE_TAG).kind(), ViolationKind::Discriminator);
    assert_eq!(Constraint::HasAddress(program_id()).kind(), ViolationKind::Address);
    assert_eq!(Constraint::Executable.kind(), ViolationKind::Executable);
}

#[test]
fn check_evaluates_one_predicate() {
    let account = record();
    assert!(Constraint::Signer.check(&account, &program_id()));
    assert!(Constraint::OwnedBy(program_id()).check(&account, &program_id()));
    assert!(!Constraint::OwnedBy(Address::new([0u8; 32])).check(&account, &program_id()));
    assert!(!Constraint::Uninitialized.check(&account, &program_id()));
    assert!(Constraint::Discriminator(STATE_TAG).check(&account, &program_id()));
    assert!(!Constraint::DerivedFrom(seeds(None)).check(&account, &program_id()));
}
