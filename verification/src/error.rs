//! The failures that the engine reports.

use vstd::prelude::*;

verus! {

/// Which kind of predicate an account failed.
#[derive(Clone, Copy, Debug, PartialEq, Eq, Structural)]
pub enum ViolationKind {
    /// The account did not sign.
    Signer,
    /// The account is not writable.
    Writable,
    /// The account belongs to another program than required.
    Owner,
    /// The account's address is not the one derived from the declared seeds.
    Derivation,
    /// The account already holds initialized state.
    InitState,
    /// The account's stored type tag is not the expected one.
    Discriminator,
    /// The account is not the one at the required address.
    Address,
    /// The account is no executable program.
    Executable,
}

/// A failure of validation, derivation or invocation building. Every one is
/// fatal to the instruction in which it occurs.
#[derive(Clone, Debug, PartialEq, Eq)]
pub enum EngineError {
    /// The account in the named slot failed a predicate of the given kind.
    ConstraintViolation { kind: ViolationKind, slot: String },
    /// A delegated authority was claimed that the current program cannot derive.
    UnauthorizedDelegation,
    /// An account was flagged as signer without any authority behind it.
    InvalidAccountFlags,
    /// No bump in the search range yields a derived address.
    NoValidBump,
    /// The account list is too short to fill the named slot.
    MissingAccount { slot: String },
    /// The program declares no instruction with the given tag.
    UnknownInstruction { tag: u64 },
}

/// The mathematical content of an [`EngineError`].
pub ghost enum EngineErrorView {
    ConstraintViolation { kind: ViolationKind, slot: Seq<char> },
    UnauthorizedDelegation,
    InvalidAccountFlags,
    NoValidBump,
    MissingAccount { slot: Seq<char> },
    UnknownInstruction { tag: u64 },
}

impl View for EngineError {
    type V = EngineErrorView;

    open spec fn view(&self) -> EngineErrorView {
        match self {
            EngineError::ConstraintViolation { kind, slot } => {
                EngineErrorView::ConstraintViolation { kind: *kind, slot: slot@ }
            },
            EngineError::UnauthorizedDelegation => EngineErrorView::UnauthorizedDelegation,
            EngineError::InvalidAccountFlags => EngineErrorView::InvalidAccountFlags,
            EngineError::NoValidBump => EngineErrorView::NoValidBump,
            EngineError::MissingAccount { slot } => EngineErrorView::MissingAccount { slot: slot@ },
            EngineError::UnknownInstruction { tag } => EngineErrorView::UnknownInstruction {
                tag: *tag,
            },
        }
    }
}

} // verus!
