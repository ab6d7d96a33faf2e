//! Building invocations of other programs.
//!
//! An invocation names the target program, the accounts it is given, in the
//! caller's order and with the caller's flags, the instruction payload, and
//! the derived addresses for which the calling program signs. A program may
//! sign only for addresses that it derived itself, so every claimed authority
//! is derived anew before it is attached.

use vstd::prelude::*;
use crate::account::AccountView;
use crate::address::Address;
use crate::constraint::ValidatedAccount;
use crate::derivation::{check_derivation, derive_spec, verifies, SeedSpec, SeedSpecView};
use crate::error::{EngineError, EngineErrorView};

verus! {

/// An account as an invocation refers to it.
#[derive(Clone, Copy, Debug, PartialEq, Eq)]
pub struct AccountMeta {
    pub address: Address,
    pub is_writable: bool,
    pub is_signer: bool,
}

/// A validated account with the flags under which it is passed on.
#[derive(Clone, Copy, Debug)]
pub struct AccountRef<'a> {
    pub account: ValidatedAccount<'a>,
    pub writable: bool,
    pub signer: bool,
}

/// The mathematical content of an [`AccountRef`].
pub ghost struct AccountRefView {
    pub account: AccountView,
    pub writable: bool,
    pub signer: bool,
}

impl<'a> View for AccountRef<'a> {
    type V = AccountRefView;

    open spec fn view(&self) -> AccountRefView {
        AccountRefView { account: self.account@, writable: self.writable, signer: self.signer }
    }
}

/// A claim that the calling program may sign for `address`, because the
/// address is derived from `seeds` under that program.
#[derive(Clone, Debug, PartialEq, Eq)]
pub struct DelegatedAuthority {
    pub address: Address,
    pub seeds: SeedSpec,
}

/// The mathematical content of a [`DelegatedAuthority`].
pub ghost struct DelegatedAuthorityView {
    pub address: Address,
    pub seeds: SeedSpecView,
}

impl View for DelegatedAuthority {
    type V = DelegatedAuthorityView;

    open spec fn view(&self) -> DelegatedAuthorityView {
        DelegatedAuthorityView { address: self.address, seeds: self.seeds@ }
    }
}

/// A confirmed authority: the address and the full seed material that
/// derives it, the canonical bump last.
#[derive(Clone, Debug, PartialEq, Eq)]
pub struct Authority {
    pub address: Address,
    pub seeds: Vec<Vec<u8>>,
}

/// The mathematical content of an [`Authority`].
pub ghost struct AuthorityView {
    pub address: Address,
    pub seeds: Seq<Seq<u8>>,
}

impl View for Authority {
    type V = AuthorityView;

    open spec fn view(&self) -> AuthorityView {
        AuthorityView {
            address: self.address,
            seeds: Seq::new(self.seeds@.len(), |i: int| self.seeds@[i]@),
        }
    }
}

/// A fully specified call into another program.
#[derive(Clone, Debug, PartialEq, Eq)]
pub struct InvocationDescriptor {
    pub program_id: Address,
    pub accounts: Vec<AccountMeta>,
    pub payload: Vec<u8>,
    pub authorities: Vec<Authority>,
}

/// The mathematical content of an [`InvocationDescriptor`].
pub ghost struct InvocationView {
    pub program_id: Address,
    pub accounts: Seq<AccountMeta>,
    pub payload: Seq<u8>,
    pub authorities: Seq<AuthorityView>,
}

impl View for InvocationDescriptor {
    type V = InvocationView;

    open spec fn view(&self) -> InvocationView {
        InvocationView {
            program_id: self.program_id,
            accounts: self.accounts@,
            payload: self.payload@,
            authorities: Seq::new(self.authorities@.len(), |i: int| self.authorities@[i]@),
        }
    }
}

/// The contents of a list of account references.
pub open spec fn refs_view(accounts: Seq<AccountRef<'_>>) -> Seq<AccountRefView> {
    Seq::new(accounts.len(), |i: int| accounts[i]@)
}

/// The contents of a list of claims.
pub open spec fn claims_view(claims: Seq<DelegatedAuthority>) -> Seq<DelegatedAuthorityView> {
    Seq::new(claims.len(), |i: int| claims[i]@)
}

/// The claim is one that the program `current` can derive.
pub open spec fn claim_valid(claim: DelegatedAuthorityView, current: Address) -> bool {
    verifies(claim.address, claim.seeds, current)
}

/// Every claim is one that the program `current` can derive.
pub open spec fn claims_valid(claims: Seq<DelegatedAuthorityView>, current: Address) -> bool {
    forall|i: int| 0 <= i < claims.len() ==> claim_valid(#[trigger] claims[i], current)
}

/// Some claim is made for the address.
pub open spec fn claimed(address: Address, claims: Seq<DelegatedAuthorityView>) -> bool {
    exists|j: int| 0 <= j < claims.len() && (#[trigger] claims[j]).address == address
}

/// There is an authority behind the account: it signed itself, or a claim
/// is made for its address.
pub open spec fn has_authority(
    account: AccountRefView,
    claims: Seq<DelegatedAuthorityView>,
) -> bool {
    account.account.is_signer || claimed(account.account.address, claims)
}

/// Every account flagged as signer has an authority behind it.
pub open spec fn flags_valid(
    accounts: Seq<AccountRefView>,
    claims: Seq<DelegatedAuthorityView>,
) -> bool {
    forall|i: int|
        0 <= i < accounts.len() && (#[trigger] accounts[i]).signer ==> has_authority(
            accounts[i],
            claims,
        )
}

/// How the invocation refers to the account.
pub open spec fn meta_of(account: AccountRefView) -> AccountMeta {
    AccountMeta {
        address: account.account.address,
        is_writable: account.writable,
        is_signer: account.signer,
    }
}

/// The authority that a valid claim confirms.
pub open spec fn authority_of(claim: DelegatedAuthorityView, current: Address) -> AuthorityView {
    AuthorityView {
        address: claim.address,
        seeds: claim.seeds.components.push(
            seq![derive_spec(claim.seeds.components, current)->0.bump],
        ),
    }
}

/// What [`build`] returns.
pub open spec fn build_spec(
    current: Address,
    target: Address,
    accounts: Seq<AccountRefView>,
    payload: Seq<u8>,
    claims: Seq<DelegatedAuthorityView>,
) -> Result<InvocationView, EngineErrorView> {
    if !claims_valid(claims, current) {
        Err(EngineErrorView::UnauthorizedDelegation)
    } else if !flags_valid(accounts, claims) {
        Err(EngineErrorView::InvalidAccountFlags)
    } else {
        Ok(
            InvocationView {
                program_id: target,
                accounts: Seq::new(accounts.len(), |i: int| meta_of(accounts[i])),
                payload,
                authorities: Seq::new(claims.len(), |i: int| authority_of(claims[i], current)),
            },
        )
    }
}

/// Confirms one claim: derives the address anew under the program `current`
/// and, where it is the claimed one, returns the authority to attach.
pub fn confirm(claim: &DelegatedAuthority, current: &Address) -> (r: Option<Authority>)
    ensures
        match r {
            Some(authority) => claim_valid(claim@, *current) && authority@ == authority_of(
                claim@,
                *current,
            ),
            None => !claim_valid(claim@, *current),
        },
{
    let outcome = crate::derivation::derive(&claim.seeds, current);
    if !check_derivation(&claim.address, claim.seeds.bump, &outcome) {
        return None;
    }
    match outcome {
        Ok(derivation) => {
            let mut seeds = claim.seeds.material();
            let mut last: Vec<u8> = Vec::new();
            last.push(derivation.bump);
            seeds.push(last);
            let authority = Authority { address: claim.address, seeds };
            assert(authority@.seeds =~= authority_of(claim@, *current).seeds);
            Some(authority)
        },
        Err(_) => None,
    }
}

/// Whether a claim is made for the address.
pub fn is_claimed(address: &Address, claims: &Vec<DelegatedAuthority>) -> (found: bool)
    ensures
        found == claimed(*address, claims_view(claims@)),
{
    let mut j: usize = 0;
    while j < claims.len()
        invariant
            j <= claims.len(),
            forall|k: int| 0 <= k < j ==> (#[trigger] claims_view(claims@)[k]).address != *address,
        decreases claims.len() - j,
    {
        if claims[j].address == *address {
            assert(claims_view(claims@)[j as int].address == *address);
            return true;
        }
        j = j + 1;
    }
    false
}

/// Builds the descriptor of a call from the program `current` into the
/// program `target`.
///
/// Every claimed authority is confirmed first; one that `current` cannot
/// derive fails the build with `UnauthorizedDelegation`. Then every account
/// flagged as signer needs an authority behind it, its own signature or a
/// claim for its address; else the build fails with `InvalidAccountFlags`.
/// The descriptor lists the accounts in the order and with the flags given.
pub fn build(
    current: &Address,
    target: &Address,
    accounts: &Vec<AccountRef<'_>>,
    payload: &Vec<u8>,
    claims: &Vec<DelegatedAuthority>,
) -> (r: Result<InvocationDescriptor, EngineError>)
    ensures
        match r {
            Ok(descriptor) => build_spec(
                *current,
                *target,
                refs_view(accounts@),
                payload@,
                claims_view(claims@),
            ) == Ok::<InvocationView, EngineErrorView>(descriptor@),
            Err(e) => build_spec(
                *current,
                *target,
                refs_view(accounts@),
                payload@,
                claims_view(claims@),
            ) == Err::<InvocationView, EngineErrorView>(e@),
        },
{
    let ghost claim_views = claims_view(claims@);
    let ghost account_views = refs_view(accounts@);
    let mut authorities: Vec<Authority> = Vec::new();
    let mut i: usize = 0;
    while i < claims.len()
        invariant
            i <= claims.len(),
            claim_views == claims_view(claims@),
            authorities@.len() == i,
            forall|k: int| 0 <= k < i ==> claim_valid(#[trigger] claim_views[k], *current),
            forall|k: int|
                0 <= k < i ==> (#[trigger] authorities@[k])@ == authority_of(
                    claim_views[k],
                    *current,
                ),
        decreases claims.len() - i,
    {
        match confirm(&claims[i], current) {
            Some(authority) => {
                authorities.push(authority);
            },
            None => {
                assert(!claim_valid(claim_views[i as int], *current));
                return Err(EngineError::UnauthorizedDelegation);
            },
        }
        i = i + 1;
    }
    assert(claims_valid(claim_views, *current));
    let mut metas: Vec<AccountMeta> = Vec::new();
    let mut n: usize = 0;
    while n < accounts.len()
        invariant
            n <= accounts.len(),
            claim_views == claims_view(claims@),
            account_views == refs_view(accounts@),
            claims_valid(claim_views, *current),
            metas@.len() == n,
            forall|k: int|
                0 <= k < n && (#[trigger] account_views[k]).signer ==> has_authority(
                    account_views[k],
                    claim_views,
                ),
            forall|k: int| 0 <= k < n ==> #[trigger] metas@[k] == meta_of(account_views[k]),
        decreases accounts.len() - n,
    {
        let entry = &accounts[n];
        let record = entry.account.record();
        assert(entry@ == account_views[n as int]);
        if entry.signer && !record.is_signer && !is_claimed(&record.address, claims) {
            assert(!has_authority(account_views[n as int], claim_views));
            return Err(EngineError::InvalidAccountFlags);
        }
        metas.push(
            AccountMeta {
                address: record.address,
                is_writable: entry.writable,
                is_signer: entry.signer,
            },
        );
        n = n + 1;
    }
    assert(flags_valid(account_views, claim_views));
    let descriptor = InvocationDescriptor {
        program_id: *target,
        accounts: metas,
        payload: payload.clone(),
        authorities,
    };
    proof {
        let expected = build_spec(*current, *target, account_views, payload@, claim_views)->Ok_0;
        assert(descriptor@.accounts =~= expected.accounts);
        assert(descriptor@.authorities =~= expected.authorities);
    }
    Ok(descriptor)
}

/// A claim for an address that the calling program cannot derive under any
/// seeds fails the build, whatever else the invocation holds.
pub proof fn law_underivable_claim_rejected(
    current: Address,
    target: Address,
    accounts: Seq<AccountRefView>,
    payload: Seq<u8>,
    claims: Seq<DelegatedAuthorityView>,
    i: int,
)
    requires
        0 <= i < claims.len(),
        forall|seeds: SeedSpecView| !verifies(claims[i].address, seeds, current),
    ensures
        build_spec(current, target, accounts, payload, claims) == Err::<
            InvocationView,
            EngineErrorView,
        >(EngineErrorView::UnauthorizedDelegation),
{
    assert(!claim_valid(claims[i], current));
}

/// A descriptor that was built lists the accounts in the caller's order with
/// the caller's flags, and attaches only authorities that the calling
/// program derived: each address is the one that its seeds yield under that
/// program, and the bump attached is the canonical one.
pub proof fn law_built_descriptor(
    current: Address,
    target: Address,
    accounts: Seq<AccountRefView>,
    payload: Seq<u8>,
    claims: Seq<DelegatedAuthorityView>,
)
    requires
        build_spec(current, target, accounts, payload, claims) is Ok,
    ensures
        ({
            let built = build_spec(current, target, accounts, payload, claims)->Ok_0;
            &&& built.program_id == target
            &&& built.payload == payload
            &&& built.accounts.len() == accounts.len()
            &&& forall|i: int|
                0 <= i < accounts.len() ==> {
                    &&& (#[trigger] built.accounts[i]).address == accounts[i].account.address
                    &&& built.accounts[i].is_writable == accounts[i].writable
                    &&& built.accounts[i].is_signer == accounts[i].signer
                }
            &&& built.authorities.len() == claims.len()
            &&& forall|i: int|
                0 <= i < claims.len() ==> {
                    let derived = derive_spec(claims[i].seeds.components, current);
                    &&& derived is Some
                    &&& derived->0.address == (#[trigger] built.authorities[i]).address.bytes@
                    &&& built.authorities[i].seeds == claims[i].seeds.components.push(
                        seq![derived->0.bump],
                    )
                }
        }),
{
    assert forall|i: int| 0 <= i < claims.len() implies derive_spec(
        claims[i].seeds.components,
        current,
    ) is Some by {
        assert(claim_valid(claims[i], current));
    }
}

} // verus!
