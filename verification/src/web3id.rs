//! Verification of the public metadata of presented credentials: the
//! network check, the account-backed (identity) path with its time-window
//! status, the registry-backed path with its owner and commitment checks,
//! and the in-order aggregation over a whole presentation.
//!
//! Chain lookups are the caller's task: the functions here say which
//! lookup is needed and decide on what it returned.

use vstd::prelude::*;
use crate::base::{AccountAddress, ContractAddress};
use crate::bytes::copy_bytes;
use crate::cis4::{
    CredentialEntry, CredentialHolderId, CredentialStatus, Cis4QueryError, RpcError,
};

verus! {

/// Byte length of a credential registration id: a compressed curve point.
pub const CRED_REG_ID_LEN: usize = 48;

/// The identity of an identity provider.
#[derive(Clone, Copy, PartialEq, Eq, Structural, Debug)]
pub struct IpIdentity {
    pub id: u32,
}

/// The network a credential lives on.
#[derive(Clone, Copy, PartialEq, Eq, Structural, Debug)]
pub enum Network {
    Testnet,
    Mainnet,
}

/// The registration id of an account credential: a 48-byte encoding of a
/// curve point, carried opaquely.
#[derive(Clone, Debug)]
pub struct CredentialRegistrationID {
    /// The 48 bytes of the id.
    pub bytes: Vec<u8>,
}

impl View for CredentialRegistrationID {
    type V = Seq<u8>;

    open spec fn view(&self) -> Seq<u8> {
        self.bytes@
    }
}

impl CredentialRegistrationID {
    pub open spec fn wf(self) -> bool {
        self@.len() == CRED_REG_ID_LEN
    }
}

/// A month of a year, as the validity bounds of an account credential
/// state it.
#[derive(Clone, Copy, PartialEq, Eq, Structural, Debug)]
pub struct YearMonth {
    pub year: u16,
    pub month: u8,
}

/// One attribute commitment of an account credential: the attribute's tag
/// and the commitment bytes, passed through unchanged.
#[derive(Clone, Debug)]
pub struct AttributeCommitment {
    pub tag: u8,
    /// The commitment as an opaque blob.
    pub value: Vec<u8>,
}

impl View for AttributeCommitment {
    type V = (u8, Seq<u8>);

    open spec fn view(&self) -> (u8, Seq<u8>) {
        (self.tag, self.value@)
    }
}

/// The views of a sequence of attribute commitments.
pub open spec fn spec_commitments_view(cs: Seq<AttributeCommitment>) -> Seq<(u8, Seq<u8>)> {
    cs.map_values(|a: AttributeCommitment| a@)
}

/// What an account credential is backed by: the initial credential that
/// created the account, or a normal one from a completed issuance flow.
/// Only normal credentials carry usable commitments.
#[derive(Clone, Debug)]
pub enum AccountCredentialDetails {
    /// The account's initial credential; it carries no commitments.
    Initial,
    /// A credential from the normal issuance flow, with its validity
    /// window and its attribute commitments.
    Normal {
        /// The month the credential was created in; valid from its start.
        created_at: YearMonth,
        /// The last month of validity; valid to its end.
        valid_to: YearMonth,
        /// The commitments to the credential's attributes.
        commitments: Vec<AttributeCommitment>,
    },
}

/// The on-chain record of one credential deployed on an account.
#[derive(Clone, Debug)]
pub struct AccountCredential {
    /// The credential's registration id.
    pub cred_id: CredentialRegistrationID,
    /// The identity provider that issued it.
    pub issuer: IpIdentity,
    /// What backs it.
    pub details: AccountCredentialDetails,
}

/// The part of an account's state the identity path reads: the address
/// and the credentials deployed on the account, in the chain's order.
#[derive(Clone, Debug)]
pub struct AccountInfo {
    pub address: AccountAddress,
    pub credentials: Vec<AccountCredential>,
}

/// The claim, found inside a presentation, about where one credential
/// lives; untrusted until checked against chain state.
#[derive(Clone, Debug)]
pub enum CredentialMetadata {
    /// A credential backed by an account's on-chain credential.
    Identity { issuer: IpIdentity, cred_id: CredentialRegistrationID },
    /// A credential backed by a registry contract entry.
    Web3Id { contract: ContractAddress, owner: CredentialHolderId, id: CredentialHolderId },
}

/// Metadata about a single credential proof of a presentation.
#[derive(Clone, Debug)]
pub struct ProofMetadata {
    /// When the proof was created, in milliseconds since the epoch.
    pub created_millis: i64,
    /// The network the credential is claimed to live on.
    pub network: Network,
    /// Where the credential is claimed to live.
    pub cred_metadata: CredentialMetadata,
}

/// The commitment inputs that downstream proof verification consumes.
#[derive(Clone, Debug)]
pub enum CredentialsInputs {
    /// The attribute commitments of an account credential, unchanged.
    Identity { commitments: Vec<AttributeCommitment> },
    /// The commitment of a registry credential, as the bytes the registry
    /// holds; they are known to parse as a commitment.
    Web3 { commitment: Vec<u8> },
}

/// The verifier's output for one credential: its status and the
/// commitment inputs, produced only after the issuer, owner and network
/// of the claim have been checked against chain state.
#[derive(Clone, Debug)]
pub struct CredentialWithMetadata {
    pub status: CredentialStatus,
    pub commitments: CredentialsInputs,
}

/// Why the public data of a credential could not be verified.
#[derive(Clone, Debug)]
pub enum CredentialLookupError {
    /// The presentation's network is not the one configured.
    IncorrectNetwork,
    /// The credential's issuer is not as stated.
    InconsistentIssuer { stated: IpIdentity, actual: IpIdentity },
    /// The credential's owner is not as stated.
    InconsistentOwner { stated: CredentialHolderId, actual: CredentialHolderId },
    /// The account could not be looked up.
    QueryError(RpcError),
    /// The registry contract could not be queried.
    Cis4QueryError(Cis4QueryError),
    /// The credential is not present on the account.
    CredentialNotPresent { cred_id: CredentialRegistrationID, account: AccountAddress },
    /// An initial credential cannot be used.
    InitialCredential { cred_id: CredentialRegistrationID },
    /// The commitment returned from the contract cannot be parsed.
    CommitmentParseError { contract: ContractAddress, cred_id: CredentialHolderId },
    /// The node's response is malformed.
    InvalidResponse,
}

// ---------------------------------------------------------------------------
// The outside calls the verifier rests on.
// ---------------------------------------------------------------------------

/// Whether a byte sequence parses as a commitment of the commitment
/// scheme; a function of the bytes alone.
pub uninterp spec fn commitment_parses(bytes: Seq<u8>) -> bool;

/// Relies on concordium_base's deserialization of a Pedersen commitment
/// over the identity layer's curve: whether the bytes parse depends on
/// the bytes alone.
#[verifier::external_body]
fn parse_web3_commitment(bytes: &Vec<u8>) -> (r: bool)
    ensures
        r == commitment_parses(bytes@),
{
    let mut cursor = std::io::Cursor::new(&bytes[..]);
    concordium_base::common::from_bytes::<
        concordium_base::pedersen_commitment::Commitment<
            concordium_base::id::constants::ArCurve,
        >,
        _,
    >(&mut cursor).is_ok()
}

/// The first instant of a month, in milliseconds since the epoch; a
/// function of year and month alone.
pub uninterp spec fn month_lower_millis(year: u16, month: u8) -> Option<i64>;

/// The first instant of the following month, in milliseconds since the
/// epoch; a function of year and month alone.
pub uninterp spec fn month_upper_millis(year: u16, month: u8) -> Option<i64>;

/// Relies on concordium_base's YearMonth::lower, which builds the first
/// day of the month with chrono: defined exactly for months 1 to 12.
#[verifier::external_body]
fn year_month_lower_millis(ym: &YearMonth) -> (r: Option<i64>)
    ensures
        r == month_lower_millis(ym.year, ym.month),
        r is Some <==> 1 <= ym.month <= 12,
{
    concordium_base::id::types::YearMonth { year: ym.year, month: ym.month }.lower().map(
        |dt| dt.timestamp_millis(),
    )
}

/// Relies on concordium_base's YearMonth::upper, which builds the first
/// day of the next month with chrono: defined exactly for months 1 to 12.
#[verifier::external_body]
fn year_month_upper_millis(ym: &YearMonth) -> (r: Option<i64>)
    ensures
        r == month_upper_millis(ym.year, ym.month),
        r is Some <==> 1 <= ym.month <= 12,
{
    concordium_base::id::types::YearMonth { year: ym.year, month: ym.month }.upper().map(
        |dt| dt.timestamp_millis(),
    )
}

// ---------------------------------------------------------------------------
// The identity-path status: a pure function of the clock and the window.
// ---------------------------------------------------------------------------

/// The status of an account credential at time `now` given its validity
/// window: not yet activated before the window, expired after it, active
/// inside it. The lower bound wins when the window is empty.
pub open spec fn spec_status_at(now: i64, valid_from: i64, valid_until: i64) -> CredentialStatus {
    if valid_from > now {
        CredentialStatus::NotActivated
    } else if valid_until < now {
        CredentialStatus::Expired
    } else {
        CredentialStatus::Active
    }
}

/// Derive the status of an account credential from the clock and the
/// validity window alone.
pub fn credential_status_at(now: i64, valid_from: i64, valid_until: i64) -> (r: CredentialStatus)
    ensures
        r == spec_status_at(now, valid_from, valid_until),
        now < valid_from ==> r == CredentialStatus::NotActivated,
        valid_from <= now <= valid_until ==> r == CredentialStatus::Active,
        valid_from <= now && valid_until < now ==> r == CredentialStatus::Expired,
{
    if valid_from > now {
        CredentialStatus::NotActivated
    } else if valid_until < now {
        CredentialStatus::Expired
    } else {
        CredentialStatus::Active
    }
}

// ---------------------------------------------------------------------------
// The two verification paths.
// ---------------------------------------------------------------------------

/// The chain lookup that verifying one credential claim needs.
#[derive(Clone, Debug)]
pub enum CredentialQuery {
    /// Fetch the account's credentials at the last finalized block.
    AccountCredentials { cred_id: CredentialRegistrationID },
    /// Fetch the credential's entry from the registry at this address.
    RegistryEntry { contract: ContractAddress, cred_id: CredentialHolderId },
}

/// The first, unconditional step of verifying one credential claim: if
/// the claimed network is not the configured one, the claim is rejected
/// with `IncorrectNetwork` and no chain lookup is asked for; otherwise
/// the lookup that the claim's kind needs is returned.
pub fn verify_credential_metadata(network: Network, metadata: &ProofMetadata) -> (r: Result<
    CredentialQuery,
    CredentialLookupError,
>)
    ensures
        (r matches Err(e) && e is IncorrectNetwork) <==> metadata.network != network,
        metadata.network == network ==> r is Ok,
        metadata.network == network ==> (metadata.cred_metadata matches
            CredentialMetadata::Identity { issuer, cred_id } ==> (r matches Ok(q) && q matches
            CredentialQuery::AccountCredentials { cred_id: c } && c@ == cred_id@)),
        metadata.network == network ==> (metadata.cred_metadata matches
            CredentialMetadata::Web3Id { contract, owner, id } ==> (r matches Ok(q) && q matches
            CredentialQuery::RegistryEntry { contract: ct, cred_id: ci } && ct == contract && ci@
            == id@)),
{
    if metadata.network != network {
        return Err(CredentialLookupError::IncorrectNetwork);
    }
    match &metadata.cred_metadata {
        CredentialMetadata::Identity { issuer: _, cred_id } => Ok(
            CredentialQuery::AccountCredentials {
                cred_id: CredentialRegistrationID { bytes: copy_bytes(&cred_id.bytes) },
            },
        ),
        CredentialMetadata::Web3Id { contract, owner: _, id } => Ok(
            CredentialQuery::RegistryEntry {
                contract: *contract,
                cred_id: CredentialHolderId { bytes: copy_bytes(&id.bytes) },
            },
        ),
    }
}

/// A fresh copy of a commitment list, views unchanged.
fn copy_commitments(cs: &Vec<AttributeCommitment>) -> (r: Vec<AttributeCommitment>)
    ensures
        spec_commitments_view(r@) =~= spec_commitments_view(cs@),
{
    let mut r: Vec<AttributeCommitment> = Vec::new();
    let mut i: usize = 0;
    while i < cs.len()
        invariant
            i <= cs@.len(),
            r@.len() == i,
            forall|j: int| 0 <= j < i ==> #[trigger] r@[j]@ == cs@[j]@,
        decreases cs@.len() - i,
    {
        let c = AttributeCommitment { tag: cs[i].tag, value: copy_bytes(&cs[i].value) };
        r.push(c);
        i = i + 1;
    }
    proof {
        assert(spec_commitments_view(r@) =~= spec_commitments_view(cs@));
    }
    r
}

/// The identity path, deciding on the fetched account state: find the
/// claimed credential on the account, check the issuer, reject initial
/// credentials, read the validity window, and derive the status at `now`.
/// Each failure surfaces its own named error; nothing else does.
pub fn verify_identity_credential(
    stated_issuer: IpIdentity,
    cred_id: &CredentialRegistrationID,
    account: &AccountInfo,
    now_millis: i64,
) -> (r: Result<CredentialWithMetadata, CredentialLookupError>)
    ensures
        (forall|j: int|
            0 <= j < account.credentials@.len() ==> account.credentials@[j].cred_id@ != cred_id@)
            ==> (r matches Err(e) && e matches CredentialLookupError::CredentialNotPresent {
            cred_id: c,
            account: a,
        } && c@ == cred_id@ && a@ == account.address@),
        forall|i: int|
            (0 <= i < account.credentials@.len() && account.credentials@[i].cred_id@ == cred_id@
                && (forall|j: int|
                0 <= j < i ==> account.credentials@[j].cred_id@ != cred_id@)) ==> ({
                let c = account.credentials@[i];
                &&& c.issuer != stated_issuer ==> (r matches Err(e) && e matches
                    CredentialLookupError::InconsistentIssuer { stated, actual } && stated
                    == stated_issuer && actual == c.issuer)
                &&& c.issuer == stated_issuer && c.details is Initial ==> (r matches Err(e)
                    && e matches CredentialLookupError::InitialCredential { cred_id: ci } && ci@
                    == cred_id@)
                &&& c.issuer == stated_issuer ==> (c.details matches
                    AccountCredentialDetails::Normal { created_at, valid_to, commitments } ==> ({
                    &&& (month_lower_millis(created_at.year, created_at.month) is None
                        || month_upper_millis(valid_to.year, valid_to.month) is None) ==> (
                    r matches Err(e) && e is InvalidResponse)
                    &&& (month_lower_millis(created_at.year, created_at.month) matches Some(from)
                        ==> (month_upper_millis(valid_to.year, valid_to.month) matches Some(
                        until,
                    ) ==> (r matches Ok(cwm) && cwm.commitments matches
                        CredentialsInputs::Identity { commitments: cs } && cwm.status
                        == spec_status_at(now_millis, from, until) && spec_commitments_view(cs@)
                        == spec_commitments_view(commitments@))))
                }))
            }),
{
    let mut i: usize = 0;
    while i < account.credentials.len()
        invariant
            i <= account.credentials@.len(),
            forall|j: int| 0 <= j < i ==> account.credentials@[j].cred_id@ != cred_id@,
        decreases account.credentials@.len() - i,
    {
        if crate::bytes::bytes_eq(&account.credentials[i].cred_id.bytes, &cred_id.bytes) {
            proof {
                assert(account.credentials@[i as int].cred_id@ == cred_id@);
                assert forall|ip: int|
                    (0 <= ip < account.credentials@.len() && account.credentials@[ip].cred_id@
                        == cred_id@ && (forall|j: int|
                        0 <= j < ip ==> account.credentials@[j].cred_id@ != cred_id@)) implies ip
                    == i as int by {
                    if ip < i as int {
                        assert(account.credentials@[ip].cred_id@ != cred_id@);
                    }
                    if ip > i as int {
                        assert(account.credentials@[i as int].cred_id@ != cred_id@);
                    }
                }
            }
            let c = &account.credentials[i];
            if c.issuer.id != stated_issuer.id {
                return Err(
                    CredentialLookupError::InconsistentIssuer {
                        stated: stated_issuer,
                        actual: c.issuer,
                    },
                );
            }
            match &c.details {
                AccountCredentialDetails::Initial => {
                    return Err(
                        CredentialLookupError::InitialCredential {
                            cred_id: CredentialRegistrationID {
                                bytes: copy_bytes(&cred_id.bytes),
                            },
                        },
                    );
                },
                AccountCredentialDetails::Normal { created_at, valid_to, commitments } => {
                    let valid_from = match year_month_lower_millis(created_at) {
                        None => {
                            return Err(CredentialLookupError::InvalidResponse);
                        },
                        Some(v) => v,
                    };
                    let valid_until = match year_month_upper_millis(valid_to) {
                        None => {
                            return Err(CredentialLookupError::InvalidResponse);
                        },
                        Some(v) => v,
                    };
                    let status = credential_status_at(now_millis, valid_from, valid_until);
                    let cs = copy_commitments(commitments);
                    return Ok(
                        CredentialWithMetadata {
                            status,
                            commitments: CredentialsInputs::Identity { commitments: cs },
                        },
                    );
                },
            }
        }
        i = i + 1;
    }
    Err(
        CredentialLookupError::CredentialNotPresent {
            cred_id: CredentialRegistrationID { bytes: copy_bytes(&cred_id.bytes) },
            account: AccountAddress { bytes: copy_bytes(&account.address.bytes) },
        },
    )
}

/// The registry path, deciding on the fetched entry: check the recorded
/// holder against the claimed owner, then parse the entry's commitment
/// bytes. On success the commitment inputs wrap those bytes; the status
/// is fetched from the contract afterwards, since the contract is
/// authoritative for registry credentials.
pub fn verify_web3id_credential(
    contract: &ContractAddress,
    owner: &CredentialHolderId,
    cred_id: &CredentialHolderId,
    entry: &CredentialEntry,
) -> (r: Result<CredentialsInputs, CredentialLookupError>)
    ensures
        entry.credential_info.holder_id@ != owner@ ==> (r matches Err(e) && e matches
            CredentialLookupError::InconsistentOwner { stated, actual } && stated@ == owner@
            && actual@ == entry.credential_info.holder_id@),
        entry.credential_info.holder_id@ == owner@ && !commitment_parses(
            entry.credential_info.commitment@,
        ) ==> (r matches Err(e) && e matches CredentialLookupError::CommitmentParseError {
            contract: ct,
            cred_id: ci,
        } && ct == contract && ci@ == cred_id@),
        entry.credential_info.holder_id@ == owner@ && commitment_parses(
            entry.credential_info.commitment@,
        ) ==> (r matches Ok(inputs) && inputs matches CredentialsInputs::Web3 {
            commitment: c,
        } && c@ == entry.credential_info.commitment@),
{
    if !crate::bytes::bytes_eq(&entry.credential_info.holder_id.bytes, &owner.bytes) {
        return Err(
            CredentialLookupError::InconsistentOwner {
                stated: CredentialHolderId { bytes: copy_bytes(&owner.bytes) },
                actual: CredentialHolderId {
                    bytes: copy_bytes(&entry.credential_info.holder_id.bytes),
                },
            },
        );
    }
    if !parse_web3_commitment(&entry.credential_info.commitment) {
        return Err(
            CredentialLookupError::CommitmentParseError {
                contract: *contract,
                cred_id: CredentialHolderId { bytes: copy_bytes(&cred_id.bytes) },
            },
        );
    }
    Ok(
        CredentialsInputs::Web3 {
            commitment: copy_bytes(&entry.credential_info.commitment),
        },
    )
}

// ---------------------------------------------------------------------------
// Aggregation over a presentation.
// ---------------------------------------------------------------------------

/// The position of the first failed verification, if any.
pub open spec fn spec_first_error(
    s: Seq<Result<CredentialWithMetadata, CredentialLookupError>>,
) -> Option<int>
    decreases s.len(),
{
    if s.len() == 0 {
        None
    } else if s[0] is Err {
        Some(0)
    } else {
        match spec_first_error(s.subrange(1, s.len() as int)) {
            Some(i) => Some(i + 1),
            None => None,
        }
    }
}

/// The first error is the position whose entry failed while every
/// earlier one succeeded.
proof fn lemma_first_error_at(
    s: Seq<Result<CredentialWithMetadata, CredentialLookupError>>,
    i: int,
)
    requires
        0 <= i < s.len(),
        s[i] is Err,
        forall|j: int| 0 <= j < i ==> s[j] is Ok,
    ensures
        spec_first_error(s) == Some(i),
    decreases s.len(),
{
    if i == 0 {
    } else {
        let rest = s.subrange(1, s.len() as int);
        assert(s[0] is Ok);
        assert(rest[i - 1] == s[i]);
        assert forall|j: int| 0 <= j < i - 1 implies rest[j] is Ok by {
            assert(rest[j] == s[j + 1]);
        }
        lemma_first_error_at(rest, i - 1);
    }
}

/// Where nothing failed there is no first error.
proof fn lemma_no_first_error(s: Seq<Result<CredentialWithMetadata, CredentialLookupError>>)
    requires
        forall|j: int| 0 <= j < s.len() ==> s[j] is Ok,
    ensures
        spec_first_error(s) is None,
    decreases s.len(),
{
    if s.len() > 0 {
        let rest = s.subrange(1, s.len() as int);
        assert forall|j: int| 0 <= j < rest.len() implies rest[j] is Ok by {
            assert(rest[j] == s[j + 1]);
        }
        lemma_no_first_error(rest);
    }
}

/// Aggregate the per-credential verification outcomes of one
/// presentation, consumed in the presentation's own order: all successes,
/// in that order, or the first failure alone — successes before or after
/// a failure are discarded, never surfaced.
pub fn get_public_data(
    outcomes: Vec<Result<CredentialWithMetadata, CredentialLookupError>>,
) -> (r: Result<Vec<CredentialWithMetadata>, CredentialLookupError>)
    ensures
        spec_first_error(outcomes@) matches Some(i) ==> (r matches Err(e) && e == outcomes@[i]
            ->Err_0),
        spec_first_error(outcomes@) is None ==> (r matches Ok(v) && v@.len() == outcomes@.len()
            && forall|j: int| 0 <= j < v@.len() ==> v@[j] == outcomes@[j]->Ok_0),
{
    let ghost orig = outcomes@;
    let mut rest = outcomes;
    let mut results: Vec<CredentialWithMetadata> = Vec::new();
    while rest.len() > 0
        invariant
            orig == outcomes@,
            results@.len() + rest@.len() == orig.len(),
            forall|j: int|
                0 <= j < results@.len() ==> (#[trigger] orig[j]) is Ok && results@[j]
                    == orig[j]->Ok_0,
            forall|j: int|
                results@.len() <= j < orig.len() ==> (#[trigger] orig[j]) == rest@[j
                    - results@.len()],
        decreases rest@.len(),
    {
        let x = rest.remove(0);
        match x {
            Ok(v) => {
                results.push(v);
            },
            Err(e) => {
                proof {
                    let k = results@.len() as int;
                    assert(orig[k] == x);
                    lemma_first_error_at(orig, k);
                }
                return Err(e);
            },
        }
    }
    proof {
        assert forall|j: int| 0 <= j < orig.len() implies orig[j] is Ok by {
            assert(orig[j] is Ok && results@[j] == orig[j]->Ok_0);
        }
        lemma_no_first_error(orig);
    }
    Ok(results)
}

} // verus!
