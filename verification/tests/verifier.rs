//! The credential metadata verifier: network gate, identity path with its
//! time-window status, registry path with owner and commitment checks,
//! and the ordered aggregation over a presentation.

use cis4_client::base::{AccountAddress, ContractAddress, ContractIndex, ContractSubIndex};
use cis4_client::cis4::{
    CredentialEntry, CredentialHolderId, CredentialInfo, CredentialStatus, MetadataUrl, Timestamp,
};
use concordium_base::curve_arithmetic::Curve;
use cis4_client::web3id::{
    AccountCredential, AccountCredentialDetails, AccountInfo, AttributeCommitment,
    CredentialLookupError, CredentialMetadata, CredentialQuery, CredentialRegistrationID,
    CredentialWithMetadata, CredentialsInputs, IpIdentity, Network, ProofMetadata, YearMonth,
    credential_status_at, get_public_data, verify_credential_metadata, verify_identity_credential,
    verify_web3id_credential,
};

fn addr(index: u64, subindex: u64) -> ContractAddress {
    ContractAddress {
        index: ContractIndex { index },
        subindex: ContractSubIndex { sub_index: subindex },
    }
}

fn reg_id(byte: u8) -> CredentialRegistrationID {
    CredentialRegistrationID { bytes: vec![byte; 48] }
}

fn holder(byte: u8) -> CredentialHolderId {
    CredentialHolderId { bytes: vec![byte; 32] }
}

fn normal_credential(id_byte: u8, issuer: u32) -> AccountCredential {
    AccountCredential {
        cred_id: reg_id(id_byte),
        issuer: IpIdentity { id: issuer },
        details: AccountCredentialDetails::Normal {
            created_at: YearMonth { year: 2020, month: 1 },
            valid_to: YearMonth { year: 2030, month: 12 },
            commitments: vec![AttributeCommitment { tag: 3, value: vec![0xAA; 48] }],
        },
    }
}

fn account(credentials: Vec<AccountCredential>) -> AccountInfo {
    AccountInfo { address: AccountAddress { bytes: vec![9; 32] }, credentials }
}

fn entry(holder_byte: u8, commitment: Vec<u8>) -> CredentialEntry {
    CredentialEntry {
        credential_info: CredentialInfo {
            holder_id: holder(holder_byte),
            holder_revocable: true,
            commitment,
            valid_from: Timestamp { millis: 0 },
            valid_until: None,
            metadata_url: MetadataUrl { url: b"https://example.com".to_vec(), hash: None },
        },
        schema_ref: MetadataUrl { url: b"https://example.com/schema".to_vec(), hash: None },
        revocation_nonce: 0,
    }
}

fn valid_commitment_bytes() -> Vec<u8> {
    let c = concordium_base::pedersen_commitment::Commitment(
        concordium_base::id::constants::ArCurve::one_point(),
    );
    concordium_base::common::to_bytes(&c)
}

#[test]
fn status_boundaries() {
    // The window here is [100, 200] in milliseconds.
    assert_eq!(credential_status_at(99, 100, 200), CredentialStatus::NotActivated);
    assert_eq!(credential_status_at(100, 100, 200), CredentialStatus::Active);
    assert_eq!(credential_status_at(150, 100, 200), CredentialStatus::Active);
    assert_eq!(credential_status_at(200, 100, 200), CredentialStatus::Active);
    assert_eq!(credential_status_at(201, 100, 200), CredentialStatus::Expired);
}

#[test]
fn wrong_network_fails_before_any_lookup() {
    let meta = ProofMetadata {
        created_millis: 0,
        network: Network::Testnet,
        cred_metadata: CredentialMetadata::Identity {
            issuer: IpIdentity { id: 0 },
            cred_id: reg_id(1),
        },
    };
    // No chain lookup is even named on this path: the error comes back
    // instead of a query.
    let r = verify_credential_metadata(Network::Mainnet, &meta);
    assert!(matches!(r, Err(CredentialLookupError::IncorrectNetwork)));
}

#[test]
fn matching_network_names_the_lookup() {
    let meta = ProofMetadata {
        created_millis: 0,
        network: Network::Mainnet,
        cred_metadata: CredentialMetadata::Identity {
            issuer: IpIdentity { id: 0 },
            cred_id: reg_id(1),
        },
    };
    match verify_credential_metadata(Network::Mainnet, &meta).unwrap() {
        CredentialQuery::AccountCredentials { cred_id } => {
            assert_eq!(cred_id.bytes, vec![1; 48]);
        }
        other => panic!("expected an account lookup, got {:?}", other),
    }
    let meta = ProofMetadata {
        created_millis: 0,
        network: Network::Mainnet,
        cred_metadata: CredentialMetadata::Web3Id {
            contract: addr(4, 0),
            owner: holder(2),
            id: holder(2),
        },
    };
    match verify_credential_metadata(Network::Mainnet, &meta).unwrap() {
        CredentialQuery::RegistryEntry { contract, cred_id } => {
            assert_eq!(contract, addr(4, 0));
            assert_eq!(cred_id.bytes, vec![2; 32]);
        }
        other => panic!("expected a registry lookup, got {:?}", other),
    }
}

#[test]
fn identity_path_active_credential() {
    let acc = account(vec![normal_credential(1, 17)]);
    // September 2020, well inside the 2020-01 to 2030-12 window.
    let now = 1_600_000_000_000i64;
    let r = verify_identity_credential(IpIdentity { id: 17 }, &reg_id(1), &acc, now).unwrap();
    assert_eq!(r.status, CredentialStatus::Active);
    match r.commitments {
        CredentialsInputs::Identity { commitments } => {
            assert_eq!(commitments.len(), 1);
            assert_eq!(commitments[0].tag, 3);
            assert_eq!(commitments[0].value, vec![0xAA; 48]);
        }
        other => panic!("expected identity inputs, got {:?}", other),
    }
    // The window bounds the chain's own calendar gives.
    let lower = chrono::DateTime::parse_from_rfc3339("2020-01-01T00:00:00Z")
        .unwrap()
        .timestamp_millis();
    assert_eq!(
        verify_identity_credential(IpIdentity { id: 17 }, &reg_id(1), &acc, lower - 1)
            .unwrap()
            .status,
        CredentialStatus::NotActivated
    );
    let upper = chrono::DateTime::parse_from_rfc3339("2031-01-01T00:00:00Z")
        .unwrap()
        .timestamp_millis();
    assert_eq!(
        verify_identity_credential(IpIdentity { id: 17 }, &reg_id(1), &acc, upper + 1)
            .unwrap()
            .status,
        CredentialStatus::Expired
    );
}

#[test]
fn identity_path_named_errors() {
    let acc = account(vec![normal_credential(1, 17)]);
    let now = 1_600_000_000_000i64;
    // Absent credential.
    let r = verify_identity_credential(IpIdentity { id: 17 }, &reg_id(2), &acc, now);
    match r {
        Err(CredentialLookupError::CredentialNotPresent { cred_id, account }) => {
            assert_eq!(cred_id.bytes, vec![2; 48]);
            assert_eq!(account.bytes, vec![9; 32]);
        }
        other => panic!("expected CredentialNotPresent, got {:?}", other),
    }
    // Issuer mismatch surfaces its own error, never a generic one.
    let r = verify_identity_credential(IpIdentity { id: 18 }, &reg_id(1), &acc, now);
    match r {
        Err(CredentialLookupError::InconsistentIssuer { stated, actual }) => {
            assert_eq!(stated.id, 18);
            assert_eq!(actual.id, 17);
        }
        other => panic!("expected InconsistentIssuer, got {:?}", other),
    }
    // An initial credential is rejected by name.
    let initial = AccountCredential {
        cred_id: reg_id(5),
        issuer: IpIdentity { id: 17 },
        details: AccountCredentialDetails::Initial,
    };
    let acc2 = account(vec![initial]);
    let r = verify_identity_credential(IpIdentity { id: 17 }, &reg_id(5), &acc2, now);
    match r {
        Err(CredentialLookupError::InitialCredential { cred_id }) => {
            assert_eq!(cred_id.bytes, vec![5; 48]);
        }
        other => panic!("expected InitialCredential, got {:?}", other),
    }
    // A malformed validity month is an invalid response.
    let broken = AccountCredential {
        cred_id: reg_id(6),
        issuer: IpIdentity { id: 17 },
        details: AccountCredentialDetails::Normal {
            created_at: YearMonth { year: 2020, month: 13 },
            valid_to: YearMonth { year: 2030, month: 12 },
            commitments: Vec::new(),
        },
    };
    let acc3 = account(vec![broken]);
    let r = verify_identity_credential(IpIdentity { id: 17 }, &reg_id(6), &acc3, now);
    assert!(matches!(r, Err(CredentialLookupError::InvalidResponse)));
}

#[test]
fn identity_path_takes_first_match() {
    let mut first = normal_credential(1, 17);
    first.details = AccountCredentialDetails::Initial;
    let second = normal_credential(1, 17);
    let acc = account(vec![first, second]);
    // The first matching credential decides, as the account's own order
    // has it.
    let r = verify_identity_credential(
        IpIdentity { id: 17 },
        &reg_id(1),
        &acc,
        1_600_000_000_000,
    );
    assert!(matches!(r, Err(CredentialLookupError::InitialCredential { .. })));
}

#[test]
fn web3id_path_owner_mismatch() {
    let e = entry(0x0E, valid_commitment_bytes());
    let r = verify_web3id_credential(&addr(4, 0), &holder(0x0F), &holder(0x0E), &e);
    match r {
        Err(CredentialLookupError::InconsistentOwner { stated, actual }) => {
            assert_eq!(stated.bytes, vec![0x0F; 32]);
            assert_eq!(actual.bytes, vec![0x0E; 32]);
        }
        other => panic!("expected InconsistentOwner, got {:?}", other),
    }
}

#[test]
fn web3id_path_commitment_parse_error() {
    // Too few bytes for a curve point: the commitment cannot parse.
    let e = entry(0x0E, vec![0xFF; 10]);
    let r = verify_web3id_credential(&addr(4, 2), &holder(0x0E), &holder(0x0E), &e);
    match r {
        Err(CredentialLookupError::CommitmentParseError { contract, cred_id }) => {
            assert_eq!(contract, addr(4, 2));
            assert_eq!(cred_id.bytes, vec![0x0E; 32]);
        }
        other => panic!("expected CommitmentParseError, got {:?}", other),
    }
}

#[test]
fn web3id_end_to_end() {
    // A registry entry with holder id H and commitment bytes C, for
    // claimed owner H at the claimed contract: no reconciliation error,
    // the parsed commitment input is C, and the status is whatever the
    // contract reports.
    let c = valid_commitment_bytes();
    let e = entry(0x0E, c.clone());
    let inputs = verify_web3id_credential(&addr(4, 0), &holder(0x0E), &holder(0x0E), &e).unwrap();
    let commitment = match inputs {
        CredentialsInputs::Web3 { commitment } => commitment,
        other => panic!("expected a registry commitment, got {:?}", other),
    };
    assert_eq!(commitment, c);
    // The bytes indeed parse back to the commitment they came from.
    let parsed: concordium_base::pedersen_commitment::Commitment<
        concordium_base::id::constants::ArCurve,
    > = concordium_base::common::from_bytes(&mut std::io::Cursor::new(&commitment)).unwrap();
    assert_eq!(
        parsed,
        concordium_base::pedersen_commitment::Commitment(
            concordium_base::id::constants::ArCurve::one_point()
        )
    );
    let status_bytes =
        concordium_base::contracts_common::to_bytes(&concordium_base::cis4_types::CredentialStatus::Revoked);
    let status = cis4_client::cis4::parse_credential_status_response(&status_bytes).unwrap();
    let result = CredentialWithMetadata {
        status,
        commitments: CredentialsInputs::Web3 { commitment },
    };
    assert_eq!(result.status, CredentialStatus::Revoked);
}

fn ok_outcome(status: CredentialStatus) -> Result<CredentialWithMetadata, CredentialLookupError> {
    Ok(CredentialWithMetadata {
        status,
        commitments: CredentialsInputs::Identity { commitments: Vec::new() },
    })
}

#[test]
fn aggregation_keeps_order() {
    let outcomes = vec![
        ok_outcome(CredentialStatus::Active),
        ok_outcome(CredentialStatus::Revoked),
        ok_outcome(CredentialStatus::Expired),
    ];
    let all = get_public_data(outcomes).unwrap();
    assert_eq!(all.len(), 3);
    assert_eq!(all[0].status, CredentialStatus::Active);
    assert_eq!(all[1].status, CredentialStatus::Revoked);
    assert_eq!(all[2].status, CredentialStatus::Expired);
}

#[test]
fn aggregation_surfaces_middle_failure_alone() {
    // Credentials [A, B, C] where B fails: the error is B's, and the
    // successes of A and C are not exposed as partial output.
    let outcomes = vec![
        ok_outcome(CredentialStatus::Active),
        Err(CredentialLookupError::IncorrectNetwork),
        ok_outcome(CredentialStatus::Active),
    ];
    let r = get_public_data(outcomes);
    assert!(matches!(r, Err(CredentialLookupError::IncorrectNetwork)));
}

#[test]
fn aggregation_returns_first_error_in_order() {
    let outcomes = vec![
        ok_outcome(CredentialStatus::Active),
        Err(CredentialLookupError::InvalidResponse),
        Err(CredentialLookupError::IncorrectNetwork),
    ];
    let r = get_public_data(outcomes);
    assert!(matches!(r, Err(CredentialLookupError::InvalidResponse)));
    assert!(matches!(get_public_data(Vec::new()), Ok(v) if v.is_empty()));
}
