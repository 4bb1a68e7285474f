//! The wire format of the registry protocol: the bounded parameter codec,
//! the registry requests, the revocation message, and the response
//! readers — also held against the serialization the chain's own crates
//! produce.

use cis4_client::base::{ContractAddress, ContractIndex, ContractSubIndex, Nonce, Energy};
use cis4_client::cis4::{
    Amount, Cis4Contract, Cis4TransactionError, ContractTransactionMetadata, CredentialHolderId,
    CredentialInfo, Ed25519Signer, MetadataUrl, NewReceiveNameError, Reason, RevocationKey,
    Timestamp, TransactionTime, Web3IdSigner, build_revocation_message, expiry_millis,
    parse_credential_entry, parse_credential_info, parse_credential_status_response,
    parse_issuer_address_response, parse_revocation_keys_response, validate_receive_name,
    write_contract_address, write_credential_info, write_metadata_url, write_opt_reason,
};
use cis4_client::bytes::{write_u64_le, write_u8};
use cis4_client::codec::{
    MAX_PARAMETER_LEN, OwnedParameter, compose_parameter, read_trailer,
};
use concordium_base::contracts_common::ReceiveName;
use concordium_base::cis4_types::CredentialStatus as ChainCredentialStatus;
use cis4_client::cis4::CredentialStatus;

fn addr(index: u64, subindex: u64) -> ContractAddress {
    ContractAddress {
        index: ContractIndex { index },
        subindex: ContractSubIndex { sub_index: subindex },
    }
}

fn holder(byte: u8) -> CredentialHolderId {
    CredentialHolderId { bytes: vec![byte; 32] }
}

fn sample_info(commitment: Vec<u8>) -> CredentialInfo {
    CredentialInfo {
        holder_id: holder(7),
        holder_revocable: true,
        commitment,
        valid_from: Timestamp { millis: 1000 },
        valid_until: Some(Timestamp { millis: 2000 }),
        metadata_url: MetadataUrl { url: b"https://example.com/meta".to_vec(), hash: None },
    }
}

fn metadata(expiry_seconds: u64) -> ContractTransactionMetadata {
    ContractTransactionMetadata {
        sender_address: cis4_client::base::AccountAddress { bytes: vec![3; 32] },
        nonce: Nonce { nonce: 1 },
        expiry: TransactionTime { seconds: expiry_seconds },
        energy: Energy { energy: 10_000 },
        amount: Amount { micro_ccd: 0 },
    }
}

#[test]
fn u64_little_endian_matches_chain_encoding() {
    let mut ours: Vec<u8> = Vec::new();
    write_u64_le(&mut ours, 0x0102_0304_0506_0708);
    let theirs = concordium_base::contracts_common::to_bytes(&0x0102_0304_0506_0708u64);
    assert_eq!(ours, theirs);
}

#[test]
fn contract_address_matches_chain_encoding() {
    let mut ours: Vec<u8> = Vec::new();
    write_contract_address(&mut ours, &addr(7, 9));
    let theirs = concordium_base::contracts_common::to_bytes(
        &concordium_base::contracts_common::ContractAddress::new(7, 9),
    );
    assert_eq!(ours, theirs);
}

#[test]
fn metadata_url_matches_chain_encoding() {
    let mut ours: Vec<u8> = Vec::new();
    write_metadata_url(
        &mut ours,
        &MetadataUrl { url: b"https://example.com".to_vec(), hash: Some(vec![5; 32]) },
    );
    let theirs = concordium_base::contracts_common::to_bytes(
        &concordium_base::cis2_types::MetadataUrl::new(
            "https://example.com".to_string(),
            Some([5u8; 32].into()),
        )
        .unwrap(),
    );
    assert_eq!(ours, theirs);
}

#[test]
fn credential_status_tags_match_chain_encoding() {
    let pairs = [
        (ChainCredentialStatus::Active, CredentialStatus::Active),
        (ChainCredentialStatus::Revoked, CredentialStatus::Revoked),
        (ChainCredentialStatus::Expired, CredentialStatus::Expired),
        (ChainCredentialStatus::NotActivated, CredentialStatus::NotActivated),
    ];
    for (theirs, ours) in pairs {
        let bytes = concordium_base::contracts_common::to_bytes(&theirs);
        let parsed = parse_credential_status_response(&bytes).unwrap();
        assert_eq!(parsed, ours);
    }
    assert!(parse_credential_status_response(&vec![4u8]).is_err());
    assert!(parse_credential_status_response(&Vec::new()).is_err());
}

#[test]
fn parameter_rejected_above_limit() {
    assert!(OwnedParameter::try_from(vec![0u8; MAX_PARAMETER_LEN]).is_ok());
    let err = OwnedParameter::try_from(vec![0u8; MAX_PARAMETER_LEN + 1]).unwrap_err();
    assert_eq!(err.actual, MAX_PARAMETER_LEN + 1);
    assert_eq!(err.max, MAX_PARAMETER_LEN);
}

#[test]
fn compose_and_split_round_trip() {
    let head = vec![1u8, 2, 3];
    let trailer = vec![9u8, 8, 7, 6];
    let param = compose_parameter(&head, &trailer).unwrap();
    let bytes = param.into_bytes();
    assert_eq!(&bytes[..3], &head[..]);
    assert_eq!(&bytes[3..5], &[4u8, 0]);
    assert_eq!(&bytes[5..], &trailer[..]);
    let back = read_trailer(&bytes, head.len()).unwrap();
    assert_eq!(back, trailer);
}

#[test]
fn compose_reports_exact_overflow() {
    let head = vec![0u8; MAX_PARAMETER_LEN - 1];
    let trailer = vec![0u8; 10];
    let err = compose_parameter(&head, &trailer).unwrap_err();
    assert_eq!(err.actual, MAX_PARAMETER_LEN - 1 + 10 + 2);
    assert_eq!(err.max, MAX_PARAMETER_LEN);
}

#[test]
fn credential_info_round_trips_with_trailer() {
    let info = sample_info(vec![0xAB; 48]);
    let mut head: Vec<u8> = Vec::new();
    write_credential_info(&mut head, &info);
    let data = vec![0xEE; 5];
    let param = compose_parameter(&head, &data).unwrap();
    let bytes = param.into_bytes();
    let (back, consumed) = parse_credential_info(&bytes, 0).unwrap();
    assert_eq!(consumed, head.len());
    assert_eq!(back.holder_id.bytes, info.holder_id.bytes);
    assert_eq!(back.holder_revocable, info.holder_revocable);
    assert_eq!(back.commitment, info.commitment);
    assert_eq!(back.valid_from, info.valid_from);
    assert_eq!(back.valid_until, info.valid_until);
    assert_eq!(back.metadata_url.url, info.metadata_url.url);
    assert_eq!(back.metadata_url.hash, info.metadata_url.hash);
    let trailer = read_trailer(&bytes, consumed).unwrap();
    assert_eq!(trailer, data);
}

#[test]
fn register_credential_builds_layout() {
    let contract = Cis4Contract::new(addr(1, 0), b"registry".to_vec());
    let info = sample_info(vec![0xAB; 48]);
    let data = vec![0xCD; 4];
    let req = contract.register_credential(&info, &data).unwrap();
    assert_eq!(req.receive_name, b"registry.registerCredential".to_vec());
    let mut expected: Vec<u8> = Vec::new();
    write_credential_info(&mut expected, &info);
    expected.push(4);
    expected.push(0);
    expected.extend_from_slice(&data);
    assert_eq!(req.parameter.into_bytes(), expected);
}

#[test]
fn register_credential_rejects_oversized_before_any_request() {
    let contract = Cis4Contract::new(addr(1, 0), b"registry".to_vec());
    let info = sample_info(vec![0xAB; 48]);
    let mut encoded: Vec<u8> = Vec::new();
    write_credential_info(&mut encoded, &info);
    let data = vec![0u8; MAX_PARAMETER_LEN - encoded.len() - 1];
    // One byte over the limit: the exact total and the limit are reported,
    // and no request exists that could reach a submitter.
    let err = contract.register_credential(&info, &data).unwrap_err();
    match err {
        Cis4TransactionError::InvalidParams(e) => {
            assert_eq!(e.actual, encoded.len() + data.len() + 2);
            assert_eq!(e.max, MAX_PARAMETER_LEN);
        }
        other => panic!("expected InvalidParams, got {:?}", other),
    }
    // One byte less fits.
    let data_ok = vec![0u8; MAX_PARAMETER_LEN - encoded.len() - 2];
    assert!(contract.register_credential(&info, &data_ok).is_ok());
}

#[test]
fn receive_name_validation() {
    assert!(validate_receive_name(&b"registry.credentialEntry".to_vec()).is_ok());
    assert_eq!(
        validate_receive_name(&b"registrycredentialEntry".to_vec()),
        Err(NewReceiveNameError::MissingDotSeparator)
    );
    assert_eq!(
        validate_receive_name(&vec![b'a'; 101]),
        Err(NewReceiveNameError::MissingDotSeparator)
    );
    let mut long = vec![b'a'; 100];
    long.push(b'.');
    assert_eq!(validate_receive_name(&long), Err(NewReceiveNameError::TooLong));
    assert_eq!(
        validate_receive_name(&b"registry.credential Entry".to_vec()),
        Err(NewReceiveNameError::InvalidCharacters)
    );
    // The chain's own validator agrees on these.
    assert!(ReceiveName::is_valid_receive_name("registry.credentialEntry").is_ok());
    assert!(ReceiveName::is_valid_receive_name("registrycredentialEntry").is_err());
    assert!(ReceiveName::is_valid_receive_name("registry.credential Entry").is_err());
}

#[test]
fn queries_use_expected_names_and_parameters() {
    let contract = Cis4Contract::new(addr(1, 0), b"registry".to_vec());
    let id = holder(0x11);
    let q = contract.credential_entry(&id).unwrap();
    assert_eq!(q.receive_name, b"registry.credentialEntry".to_vec());
    assert_eq!(q.parameter.as_bytes(), &vec![0x11u8; 32]);
    let q = contract.credential_status(&id).unwrap();
    assert_eq!(q.receive_name, b"registry.credentialStatus".to_vec());
    assert_eq!(q.parameter.as_bytes(), &vec![0x11u8; 32]);
    let q = contract.revocation_keys().unwrap();
    assert_eq!(q.receive_name, b"registry.revocationKeys".to_vec());
    assert!(q.parameter.as_bytes().is_empty());
    let q = contract.issuer_metadata().unwrap();
    assert_eq!(q.receive_name, b"registry.issuerMetadata".to_vec());
    let q = contract.issuer_address().unwrap();
    assert_eq!(q.receive_name, b"registry.issuer".to_vec());
    let bad = Cis4Contract::new(addr(1, 0), b"no name".to_vec());
    assert!(bad.credential_entry(&id).is_err());
}

#[test]
fn expiry_saturates() {
    assert_eq!(expiry_millis(2), 2000);
    assert_eq!(expiry_millis(u64::MAX / 1000), (u64::MAX / 1000) * 1000);
    assert_eq!(expiry_millis(u64::MAX / 1000 + 1), u64::MAX);
    assert_eq!(expiry_millis(u64::MAX), u64::MAX);
}

#[test]
fn revocation_message_layout_and_determinism() {
    let cred = holder(0x22);
    let a = addr(77, 0);
    let reason = Some(Reason { reason: b"lost key".to_vec() });
    let once = build_revocation_message(&cred, &a, 5, 9_000, None, &reason);
    let again = build_revocation_message(&cred, &a, 5, 9_000, None, &reason);
    assert_eq!(once, again);
    let mut expected: Vec<u8> = b"WEB3ID:REVOKE".to_vec();
    assert_eq!(expected, concordium_base::web3id::REVOKE_DOMAIN_STRING.to_vec());
    expected.extend_from_slice(&[0x22; 32]);
    expected.extend_from_slice(&concordium_base::contracts_common::to_bytes(
        &concordium_base::contracts_common::ContractAddress::new(77, 0),
    ));
    expected.extend_from_slice(&5u64.to_le_bytes());
    expected.extend_from_slice(&9_000u64.to_le_bytes());
    expected.push(1);
    expected.push(8);
    expected.extend_from_slice(b"lost key");
    assert_eq!(once, expected);
    // The revoker path puts the key between expiry and reason.
    let key = RevocationKey { bytes: vec![0x33; 32] };
    let with_key = build_revocation_message(&cred, &a, 5, 9_000, Some(&key), &reason);
    let mut expected_key = expected[..13 + 32 + 16 + 16].to_vec();
    expected_key.extend_from_slice(&[0x33; 32]);
    expected_key.extend_from_slice(&expected[13 + 32 + 16 + 16..]);
    assert_eq!(with_key, expected_key);
}

#[test]
fn holder_revocation_signs_domain_tagged_message() {
    let signer = Ed25519Signer::new(vec![9u8; 32]).unwrap();
    let contract = Cis4Contract::new(addr(77, 0), b"registry".to_vec());
    let meta = metadata(1_000);
    let reason = Some(Reason { reason: b"x".to_vec() });
    let req = contract
        .revoke_credential_as_holder(&meta, &signer, 42, &reason)
        .unwrap();
    assert_eq!(req.receive_name, b"registry.revokeCredentialHolder".to_vec());
    let cred_id = Web3IdSigner::id(&signer);
    let message = build_revocation_message(
        &cred_id,
        &contract.address,
        42,
        1_000_000,
        None,
        &reason,
    );
    let sig = Web3IdSigner::sign(&signer, &message);
    let dalek = concordium_base::ed25519::SigningKey::from_bytes(&[9u8; 32]);
    let expected_sig =
        concordium_base::web3id::Web3IdSigner::sign(&dalek, &message).to_bytes().to_vec();
    assert_eq!(sig, expected_sig);
    assert_eq!(
        cred_id.bytes,
        concordium_base::web3id::Web3IdSigner::id(&dalek).to_bytes().to_vec()
    );
    let bytes = req.parameter.into_bytes();
    assert_eq!(&bytes[..64], &sig[..]);
    // The transmitted fields are the signed message without the domain tag.
    assert_eq!(&bytes[64..], &message[13..]);
}

#[test]
fn revoker_revocation_includes_key() {
    let signer = Ed25519Signer::new(vec![1u8; 32]).unwrap();
    let contract = Cis4Contract::new(addr(8, 2), b"registry".to_vec());
    let meta = metadata(2_000);
    let key = RevocationKey { bytes: vec![0x44; 32] };
    let cred = holder(0x55);
    let req = contract
        .revoke_credential_as_revoker(&meta, &signer, 7, &key, &cred, &None)
        .unwrap();
    let message = build_revocation_message(&cred, &contract.address, 7, 2_000_000, Some(&key), &None);
    let sig = Web3IdSigner::sign(&signer, &message);
    let bytes = req.parameter.into_bytes();
    assert_eq!(&bytes[..64], &sig[..]);
    assert_eq!(&bytes[64..], &message[13..]);
}

#[test]
fn issuer_revocation_parameter() {
    let contract = Cis4Contract::new(addr(8, 2), b"registry".to_vec());
    let cred = holder(0x66);
    let req = contract.revoke_credential_as_issuer(&cred, &None).unwrap();
    assert_eq!(req.receive_name, b"registry.revokeCredentialIssuer".to_vec());
    let mut expected = vec![0x66u8; 32];
    expected.push(0);
    assert_eq!(req.parameter.into_bytes(), expected);
}

#[test]
fn credential_entry_response_parses() {
    let info = sample_info(vec![0xAB; 48]);
    let mut bytes: Vec<u8> = Vec::new();
    write_credential_info(&mut bytes, &info);
    write_metadata_url(
        &mut bytes,
        &MetadataUrl { url: b"https://example.com/schema".to_vec(), hash: None },
    );
    write_u64_le(&mut bytes, 11);
    let (entry, consumed) = parse_credential_entry(&bytes, 0).unwrap();
    assert_eq!(consumed, bytes.len());
    assert_eq!(entry.credential_info.commitment, vec![0xAB; 48]);
    assert_eq!(entry.schema_ref.url, b"https://example.com/schema".to_vec());
    assert_eq!(entry.revocation_nonce, 11);
    // A truncated response is a parse error.
    let truncated = bytes[..bytes.len() - 1].to_vec();
    assert!(cis4_client::cis4::parse_credential_entry_response(&truncated).is_err());
}

#[test]
fn revocation_keys_response_parses() {
    let mut bytes: Vec<u8> = Vec::new();
    bytes.extend_from_slice(&2u32.to_le_bytes());
    bytes.extend_from_slice(&[0x01; 32]);
    bytes.extend_from_slice(&3u64.to_le_bytes());
    bytes.extend_from_slice(&[0x02; 32]);
    bytes.extend_from_slice(&4u64.to_le_bytes());
    let keys = parse_revocation_keys_response(&bytes).unwrap();
    assert_eq!(keys.len(), 2);
    assert_eq!(keys[0].key.bytes, vec![0x01; 32]);
    assert_eq!(keys[0].nonce, 3);
    assert_eq!(keys[1].key.bytes, vec![0x02; 32]);
    assert_eq!(keys[1].nonce, 4);
}

#[test]
fn issuer_address_response_parses() {
    let bytes = vec![0x0A; 32];
    let a = parse_issuer_address_response(&bytes).unwrap();
    assert_eq!(a.bytes, bytes);
    assert!(parse_issuer_address_response(&vec![0u8; 31]).is_err());
}

#[test]
fn opt_reason_layout() {
    let mut none: Vec<u8> = Vec::new();
    write_opt_reason(&mut none, &None);
    assert_eq!(none, vec![0]);
    let mut some: Vec<u8> = Vec::new();
    write_opt_reason(&mut some, &Some(Reason { reason: b"ab".to_vec() }));
    assert_eq!(some, vec![1, 2, b'a', b'b']);
    let mut tag: Vec<u8> = Vec::new();
    write_u8(&mut tag, 1);
    assert_eq!(tag, vec![1]);
}

#[test]
fn issuer_metadata_response_parses() {
    let url = MetadataUrl { url: b"https://example.com/issuer".to_vec(), hash: Some(vec![7; 32]) };
    let mut bytes: Vec<u8> = Vec::new();
    write_metadata_url(&mut bytes, &url);
    let parsed = cis4_client::cis4::parse_issuer_metadata_response(&bytes).unwrap();
    assert_eq!(parsed.url, url.url);
    assert_eq!(parsed.hash, url.hash);
    assert!(cis4_client::cis4::parse_issuer_metadata_response(&vec![9u8]).is_err());
}
