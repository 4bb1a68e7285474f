//! Types of the credential registry protocol and their exact wire format:
//! serialization specs, writers and readers for every value that crosses
//! the contract boundary, and the typed client over them.

use vstd::prelude::*;
use crate::base::{ContractAddress, AccountAddress, Nonce, Energy};
use crate::codec::{OwnedParameter, ExceedsParameterSize, MAX_PARAMETER_LEN};
use crate::bytes::{
    spec_u16_le, spec_u16_from, spec_u64_le, spec_u64_from, write_u8, write_u16_le, write_u64_le,
    write_bytes,
};

verus! {

/// Byte length of an ed25519 public key.
pub const PUBLIC_KEY_LEN: usize = 32;

/// Byte length of a content hash.
pub const HASH_LEN: usize = 32;

/// The public identifier (an ed25519 public key) of the holder of a
/// credential.
#[derive(Clone, Debug)]
pub struct CredentialHolderId {
    /// The 32 bytes of the key.
    pub bytes: Vec<u8>,
}

impl View for CredentialHolderId {
    type V = Seq<u8>;

    open spec fn view(&self) -> Seq<u8> {
        self.bytes@
    }
}

impl CredentialHolderId {
    pub open spec fn wf(self) -> bool {
        self@.len() == PUBLIC_KEY_LEN
    }

    /// Accept exactly 32 bytes as a holder id.
    pub fn new(bytes: Vec<u8>) -> (r: Option<CredentialHolderId>)
        ensures
            r is Some <==> bytes@.len() == PUBLIC_KEY_LEN,
            r matches Some(h) ==> h@ =~= bytes@ && h.wf(),
    {
        if bytes.len() == PUBLIC_KEY_LEN {
            Some(CredentialHolderId { bytes })
        } else {
            None
        }
    }
}

/// A public key authorized to revoke credentials in a registry.
#[derive(Clone, Debug)]
pub struct RevocationKey {
    /// The 32 bytes of the key.
    pub bytes: Vec<u8>,
}

impl View for RevocationKey {
    type V = Seq<u8>;

    open spec fn view(&self) -> Seq<u8> {
        self.bytes@
    }
}

impl RevocationKey {
    pub open spec fn wf(self) -> bool {
        self@.len() == PUBLIC_KEY_LEN
    }
}

/// A revocation key together with the nonce that must sign the next
/// revocation; owned by the on-chain registry, read-only here.
#[derive(Clone, Debug)]
pub struct RevocationKeyWithNonce {
    pub key: RevocationKey,
    pub nonce: u64,
}

/// A moment in time, in milliseconds since the epoch.
#[derive(Clone, Copy, PartialEq, Eq, Structural, Debug)]
pub struct Timestamp {
    pub millis: u64,
}

/// An optional human-readable reason for a revocation; at most 255 bytes
/// on the wire.
#[derive(Clone, Debug)]
pub struct Reason {
    /// The reason text as UTF-8 bytes.
    pub reason: Vec<u8>,
}

impl View for Reason {
    type V = Seq<u8>;

    open spec fn view(&self) -> Seq<u8> {
        self.reason@
    }
}

impl Reason {
    pub open spec fn wf(self) -> bool {
        self@.len() <= 255
    }
}

/// The ghost shape of a metadata URL.
pub ghost struct MetadataUrlV {
    pub url: Seq<u8>,
    pub hash: Option<Seq<u8>>,
}

/// A URL of off-chain metadata, with an optional content hash.
#[derive(Clone, Debug)]
pub struct MetadataUrl {
    /// The URL as UTF-8 bytes.
    pub url: Vec<u8>,
    /// An optional checksum of the content found at the URL.
    pub hash: Option<Vec<u8>>,
}

impl View for MetadataUrl {
    type V = MetadataUrlV;

    open spec fn view(&self) -> MetadataUrlV {
        MetadataUrlV {
            url: self.url@,
            hash: match self.hash {
                Some(h) => Some(h@),
                None => None,
            },
        }
    }
}

impl MetadataUrlV {
    pub open spec fn wf(self) -> bool {
        &&& self.url.len() <= 0xffff
        &&& match self.hash {
            Some(h) => h.len() == HASH_LEN,
            None => true,
        }
    }
}

/// The ghost shape of the immutable part of a registered credential.
pub ghost struct CredentialInfoV {
    pub holder_id: Seq<u8>,
    pub holder_revocable: bool,
    pub commitment: Seq<u8>,
    pub valid_from: u64,
    pub valid_until: Option<u64>,
    pub metadata_url: MetadataUrlV,
}

/// The immutable part of a registered credential: holder, revocability,
/// validity window and metadata location.
#[derive(Clone, Debug)]
pub struct CredentialInfo {
    /// The holder's identifier.
    pub holder_id: CredentialHolderId,
    /// Whether the holder may revoke the credential.
    pub holder_revocable: bool,
    /// The commitment to the credential's attributes: an opaque blob that
    /// a separate commitment scheme produces and reads.
    pub commitment: Vec<u8>,
    /// The time from which the credential is valid.
    pub valid_from: Timestamp,
    /// The time after which the credential is expired; absent for a
    /// credential that cannot expire.
    pub valid_until: Option<Timestamp>,
    /// Where the credential's metadata lives.
    pub metadata_url: MetadataUrl,
}

impl View for CredentialInfo {
    type V = CredentialInfoV;

    open spec fn view(&self) -> CredentialInfoV {
        CredentialInfoV {
            holder_id: self.holder_id@,
            holder_revocable: self.holder_revocable,
            commitment: self.commitment@,
            valid_from: self.valid_from.millis,
            valid_until: match self.valid_until {
                Some(t) => Some(t.millis),
                None => None,
            },
            metadata_url: self.metadata_url@,
        }
    }
}

impl CredentialInfoV {
    pub open spec fn wf(self) -> bool {
        &&& self.holder_id.len() == PUBLIC_KEY_LEN
        &&& self.commitment.len() <= 0xffff
        &&& self.metadata_url.wf()
    }
}

/// The ghost shape of a registry entry.
pub ghost struct CredentialEntryV {
    pub credential_info: CredentialInfoV,
    pub schema_ref: MetadataUrlV,
    pub revocation_nonce: u64,
}

/// The registry's view of one credential: its immutable info, the schema
/// it conforms to, and the nonce that must sign the next holder
/// revocation.
#[derive(Clone, Debug)]
pub struct CredentialEntry {
    pub credential_info: CredentialInfo,
    /// A URL pointing to the JSON schema of the credential.
    pub schema_ref: MetadataUrl,
    /// The nonce that prevents replay of holder revocation signatures.
    pub revocation_nonce: u64,
}

impl View for CredentialEntry {
    type V = CredentialEntryV;

    open spec fn view(&self) -> CredentialEntryV {
        CredentialEntryV {
            credential_info: self.credential_info@,
            schema_ref: self.schema_ref@,
            revocation_nonce: self.revocation_nonce,
        }
    }
}

impl CredentialEntryV {
    pub open spec fn wf(self) -> bool {
        &&& self.credential_info.wf()
        &&& self.schema_ref.wf()
    }
}

/// The current status of a credential, as the registry reports it.
#[derive(Clone, Copy, PartialEq, Eq, Structural, Debug)]
pub enum CredentialStatus {
    /// The credential is active.
    Active,
    /// The credential has been revoked.
    Revoked,
    /// The credential's validity has expired.
    Expired,
    /// The credential is not yet valid.
    NotActivated,
}

// ---------------------------------------------------------------------------
// Serialization: the exact bytes of each value on the wire.
// ---------------------------------------------------------------------------

/// A contract address on the wire: index, then subindex, little-endian.
pub open spec fn spec_ser_contract_address(a: ContractAddress) -> Seq<u8> {
    spec_u64_le(a.index.index) + spec_u64_le(a.subindex.sub_index)
}

/// An optional timestamp on the wire: a tag byte, then the milliseconds.
pub open spec fn spec_ser_opt_timestamp(t: Option<u64>) -> Seq<u8> {
    match t {
        None => seq![0u8],
        Some(millis) => seq![1u8] + spec_u64_le(millis),
    }
}

/// A metadata URL on the wire: 2-byte length, the URL bytes, then an
/// optional 32-byte hash behind a tag byte.
pub open spec fn spec_ser_metadata_url(m: MetadataUrlV) -> Seq<u8> {
    spec_u16_le(m.url.len() as u16) + m.url + match m.hash {
        None => seq![0u8],
        Some(h) => seq![1u8] + h,
    }
}

/// Credential info on the wire: holder id, revocability flag, the
/// commitment behind a 2-byte length, validity window, metadata URL — in
/// this order.
pub open spec fn spec_ser_credential_info(c: CredentialInfoV) -> Seq<u8> {
    c.holder_id + seq![if c.holder_revocable { 1u8 } else { 0u8 }] + spec_u16_le(
        c.commitment.len() as u16,
    ) + c.commitment + spec_u64_le(c.valid_from) + spec_ser_opt_timestamp(c.valid_until)
        + spec_ser_metadata_url(c.metadata_url)
}

/// A registry entry on the wire: credential info, schema URL, nonce.
pub open spec fn spec_ser_credential_entry(e: CredentialEntryV) -> Seq<u8> {
    spec_ser_credential_info(e.credential_info) + spec_ser_metadata_url(e.schema_ref)
        + spec_u64_le(e.revocation_nonce)
}

/// An optional revocation reason on the wire: a tag byte, then the text
/// behind a 1-byte length.
pub open spec fn spec_ser_opt_reason(r: Option<Seq<u8>>) -> Seq<u8> {
    match r {
        None => seq![0u8],
        Some(text) => seq![1u8, text.len() as u8] + text,
    }
}

/// Append a contract address.
pub fn write_contract_address(out: &mut Vec<u8>, a: &ContractAddress)
    ensures
        final(out)@ =~= old(out)@ + spec_ser_contract_address(*a),
{
    write_u64_le(out, a.index.index);
    write_u64_le(out, a.subindex.sub_index);
}

/// Append an optional timestamp.
pub fn write_opt_timestamp(out: &mut Vec<u8>, t: &Option<Timestamp>)
    ensures
        final(out)@ =~= old(out)@ + spec_ser_opt_timestamp(
            match t {
                Some(ts) => Some(ts.millis),
                None => None,
            },
        ),
{
    match t {
        None => write_u8(out, 0),
        Some(ts) => {
            write_u8(out, 1);
            write_u64_le(out, ts.millis);
        },
    }
}

/// Append a metadata URL.
pub fn write_metadata_url(out: &mut Vec<u8>, m: &MetadataUrl)
    requires
        m@.wf(),
    ensures
        final(out)@ =~= old(out)@ + spec_ser_metadata_url(m@),
{
    write_u16_le(out, m.url.len() as u16);
    write_bytes(out, &m.url);
    match &m.hash {
        None => write_u8(out, 0),
        Some(h) => {
            write_u8(out, 1);
            write_bytes(out, h);
        },
    }
}

/// Append credential info.
pub fn write_credential_info(out: &mut Vec<u8>, c: &CredentialInfo)
    requires
        c@.wf(),
    ensures
        final(out)@ =~= old(out)@ + spec_ser_credential_info(c@),
{
    write_bytes(out, &c.holder_id.bytes);
    if c.holder_revocable {
        write_u8(out, 1);
    } else {
        write_u8(out, 0);
    }
    write_u16_le(out, c.commitment.len() as u16);
    write_bytes(out, &c.commitment);
    write_u64_le(out, c.valid_from.millis);
    write_opt_timestamp(out, &c.valid_until);
    write_metadata_url(out, &c.metadata_url);
}

/// Append an optional revocation reason.
pub fn write_opt_reason(out: &mut Vec<u8>, r: &Option<Reason>)
    requires
        match r {
            Some(reason) => reason.wf(),
            None => true,
        },
    ensures
        final(out)@ =~= old(out)@ + spec_ser_opt_reason(
            match r {
                Some(reason) => Some(reason@),
                None => None,
            },
        ),
{
    match r {
        None => write_u8(out, 0),
        Some(reason) => {
            write_u8(out, 1);
            write_u8(out, reason.reason.len() as u8);
            write_bytes(out, &reason.reason);
        },
    }
}

// ---------------------------------------------------------------------------
// Parsing: the value that response bytes denote, stated as spec functions
// over the byte sequence, and executable readers that follow them.
// ---------------------------------------------------------------------------

/// Take `n` raw bytes.
pub open spec fn sp_take(s: Seq<u8>, pos: int, n: int) -> Option<(Seq<u8>, int)> {
    if 0 <= pos && 0 <= n && pos + n <= s.len() {
        Some((s.subrange(pos, pos + n), pos + n))
    } else {
        None
    }
}

/// Read one byte.
pub open spec fn sp_u8(s: Seq<u8>, pos: int) -> Option<(u8, int)> {
    if 0 <= pos && pos + 1 <= s.len() {
        Some((s[pos], pos + 1))
    } else {
        None
    }
}

/// Read a 16-bit little-endian value.
pub open spec fn sp_u16(s: Seq<u8>, pos: int) -> Option<(u16, int)> {
    if 0 <= pos && pos + 2 <= s.len() {
        Some((spec_u16_from(s.subrange(pos, pos + 2)), pos + 2))
    } else {
        None
    }
}

/// Read a 64-bit little-endian value.
pub open spec fn sp_u64(s: Seq<u8>, pos: int) -> Option<(u64, int)> {
    if 0 <= pos && pos + 8 <= s.len() {
        Some((spec_u64_from(s.subrange(pos, pos + 8)), pos + 8))
    } else {
        None
    }
}

/// Read a boolean: one byte that must be 0 or 1.
pub open spec fn sp_bool(s: Seq<u8>, pos: int) -> Option<(bool, int)> {
    match sp_u8(s, pos) {
        Some((0u8, p)) => Some((false, p)),
        Some((1u8, p)) => Some((true, p)),
        _ => None,
    }
}

/// Read an optional timestamp: a tag byte that must be 0 or 1, then the
/// milliseconds if the tag says so.
pub open spec fn sp_opt_u64(s: Seq<u8>, pos: int) -> Option<(Option<u64>, int)> {
    match sp_u8(s, pos) {
        Some((0u8, p)) => Some((None, p)),
        Some((1u8, p)) => match sp_u64(s, p) {
            Some((v, p2)) => Some((Some(v), p2)),
            None => None,
        },
        _ => None,
    }
}

/// Read a metadata URL.
pub open spec fn sp_metadata_url(s: Seq<u8>, pos: int) -> Option<(MetadataUrlV, int)> {
    match sp_u16(s, pos) {
        None => None,
        Some((len, p)) => match sp_take(s, p, len as int) {
            None => None,
            Some((url, p2)) => match sp_u8(s, p2) {
                Some((0u8, p3)) => Some((MetadataUrlV { url, hash: None }, p3)),
                Some((1u8, p3)) => match sp_take(s, p3, HASH_LEN as int) {
                    None => None,
                    Some((h, p4)) => Some((MetadataUrlV { url, hash: Some(h) }, p4)),
                },
                _ => None,
            },
        },
    }
}

/// Read credential info.
pub open spec fn sp_credential_info(s: Seq<u8>, pos: int) -> Option<(CredentialInfoV, int)> {
    match sp_take(s, pos, PUBLIC_KEY_LEN as int) {
        None => None,
        Some((holder_id, p)) => match sp_bool(s, p) {
            None => None,
            Some((holder_revocable, p2)) => match sp_u16(s, p2) {
                None => None,
                Some((commitment_len, pc)) => match sp_take(s, pc, commitment_len as int) {
                    None => None,
                    Some((commitment, pc2)) => match sp_u64(s, pc2) {
                        None => None,
                        Some((valid_from, p3)) => match sp_opt_u64(s, p3) {
                            None => None,
                            Some((valid_until, p4)) => match sp_metadata_url(s, p4) {
                                None => None,
                                Some((metadata_url, p5)) => Some(
                                    (
                                        CredentialInfoV {
                                            holder_id,
                                            holder_revocable,
                                            commitment,
                                            valid_from,
                                            valid_until,
                                            metadata_url,
                                        },
                                        p5,
                                    ),
                                ),
                            },
                        },
                    },
                },
            },
        },
    }
}

/// Read a registry entry.
pub open spec fn sp_credential_entry(s: Seq<u8>, pos: int) -> Option<(CredentialEntryV, int)> {
    match sp_credential_info(s, pos) {
        None => None,
        Some((credential_info, p)) => match sp_metadata_url(s, p) {
            None => None,
            Some((schema_ref, p2)) => match sp_u64(s, p2) {
                None => None,
                Some((revocation_nonce, p3)) => Some(
                    (CredentialEntryV { credential_info, schema_ref, revocation_nonce }, p3),
                ),
            },
        },
    }
}

/// Read a credential status: one tag byte in the order the registry
/// declares its variants.
pub open spec fn sp_status(s: Seq<u8>, pos: int) -> Option<(CredentialStatus, int)> {
    match sp_u8(s, pos) {
        Some((0u8, p)) => Some((CredentialStatus::Active, p)),
        Some((1u8, p)) => Some((CredentialStatus::Revoked, p)),
        Some((2u8, p)) => Some((CredentialStatus::Expired, p)),
        Some((3u8, p)) => Some((CredentialStatus::NotActivated, p)),
        _ => None,
    }
}

/// Read `count` revocation keys, each a 32-byte key and a nonce.
pub open spec fn sp_revocation_key_items(s: Seq<u8>, pos: int, count: nat) -> Option<
    (Seq<(Seq<u8>, u64)>, int),
>
    decreases count,
{
    if count == 0 {
        if 0 <= pos <= s.len() {
            Some((Seq::empty(), pos))
        } else {
            None
        }
    } else {
        match sp_take(s, pos, PUBLIC_KEY_LEN as int) {
            None => None,
            Some((key, p)) => match sp_u64(s, p) {
                None => None,
                Some((nonce, p2)) => match sp_revocation_key_items(s, p2, (count - 1) as nat) {
                    None => None,
                    Some((rest, p3)) => Some((seq![(key, nonce)] + rest, p3)),
                },
            },
        }
    }
}

/// Executable reader for a boolean.
fn parse_bool(input: &Vec<u8>, pos: usize) -> (r: Option<(bool, usize)>)
    requires
        pos <= input@.len(),
    ensures
        r is Some <==> sp_bool(input@, pos as int) is Some,
        r matches Some((v, p)) ==> sp_bool(input@, pos as int) == Some((v, p as int)),
{
    match crate::bytes::read_u8(input, pos) {
        None => None,
        Some((0u8, p)) => Some((false, p)),
        Some((1u8, p)) => Some((true, p)),
        Some(_) => None,
    }
}

/// Executable reader for an optional timestamp.
fn parse_opt_timestamp(input: &Vec<u8>, pos: usize) -> (r: Option<(Option<Timestamp>, usize)>)
    requires
        pos <= input@.len(),
    ensures
        r is Some <==> sp_opt_u64(input@, pos as int) is Some,
        r matches Some((v, p)) ==> sp_opt_u64(input@, pos as int) == Some(
            (
                match v {
                    Some(t) => Some(t.millis),
                    None => None,
                },
                p as int,
            ),
        ),
{
    match crate::bytes::read_u8(input, pos) {
        None => None,
        Some((0u8, p)) => Some((None, p)),
        Some((1u8, p)) => match crate::bytes::read_u64_le(input, p) {
            None => None,
            Some((v, p2)) => Some((Some(Timestamp { millis: v }), p2)),
        },
        Some(_) => None,
    }
}

/// Executable reader for a metadata URL.
pub fn parse_metadata_url(input: &Vec<u8>, pos: usize) -> (r: Option<(MetadataUrl, usize)>)
    requires
        pos <= input@.len(),
    ensures
        r is Some <==> sp_metadata_url(input@, pos as int) is Some,
        r matches Some((m, p)) ==> sp_metadata_url(input@, pos as int) == Some((m@, p as int))
            && m@.wf(),
{
    match crate::bytes::read_u16_le(input, pos) {
        None => None,
        Some((len, p)) => match crate::bytes::read_bytes(input, p, len as usize) {
            None => None,
            Some((url, p2)) => match crate::bytes::read_u8(input, p2) {
                None => None,
                Some((0u8, p3)) => Some((MetadataUrl { url, hash: None }, p3)),
                Some((1u8, p3)) => match crate::bytes::read_bytes(input, p3, HASH_LEN) {
                    None => None,
                    Some((h, p4)) => Some((MetadataUrl { url, hash: Some(h) }, p4)),
                },
                Some(_) => None,
            },
        },
    }
}

/// Executable reader for credential info.
pub fn parse_credential_info(input: &Vec<u8>, pos: usize) -> (r: Option<(CredentialInfo, usize)>)
    requires
        pos <= input@.len(),
    ensures
        r is Some <==> sp_credential_info(input@, pos as int) is Some,
        r matches Some((c, p)) ==> sp_credential_info(input@, pos as int) == Some((c@, p as int))
            && c@.wf(),
{
    match crate::bytes::read_bytes(input, pos, PUBLIC_KEY_LEN) {
        None => None,
        Some((holder, p)) => match parse_bool(input, p) {
            None => None,
            Some((holder_revocable, p2)) => match crate::bytes::read_u16_le(input, p2) {
                None => None,
                Some((commitment_len, pc)) => match crate::bytes::read_bytes(
                    input,
                    pc,
                    commitment_len as usize,
                ) {
                    None => None,
                    Some((commitment, pc2)) => match crate::bytes::read_u64_le(input, pc2) {
                        None => None,
                        Some((valid_from, p3)) => match parse_opt_timestamp(input, p3) {
                            None => None,
                            Some((valid_until, p4)) => match parse_metadata_url(input, p4) {
                                None => None,
                                Some((metadata_url, p5)) => Some(
                                    (
                                        CredentialInfo {
                                            holder_id: CredentialHolderId { bytes: holder },
                                            holder_revocable,
                                            commitment,
                                            valid_from: Timestamp { millis: valid_from },
                                            valid_until,
                                            metadata_url,
                                        },
                                        p5,
                                    ),
                                ),
                            },
                        },
                    },
                },
            },
        },
    }
}

/// Executable reader for a registry entry.
pub fn parse_credential_entry(input: &Vec<u8>, pos: usize) -> (r: Option<(CredentialEntry, usize)>)
    requires
        pos <= input@.len(),
    ensures
        r is Some <==> sp_credential_entry(input@, pos as int) is Some,
        r matches Some((e, p)) ==> sp_credential_entry(input@, pos as int) == Some((e@, p as int))
            && e@.wf(),
{
    match parse_credential_info(input, pos) {
        None => None,
        Some((credential_info, p)) => match parse_metadata_url(input, p) {
            None => None,
            Some((schema_ref, p2)) => match crate::bytes::read_u64_le(input, p2) {
                None => None,
                Some((revocation_nonce, p3)) => Some(
                    (CredentialEntry { credential_info, schema_ref, revocation_nonce }, p3),
                ),
            },
        },
    }
}

/// Executable reader for a credential status.
pub fn parse_status(input: &Vec<u8>, pos: usize) -> (r: Option<(CredentialStatus, usize)>)
    requires
        pos <= input@.len(),
    ensures
        r is Some <==> sp_status(input@, pos as int) is Some,
        r matches Some((v, p)) ==> sp_status(input@, pos as int) == Some((v, p as int)),
{
    match crate::bytes::read_u8(input, pos) {
        None => None,
        Some((0u8, p)) => Some((CredentialStatus::Active, p)),
        Some((1u8, p)) => Some((CredentialStatus::Revoked, p)),
        Some((2u8, p)) => Some((CredentialStatus::Expired, p)),
        Some((3u8, p)) => Some((CredentialStatus::NotActivated, p)),
        Some(_) => None,
    }
}

/// Executable reader for the revocation key list: a 4-byte count, then
/// that many key/nonce pairs.
pub fn parse_revocation_keys(input: &Vec<u8>, pos: usize) -> (r: Option<
    (Vec<RevocationKeyWithNonce>, usize),
>)
    requires
        pos <= input@.len(),
    ensures
        r is None <==> (match sp_u32(input@, pos as int) {
            None => true,
            Some((count, p1)) => sp_revocation_key_items(input@, p1, count as nat) is None,
        }),
        r matches Some((ks, p)) ==> {
            &&& sp_u32(input@, pos as int) matches Some((count, p1))
            &&& sp_revocation_key_items(input@, p1, count as nat) matches Some((items, p2))
            &&& p == p2
            &&& ks@.len() == items.len()
            &&& forall|i: int|
                0 <= i < items.len() ==> ks@[i].key@ =~= items[i].0 && ks@[i].nonce == items[i].1
            &&& forall|i: int| 0 <= i < items.len() ==> ks@[i].key.wf()
        },
{
    match crate::bytes::read_u32_le(input, pos) {
        None => None,
        Some((count, p1)) => {
            let mut ks: Vec<RevocationKeyWithNonce> = Vec::new();
            let mut p: usize = p1;
            let mut remaining: u32 = count;
            loop
                invariant
                    p <= input@.len(),
                    remaining <= count,
                    ks@.len() == count - remaining,
                    sp_u32(input@, pos as int) == Some((count, p1 as int)),
                    sp_revocation_key_items(input@, p1 as int, count as nat) is Some
                        <==> sp_revocation_key_items(input@, p as int, remaining as nat) is Some,
                    sp_revocation_key_items(input@, p1 as int, count as nat) matches Some(
                        (items, pend),
                    ) ==> {
                        &&& sp_revocation_key_items(input@, p as int, remaining as nat) matches
                            Some((rest, pend2))
                        &&& pend == pend2
                        &&& items.len() == ks@.len() + rest.len()
                        &&& items =~= ks@.map_values(
                            |k: RevocationKeyWithNonce| (k.key@, k.nonce),
                        ) + rest
                    },
                    forall|i: int| 0 <= i < ks@.len() ==> #[trigger] ks@[i].key.wf(),
                decreases remaining,
            {
                if remaining == 0 {
                    proof {
                        let items_opt = sp_revocation_key_items(
                            input@,
                            p1 as int,
                            count as nat,
                        );
                        assert(sp_revocation_key_items(input@, p as int, 0nat) == Some::<
                            (Seq<(Seq<u8>, u64)>, int),
                        >((Seq::empty(), p as int)));
                        assert(items_opt matches Some((items, pend)) ==> {
                            &&& items =~= ks@.map_values(
                                |k: RevocationKeyWithNonce| (k.key@, k.nonce),
                            )
                            &&& pend == p as int
                        });
                        assert(items_opt matches Some((items, pend)) ==> forall|i: int|
                            0 <= i < items.len() ==> ks@[i].key@ =~= items[i].0 && ks@[i].nonce
                                == items[i].1);
                    }
                    return Some((ks, p));
                }
                let key_bytes = match crate::bytes::read_bytes(input, p, PUBLIC_KEY_LEN) {
                    None => {
                        return None;
                    },
                    Some(x) => x,
                };
                let nonce = match crate::bytes::read_u64_le(input, key_bytes.1) {
                    None => {
                        return None;
                    },
                    Some(x) => x,
                };
                let ghost old_ks = ks@;
                ks.push(
                    RevocationKeyWithNonce {
                        key: RevocationKey { bytes: key_bytes.0 },
                        nonce: nonce.0,
                    },
                );
                p = nonce.1;
                remaining = remaining - 1;
                proof {
                    assert(ks@.map_values(|k: RevocationKeyWithNonce| (k.key@, k.nonce)) =~=
                        old_ks.map_values(|k: RevocationKeyWithNonce| (k.key@, k.nonce)) + seq![
                        (ks@.last().key@, ks@.last().nonce)]);
                }
            }
        },
    }
}

/// Read a 32-bit little-endian value.
pub open spec fn sp_u32(s: Seq<u8>, pos: int) -> Option<(u32, int)> {
    if 0 <= pos && pos + 4 <= s.len() {
        Some((crate::bytes::spec_u32_from(s.subrange(pos, pos + 4)), pos + 4))
    } else {
        None
    }
}

// ---------------------------------------------------------------------------
// Round trips: what was written is read back unchanged.
// ---------------------------------------------------------------------------

/// Bytes that are a concatenation split at the first part's length.
proof fn lemma_split_at(s: Seq<u8>, pos: int, a: Seq<u8>, b: Seq<u8>)
    requires
        0 <= pos,
        pos + a.len() + b.len() <= s.len(),
        s.subrange(pos, pos + a.len() + b.len()) =~= a + b,
    ensures
        s.subrange(pos, pos + a.len()) =~= a,
        s.subrange(pos + a.len(), pos + a.len() + b.len()) =~= b,
{
    let whole = s.subrange(pos, pos + a.len() + b.len());
    assert forall|i: int| 0 <= i < a.len() implies s.subrange(pos, pos + a.len())[i] == a[i] by {
        assert(whole[i] == (a + b)[i]);
    }
    assert forall|i: int|
        0 <= i < b.len() implies s.subrange(pos + a.len(), pos + a.len() + b.len())[i] == b[
        i] by {
        assert(whole[a.len() + i] == (a + b)[a.len() + i]);
    }
}

proof fn lemma_sp_u64_at(s: Seq<u8>, pos: int, v: u64)
    requires
        0 <= pos,
        pos + 8 <= s.len(),
        s.subrange(pos, pos + 8) =~= spec_u64_le(v),
    ensures
        sp_u64(s, pos) == Some((v, pos + 8)),
{
    crate::bytes::lemma_u64_round_trip(v);
}

proof fn lemma_sp_u16_at(s: Seq<u8>, pos: int, v: u16)
    requires
        0 <= pos,
        pos + 2 <= s.len(),
        s.subrange(pos, pos + 2) =~= spec_u16_le(v),
    ensures
        sp_u16(s, pos) == Some((v, pos + 2)),
{
    crate::bytes::lemma_u16_round_trip(v);
}

/// An optional timestamp written at `pos` is read back unchanged.
proof fn lemma_sp_opt_u64_at(s: Seq<u8>, pos: int, t: Option<u64>)
    requires
        0 <= pos,
        pos + spec_ser_opt_timestamp(t).len() <= s.len(),
        s.subrange(pos, pos + spec_ser_opt_timestamp(t).len()) =~= spec_ser_opt_timestamp(t),
    ensures
        sp_opt_u64(s, pos) == Some((t, pos + spec_ser_opt_timestamp(t).len())),
{
    let ser = spec_ser_opt_timestamp(t);
    match t {
        None => {
            assert(s[pos] == ser[0]);
        },
        Some(v) => {
            lemma_split_at(s, pos, seq![1u8], spec_u64_le(v));
            assert(s.subrange(pos, pos + 1)[0] == 1u8);
            assert(s[pos] == 1u8);
            lemma_sp_u64_at(s, pos + 1, v);
        },
    }
}

/// A metadata URL written at `pos` is read back unchanged.
proof fn lemma_sp_metadata_url_at(s: Seq<u8>, pos: int, m: MetadataUrlV)
    requires
        m.wf(),
        0 <= pos,
        pos + spec_ser_metadata_url(m).len() <= s.len(),
        s.subrange(pos, pos + spec_ser_metadata_url(m).len()) =~= spec_ser_metadata_url(m),
    ensures
        sp_metadata_url(s, pos) == Some((m, pos + spec_ser_metadata_url(m).len())),
{
    let tail = match m.hash {
        None => seq![0u8],
        Some(h) => seq![1u8] + h,
    };
    let ser = spec_ser_metadata_url(m);
    assert(ser =~= spec_u16_le(m.url.len() as u16) + (m.url + tail));
    lemma_split_at(s, pos, spec_u16_le(m.url.len() as u16), m.url + tail);
    lemma_sp_u16_at(s, pos, m.url.len() as u16);
    let p = pos + 2;
    lemma_split_at(s, p, m.url, tail);
    let p2 = p + m.url.len();
    match m.hash {
        None => {
            assert(s[p2] == tail[0]);
        },
        Some(h) => {
            lemma_split_at(s, p2, seq![1u8], h);
            assert(s.subrange(p2, p2 + 1)[0] == 1u8);
            assert(s[p2] == 1u8);
            assert(sp_take(s, p2 + 1, HASH_LEN as int) == Some((h, p2 + 1 + h.len())));
        },
    }
    assert(sp_metadata_url(s, pos) matches Some((got, _)) && got.url =~= m.url);
}

/// Credential info written at `pos` is read back unchanged.
#[verifier::rlimit(60)]
pub proof fn lemma_sp_credential_info_at(s: Seq<u8>, pos: int, c: CredentialInfoV)
    requires
        c.wf(),
        0 <= pos,
        pos + spec_ser_credential_info(c).len() <= s.len(),
        s.subrange(pos, pos + spec_ser_credential_info(c).len()) =~= spec_ser_credential_info(c),
    ensures
        sp_credential_info(s, pos) == Some((c, pos + spec_ser_credential_info(c).len())),
{
    let flag = seq![if c.holder_revocable { 1u8 } else { 0u8 }];
    let rest1 = flag + spec_u16_le(c.commitment.len() as u16) + c.commitment + spec_u64_le(
        c.valid_from,
    ) + spec_ser_opt_timestamp(c.valid_until) + spec_ser_metadata_url(c.metadata_url);
    assert(spec_ser_credential_info(c) =~= c.holder_id + rest1);
    lemma_split_at(s, pos, c.holder_id, rest1);
    let p = pos + c.holder_id.len();
    assert(sp_take(s, pos, PUBLIC_KEY_LEN as int) == Some((c.holder_id, p)));
    let rest2 = spec_u16_le(c.commitment.len() as u16) + c.commitment + spec_u64_le(c.valid_from)
        + spec_ser_opt_timestamp(c.valid_until) + spec_ser_metadata_url(c.metadata_url);
    assert(rest1 =~= flag + rest2);
    lemma_split_at(s, p, flag, rest2);
    assert(s[p] == flag[0]);
    let p2 = p + 1;
    let rest_c = c.commitment + spec_u64_le(c.valid_from) + spec_ser_opt_timestamp(c.valid_until)
        + spec_ser_metadata_url(c.metadata_url);
    assert(rest2 =~= spec_u16_le(c.commitment.len() as u16) + rest_c);
    lemma_split_at(s, p2, spec_u16_le(c.commitment.len() as u16), rest_c);
    lemma_sp_u16_at(s, p2, c.commitment.len() as u16);
    let pc = p2 + 2;
    let rest_c2 = spec_u64_le(c.valid_from) + spec_ser_opt_timestamp(c.valid_until)
        + spec_ser_metadata_url(c.metadata_url);
    assert(rest_c =~= c.commitment + rest_c2);
    lemma_split_at(s, pc, c.commitment, rest_c2);
    let pc2 = pc + c.commitment.len();
    assert(sp_take(s, pc, c.commitment.len() as int) == Some((c.commitment, pc2)));
    let rest3 = spec_ser_opt_timestamp(c.valid_until) + spec_ser_metadata_url(c.metadata_url);
    assert(rest_c2 =~= spec_u64_le(c.valid_from) + rest3);
    lemma_split_at(s, pc2, spec_u64_le(c.valid_from), rest3);
    lemma_sp_u64_at(s, pc2, c.valid_from);
    let p3 = pc2 + 8;
    lemma_split_at(
        s,
        p3,
        spec_ser_opt_timestamp(c.valid_until),
        spec_ser_metadata_url(c.metadata_url),
    );
    lemma_sp_opt_u64_at(s, p3, c.valid_until);
    let p4 = p3 + spec_ser_opt_timestamp(c.valid_until).len();
    lemma_sp_metadata_url_at(s, p4, c.metadata_url);
}

/// The register-credential parameter round-trips: composing credential
/// info with trailing data under the size bound and reading the buffer
/// back gives the info and the data unchanged. The other half of the
/// bound's story — that an oversized total is rejected with the exact
/// attempted size — is the contract of [`Cis4Contract::register_credential`]
/// and of [`crate::codec::compose_parameter`].
#[verifier::rlimit(100)]
pub proof fn lemma_register_parameter_round_trip(c: CredentialInfoV, data: Seq<u8>)
    requires
        c.wf(),
        spec_ser_credential_info(c).len() + data.len() + 2 <= MAX_PARAMETER_LEN,
    ensures
        ({
            let buffer = crate::codec::spec_with_trailer(spec_ser_credential_info(c), data);
            &&& sp_credential_info(buffer, 0) == Some(
                (c, spec_ser_credential_info(c).len() as int),
            )
            &&& buffer.subrange(spec_ser_credential_info(c).len() as int + 2, buffer.len() as int)
                =~= data
            &&& spec_u16_from(
                buffer.subrange(
                    spec_ser_credential_info(c).len() as int,
                    spec_ser_credential_info(c).len() as int + 2,
                ),
            ) == data.len()
        }),
{
    let ser = spec_ser_credential_info(c);
    let buffer = crate::codec::spec_with_trailer(ser, data);
    assert(buffer.subrange(0, ser.len() as int) =~= ser);
    lemma_sp_credential_info_at(buffer, 0, c);
    crate::codec::lemma_with_trailer_round_trip(ser, data);
    assert(buffer.subrange(ser.len() as int + 2, buffer.len() as int) =~= data);
}

/// A registry entry written at `pos` is read back unchanged.
pub proof fn lemma_sp_credential_entry_at(s: Seq<u8>, pos: int, e: CredentialEntryV)
    requires
        e.wf(),
        0 <= pos,
        pos + spec_ser_credential_entry(e).len() <= s.len(),
        s.subrange(pos, pos + spec_ser_credential_entry(e).len()) =~= spec_ser_credential_entry(e),
    ensures
        sp_credential_entry(s, pos) == Some((e, pos + spec_ser_credential_entry(e).len())),
{
    let rest1 = spec_ser_metadata_url(e.schema_ref) + spec_u64_le(e.revocation_nonce);
    assert(spec_ser_credential_entry(e) =~= spec_ser_credential_info(e.credential_info) + rest1);
    lemma_split_at(s, pos, spec_ser_credential_info(e.credential_info), rest1);
    lemma_sp_credential_info_at(s, pos, e.credential_info);
    let p = pos + spec_ser_credential_info(e.credential_info).len();
    lemma_split_at(s, p, spec_ser_metadata_url(e.schema_ref), spec_u64_le(e.revocation_nonce));
    lemma_sp_metadata_url_at(s, p, e.schema_ref);
    let p2 = p + spec_ser_metadata_url(e.schema_ref).len();
    lemma_sp_u64_at(s, p2, e.revocation_nonce);
}


// ---------------------------------------------------------------------------
// Entry point names and receive name validation.
// ---------------------------------------------------------------------------

/// The "credentialEntry" entry point name, as bytes.
pub open spec fn spec_ep_credential_entry() -> Seq<u8> {
    seq![99u8, 114, 101, 100, 101, 110, 116, 105, 97, 108, 69, 110, 116, 114, 121]
}

fn ep_credential_entry() -> (r: Vec<u8>)
    ensures
        r@ =~= spec_ep_credential_entry(),
{
    let v: Vec<u8> = vec![99,114,101,100,101,110,116,105,97,108,69,110,116,114,121];
    proof { assert(v@ =~= spec_ep_credential_entry()); }
    v
}

/// The "credentialStatus" entry point name, as bytes.
pub open spec fn spec_ep_credential_status() -> Seq<u8> {
    seq![99u8, 114, 101, 100, 101, 110, 116, 105, 97, 108, 83, 116, 97, 116, 117, 115]
}

fn ep_credential_status() -> (r: Vec<u8>)
    ensures
        r@ =~= spec_ep_credential_status(),
{
    let v: Vec<u8> = vec![99,114,101,100,101,110,116,105,97,108,83,116,97,116,117,115];
    proof { assert(v@ =~= spec_ep_credential_status()); }
    v
}

/// The "revocationKeys" entry point name, as bytes.
pub open spec fn spec_ep_revocation_keys() -> Seq<u8> {
    seq![114u8, 101, 118, 111, 99, 97, 116, 105, 111, 110, 75, 101, 121, 115]
}

fn ep_revocation_keys() -> (r: Vec<u8>)
    ensures
        r@ =~= spec_ep_revocation_keys(),
{
    let v: Vec<u8> = vec![114,101,118,111,99,97,116,105,111,110,75,101,121,115];
    proof { assert(v@ =~= spec_ep_revocation_keys()); }
    v
}

/// The "issuerMetadata" entry point name, as bytes.
pub open spec fn spec_ep_issuer_metadata() -> Seq<u8> {
    seq![105u8, 115, 115, 117, 101, 114, 77, 101, 116, 97, 100, 97, 116, 97]
}

fn ep_issuer_metadata() -> (r: Vec<u8>)
    ensures
        r@ =~= spec_ep_issuer_metadata(),
{
    let v: Vec<u8> = vec![105,115,115,117,101,114,77,101,116,97,100,97,116,97];
    proof { assert(v@ =~= spec_ep_issuer_metadata()); }
    v
}

/// The "issuer" entry point name, as bytes.
pub open spec fn spec_ep_issuer() -> Seq<u8> {
    seq![105u8, 115, 115, 117, 101, 114]
}

fn ep_issuer() -> (r: Vec<u8>)
    ensures
        r@ =~= spec_ep_issuer(),
{
    let v: Vec<u8> = vec![105,115,115,117,101,114];
    proof { assert(v@ =~= spec_ep_issuer()); }
    v
}

/// The "registerCredential" entry point name, as bytes.
pub open spec fn spec_ep_register_credential() -> Seq<u8> {
    seq![114u8, 101, 103, 105, 115, 116, 101, 114, 67, 114, 101, 100, 101, 110, 116, 105, 97, 108]
}

fn ep_register_credential() -> (r: Vec<u8>)
    ensures
        r@ =~= spec_ep_register_credential(),
{
    let v: Vec<u8> = vec![114,101,103,105,115,116,101,114,67,114,101,100,101,110,116,105,97,108];
    proof { assert(v@ =~= spec_ep_register_credential()); }
    v
}

/// The "revokeCredentialIssuer" entry point name, as bytes.
pub open spec fn spec_ep_revoke_credential_issuer() -> Seq<u8> {
    seq![114u8, 101, 118, 111, 107, 101, 67, 114, 101, 100, 101, 110, 116, 105, 97, 108, 73, 115, 115, 117, 101, 114]
}

fn ep_revoke_credential_issuer() -> (r: Vec<u8>)
    ensures
        r@ =~= spec_ep_revoke_credential_issuer(),
{
    let v: Vec<u8> = vec![114,101,118,111,107,101,67,114,101,100,101,110,116,105,97,108,73,115,115,117,101,114];
    proof { assert(v@ =~= spec_ep_revoke_credential_issuer()); }
    v
}

/// The "revokeCredentialHolder" entry point name, as bytes.
pub open spec fn spec_ep_revoke_credential_holder() -> Seq<u8> {
    seq![114u8, 101, 118, 111, 107, 101, 67, 114, 101, 100, 101, 110, 116, 105, 97, 108, 72, 111, 108, 100, 101, 114]
}

fn ep_revoke_credential_holder() -> (r: Vec<u8>)
    ensures
        r@ =~= spec_ep_revoke_credential_holder(),
{
    let v: Vec<u8> = vec![114,101,118,111,107,101,67,114,101,100,101,110,116,105,97,108,72,111,108,100,101,114];
    proof { assert(v@ =~= spec_ep_revoke_credential_holder()); }
    v
}

/// The domain separation tag of revocation messages: "WEB3ID:REVOKE".
pub open spec fn spec_revoke_domain() -> Seq<u8> {
    seq![87u8, 69, 66, 51, 73, 68, 58, 82, 69, 86, 79, 75, 69]
}

fn revoke_domain() -> (r: Vec<u8>)
    ensures
        r@ =~= spec_revoke_domain(),
{
    let v: Vec<u8> = vec![87,69,66,51,73,68,58,82,69,86,79,75,69];
    proof { assert(v@ =~= spec_revoke_domain()); }
    v
}

/// Maximum byte length of a receive name.
pub const MAX_RECEIVE_NAME_LEN: usize = 100;

/// Why a receive name is invalid.
#[derive(Clone, Copy, PartialEq, Eq, Structural, Debug)]
pub enum NewReceiveNameError {
    /// The name is missing the dot that separates contract from entry point.
    MissingDotSeparator,
    /// The name is longer than [`MAX_RECEIVE_NAME_LEN`] bytes.
    TooLong,
    /// A byte is not an ASCII alphanumeric or punctuation character.
    InvalidCharacters,
}

/// A byte allowed in a receive name: ASCII alphanumeric or punctuation,
/// which together are exactly the printable ASCII range without space.
pub open spec fn spec_valid_name_byte(b: u8) -> bool {
    0x21 <= b <= 0x7e
}

/// The outcome of validating a receive name: it must contain a dot, be no
/// longer than the limit, and hold only allowed bytes — checked in this
/// order.
pub open spec fn spec_check_receive_name(s: Seq<u8>) -> Result<(), NewReceiveNameError> {
    if !s.contains(0x2eu8) {
        Err(NewReceiveNameError::MissingDotSeparator)
    } else if s.len() > MAX_RECEIVE_NAME_LEN {
        Err(NewReceiveNameError::TooLong)
    } else if exists|i: int| 0 <= i < s.len() && !spec_valid_name_byte(#[trigger] s[i]) {
        Err(NewReceiveNameError::InvalidCharacters)
    } else {
        Ok(())
    }
}

/// Validate a receive name.
pub fn validate_receive_name(name: &Vec<u8>) -> (r: Result<(), NewReceiveNameError>)
    ensures
        r == spec_check_receive_name(name@),
{
    let mut has_dot = false;
    let mut i: usize = 0;
    while i < name.len()
        invariant
            i <= name@.len(),
            has_dot <==> exists|j: int| 0 <= j < i && name@[j] == 0x2eu8,
        decreases name@.len() - i,
    {
        if name[i] == 0x2e {
            has_dot = true;
        }
        i = i + 1;
    }
    if !has_dot {
        proof {
            assert(!name@.contains(0x2eu8));
        }
        return Err(NewReceiveNameError::MissingDotSeparator);
    }
    proof {
        let j = choose|j: int| 0 <= j < name@.len() && name@[j] == 0x2eu8;
        assert(name@.contains(0x2eu8));
    }
    if name.len() > MAX_RECEIVE_NAME_LEN {
        return Err(NewReceiveNameError::TooLong);
    }
    let mut k: usize = 0;
    while k < name.len()
        invariant
            k <= name@.len(),
            name@.contains(0x2eu8),
            name@.len() <= MAX_RECEIVE_NAME_LEN,
            forall|j: int| 0 <= j < k ==> spec_valid_name_byte(#[trigger] name@[j]),
        decreases name@.len() - k,
    {
        let b = name[k];
        if b < 0x21 || b > 0x7e {
            proof {
                assert(!spec_valid_name_byte(name@[k as int]));
            }
            return Err(NewReceiveNameError::InvalidCharacters);
        }
        k = k + 1;
    }
    Ok(())
}

/// A full receive name: the contract name, a dot, the entry point.
pub open spec fn spec_receive_name(contract_name: Seq<u8>, entrypoint: Seq<u8>) -> Seq<u8> {
    contract_name + seq![0x2eu8] + entrypoint
}

/// Build and validate the receive name of an entry point of this contract.
fn make_receive_name(contract_name: &Vec<u8>, entrypoint: &Vec<u8>) -> (r: Result<
    Vec<u8>,
    NewReceiveNameError,
>)
    ensures
        spec_check_receive_name(spec_receive_name(contract_name@, entrypoint@)) matches Err(e)
            ==> r == Err::<Vec<u8>, _>(e),
        spec_check_receive_name(spec_receive_name(contract_name@, entrypoint@)) is Ok ==> (
        r matches Ok(n) && n@ =~= spec_receive_name(contract_name@, entrypoint@)),
{
    let mut name: Vec<u8> = Vec::new();
    write_bytes(&mut name, contract_name);
    write_u8(&mut name, 0x2e);
    write_bytes(&mut name, entrypoint);
    proof {
        assert(name@ =~= spec_receive_name(contract_name@, entrypoint@));
    }
    match validate_receive_name(&name) {
        Ok(_) => Ok(name),
        Err(e) => Err(e),
    }
}

// ---------------------------------------------------------------------------
// Errors of the registry client.
// ---------------------------------------------------------------------------

/// Why the node rejected a contract invocation; carried through unchanged.
#[derive(Clone, Copy, PartialEq, Eq, Structural, Debug)]
pub struct RejectReason {
    /// The contract-defined rejection code.
    pub code: i32,
}

/// A transport-level failure of a remote call, as reported by the
/// chain-query collaborator.
#[derive(Clone, Debug)]
pub struct RpcError {
    /// A description of the failure.
    pub message: Vec<u8>,
}

/// An error of a registry query.
#[derive(Clone, Debug)]
pub enum Cis4QueryError {
    /// The smart contract receive name is invalid.
    InvalidReceiveName(NewReceiveNameError),
    /// A general RPC error occurred.
    RPCError(RpcError),
    /// The data returned from a query could not be parsed.
    ResponseParseError,
    /// The node rejected the invocation.
    NodeRejected(RejectReason),
}

/// An error of a registry update transaction.
#[derive(Clone, Debug)]
pub enum Cis4TransactionError {
    /// The smart contract receive name is invalid.
    InvalidReceiveName(NewReceiveNameError),
    /// The parameter is too large.
    InvalidParams(ExceedsParameterSize),
    /// A general RPC error occurred.
    RPCError(RpcError),
    /// The node rejected the invocation.
    NodeRejected(RejectReason),
}

// ---------------------------------------------------------------------------
// Transaction metadata and the signer capability.
// ---------------------------------------------------------------------------

/// A point in time for transaction expiry, in seconds since the epoch.
#[derive(Clone, Copy, PartialEq, Eq, Structural, Debug)]
pub struct TransactionTime {
    pub seconds: u64,
}

/// An amount of micro tokens.
#[derive(Clone, Copy, PartialEq, Eq, Structural, Debug)]
pub struct Amount {
    pub micro_ccd: u64,
}

/// Metadata that the submitter of a contract update transaction supplies.
#[derive(Clone, Debug)]
pub struct ContractTransactionMetadata {
    /// The account that sends and pays for the transaction.
    pub sender_address: AccountAddress,
    /// The account nonce to use.
    pub nonce: Nonce,
    /// When the transaction expires.
    pub expiry: TransactionTime,
    /// The energy allowed for its execution.
    pub energy: Energy,
    /// The amount of tokens to send along.
    pub amount: Amount,
}

/// Transaction metadata for registry update transactions.
pub type Cis4TransactionMetadata = ContractTransactionMetadata;

/// The capability to sign a revocation message and to name the signing
/// key: the holder's or a revoker's key, implemented by the key's owner.
pub trait Web3IdSigner {
    /// The signature this signer puts on a message.
    spec fn spec_signature(&self, msg: Seq<u8>) -> Seq<u8>;

    /// The public key of this signer.
    spec fn spec_id(&self) -> Seq<u8>;

    /// Sign a message.
    fn sign(&self, msg: &Vec<u8>) -> (r: Vec<u8>)
        ensures
            r@ == self.spec_signature(msg@),
    ;

    /// The id of the signing key.
    fn id(&self) -> (r: CredentialHolderId)
        ensures
            r@ == self.spec_id(),
            r.wf(),
    ;
}

/// The ed25519 signature that a secret key puts on a message. Signing is
/// deterministic, so the signature is a function of the key's bytes and
/// the message alone.
pub uninterp spec fn ed25519_signature(key: Seq<u8>, msg: Seq<u8>) -> Seq<u8>;

/// The ed25519 public key of a secret key: a function of its 32 bytes.
pub uninterp spec fn ed25519_public_key(key: Seq<u8>) -> Seq<u8>;

/// Relies on ed25519 signing, through concordium_base's re-export of the
/// signing key: deterministic in the key and the message. A key of 32
/// bytes never fails to load.
#[verifier::external_body]
fn ed25519_sign(key: &Vec<u8>, msg: &Vec<u8>) -> (r: Vec<u8>)
    requires
        key@.len() == 32,
    ensures
        r@ == ed25519_signature(key@, msg@),
{
    let key: [u8; 32] = key[..].try_into().expect("the caller fixes 32 bytes");
    let signing = concordium_base::ed25519::SigningKey::from_bytes(&key);
    concordium_base::web3id::Web3IdSigner::sign(&signing, msg).to_bytes().to_vec()
}

/// Relies on ed25519 key derivation, through concordium_base's re-export
/// of the signing key: the 32-byte public key of a 32-byte secret key.
#[verifier::external_body]
fn ed25519_derive_public(key: &Vec<u8>) -> (r: Vec<u8>)
    requires
        key@.len() == 32,
    ensures
        r@ == ed25519_public_key(key@),
        r@.len() == 32,
{
    let key: [u8; 32] = key[..].try_into().expect("the caller fixes 32 bytes");
    let signing = concordium_base::ed25519::SigningKey::from_bytes(&key);
    signing.verifying_key().to_bytes().to_vec()
}

/// A signer backed by an ed25519 secret key; it always holds 32 bytes.
pub struct Ed25519Signer {
    key: Vec<u8>,
}

impl Ed25519Signer {
    #[verifier::type_invariant]
    spec fn key_has_32_bytes(self) -> bool {
        self.key@.len() == 32
    }

    /// The 32 bytes of the secret key.
    pub closed spec fn spec_key(self) -> Seq<u8> {
        self.key@
    }

    /// A signer from the 32 bytes of an ed25519 secret key.
    pub fn new(key: Vec<u8>) -> (r: Option<Ed25519Signer>)
        ensures
            r is Some <==> key@.len() == 32,
            r matches Some(s) ==> s.spec_key() == key@,
    {
        if key.len() == 32 {
            Some(Ed25519Signer { key })
        } else {
            None
        }
    }
}

impl Web3IdSigner for Ed25519Signer {
    open spec fn spec_signature(&self, msg: Seq<u8>) -> Seq<u8> {
        ed25519_signature(self.spec_key(), msg)
    }

    open spec fn spec_id(&self) -> Seq<u8> {
        ed25519_public_key(self.spec_key())
    }

    fn sign(&self, msg: &Vec<u8>) -> (r: Vec<u8>) {
        proof {
            use_type_invariant(self);
        }
        ed25519_sign(&self.key, msg)
    }

    fn id(&self) -> (r: CredentialHolderId) {
        proof {
            use_type_invariant(self);
        }
        CredentialHolderId { bytes: ed25519_derive_public(&self.key) }
    }
}

// ---------------------------------------------------------------------------
// The revocation message: domain tag, credential id, contract address,
// nonce, expiry in milliseconds, optional revocation key, optional reason.
// ---------------------------------------------------------------------------

/// The transaction expiry in milliseconds: seconds times 1000, saturating
/// at the largest representable value instead of wrapping.
pub open spec fn spec_expiry_millis(expiry_seconds: u64) -> u64 {
    if expiry_seconds > u64::MAX / 1000 {
        u64::MAX
    } else {
        (expiry_seconds * 1000) as u64
    }
}

/// Compute the expiry in milliseconds, saturating on overflow.
pub fn expiry_millis(expiry_seconds: u64) -> (r: u64)
    ensures
        r == spec_expiry_millis(expiry_seconds),
{
    if expiry_seconds > u64::MAX / 1000 {
        u64::MAX
    } else {
        expiry_seconds * 1000
    }
}

/// The part of a revocation message that is both signed and transmitted:
/// credential id, contract address, nonce, expiry in milliseconds, the
/// revocation key on the revoker path, and the optional reason.
pub open spec fn spec_revocation_suffix(
    cred_id: Seq<u8>,
    address: ContractAddress,
    nonce: u64,
    expiry_millis: u64,
    key: Option<Seq<u8>>,
    reason: Option<Seq<u8>>,
) -> Seq<u8> {
    cred_id + spec_ser_contract_address(address) + spec_u64_le(nonce) + spec_u64_le(expiry_millis)
        + (match key {
        None => Seq::<u8>::empty(),
        Some(k) => k,
    }) + spec_ser_opt_reason(reason)
}

/// The full message to sign: the domain separation tag, then the suffix.
/// The tag is signed but never transmitted; it binds the signature to this
/// protocol so it cannot authorize anything else.
pub open spec fn spec_revocation_message(
    cred_id: Seq<u8>,
    address: ContractAddress,
    nonce: u64,
    expiry_millis: u64,
    key: Option<Seq<u8>>,
    reason: Option<Seq<u8>>,
) -> Seq<u8> {
    spec_revoke_domain() + spec_revocation_suffix(cred_id, address, nonce, expiry_millis, key, reason)
}

/// Building a revocation message is deterministic: the same domain tag,
/// credential id, contract address, nonce, expiry, key and reason give the
/// byte-identical buffer, on every call.
pub proof fn lemma_revocation_message_deterministic(
    cred_id1: Seq<u8>,
    address1: ContractAddress,
    nonce1: u64,
    expiry_millis1: u64,
    key1: Option<Seq<u8>>,
    reason1: Option<Seq<u8>>,
    cred_id2: Seq<u8>,
    address2: ContractAddress,
    nonce2: u64,
    expiry_millis2: u64,
    key2: Option<Seq<u8>>,
    reason2: Option<Seq<u8>>,
)
    requires
        cred_id1 == cred_id2,
        address1 == address2,
        nonce1 == nonce2,
        expiry_millis1 == expiry_millis2,
        key1 == key2,
        reason1 == reason2,
    ensures
        spec_revocation_message(cred_id1, address1, nonce1, expiry_millis1, key1, reason1)
            == spec_revocation_message(cred_id2, address2, nonce2, expiry_millis2, key2, reason2),
{
}

/// Build the suffix of a revocation message.
fn build_revocation_suffix(
    cred_id: &CredentialHolderId,
    address: &ContractAddress,
    nonce: u64,
    expiry_millis: u64,
    key: Option<&RevocationKey>,
    reason: &Option<Reason>,
) -> (r: Vec<u8>)
    requires
        match reason {
            Some(t) => t.wf(),
            None => true,
        },
    ensures
        r@ =~= spec_revocation_suffix(
            cred_id@,
            *address,
            nonce,
            expiry_millis,
            match key {
                Some(k) => Some(k@),
                None => None,
            },
            match reason {
                Some(t) => Some(t@),
                None => None,
            },
        ),
{
    let mut out: Vec<u8> = Vec::new();
    write_bytes(&mut out, &cred_id.bytes);
    write_contract_address(&mut out, address);
    write_u64_le(&mut out, nonce);
    write_u64_le(&mut out, expiry_millis);
    match key {
        None => (),
        Some(k) => write_bytes(&mut out, &k.bytes),
    }
    write_opt_reason(&mut out, reason);
    out
}

/// Build the exact buffer that the holder or revoker must sign.
pub fn build_revocation_message(
    cred_id: &CredentialHolderId,
    address: &ContractAddress,
    nonce: u64,
    expiry_millis: u64,
    key: Option<&RevocationKey>,
    reason: &Option<Reason>,
) -> (r: Vec<u8>)
    requires
        match reason {
            Some(t) => t.wf(),
            None => true,
        },
    ensures
        r@ =~= spec_revocation_message(
            cred_id@,
            *address,
            nonce,
            expiry_millis,
            match key {
                Some(k) => Some(k@),
                None => None,
            },
            match reason {
                Some(t) => Some(t@),
                None => None,
            },
        ),
{
    let mut out = revoke_domain();
    let suffix = build_revocation_suffix(cred_id, address, nonce, expiry_millis, key, reason);
    write_bytes(&mut out, &suffix);
    out
}

// ---------------------------------------------------------------------------
// The registry contract client: one on-chain credential registry instance.
// ---------------------------------------------------------------------------

/// A query ready to run against the chain: the receive name to view, and
/// the parameter to pass.
#[derive(Clone, Debug)]
pub struct ContractViewRequest {
    pub receive_name: Vec<u8>,
    pub parameter: OwnedParameter,
}

/// An update transaction ready to submit: the receive name to call, and
/// the parameter to pass.
#[derive(Clone, Debug)]
pub struct ContractUpdateRequest {
    pub receive_name: Vec<u8>,
    pub parameter: OwnedParameter,
}

/// A client of one credential registry contract instance, identified by
/// its address and the contract's name. It builds the exact requests to
/// run and decides on the exact bytes that come back; running them is the
/// caller's task.
#[derive(Clone, Debug)]
pub struct Cis4Contract {
    /// The address of the registry instance.
    pub address: ContractAddress,
    /// The contract's name, without the dot or an entry point.
    pub contract_name: Vec<u8>,
}

impl Cis4Contract {
    /// A client for the registry at the given address, under the given
    /// contract name.
    pub fn new(address: ContractAddress, contract_name: Vec<u8>) -> (r: Cis4Contract)
        ensures
            r.address == address,
            r.contract_name@ =~= contract_name@,
    {
        Cis4Contract { address, contract_name }
    }

    /// The query that looks an entry up in the registry by its id: the
    /// parameter is exactly the holder id's bytes.
    pub fn credential_entry(&self, cred_id: &CredentialHolderId) -> (r: Result<
        ContractViewRequest,
        Cis4QueryError,
    >)
        requires
            cred_id.wf(),
        ensures
            spec_check_receive_name(
                spec_receive_name(self.contract_name@, spec_ep_credential_entry()),
            ) matches Err(e) ==> r == Err::<ContractViewRequest, _>(
                Cis4QueryError::InvalidReceiveName(e),
            ),
            spec_check_receive_name(
                spec_receive_name(self.contract_name@, spec_ep_credential_entry()),
            ) is Ok ==> (r matches Ok(q) && q.receive_name@ =~= spec_receive_name(
                self.contract_name@,
                spec_ep_credential_entry(),
            ) && q.parameter.spec_bytes() =~= cred_id@),
    {
        let name = match make_receive_name(&self.contract_name, &ep_credential_entry()) {
            Err(e) => {
                return Err(Cis4QueryError::InvalidReceiveName(e));
            },
            Ok(n) => n,
        };
        let mut bytes: Vec<u8> = Vec::new();
        write_bytes(&mut bytes, &cred_id.bytes);
        let parameter = match OwnedParameter::try_from(bytes) {
            Ok(p) => p,
            Err(_) => {
                proof {
                    assert(false);
                }
                OwnedParameter::empty()
            },
        };
        Ok(ContractViewRequest { receive_name: name, parameter })
    }

    /// The query that looks the status of a credential up by its id.
    pub fn credential_status(&self, cred_id: &CredentialHolderId) -> (r: Result<
        ContractViewRequest,
        Cis4QueryError,
    >)
        requires
            cred_id.wf(),
        ensures
            spec_check_receive_name(
                spec_receive_name(self.contract_name@, spec_ep_credential_status()),
            ) matches Err(e) ==> r == Err::<ContractViewRequest, _>(
                Cis4QueryError::InvalidReceiveName(e),
            ),
            spec_check_receive_name(
                spec_receive_name(self.contract_name@, spec_ep_credential_status()),
            ) is Ok ==> (r matches Ok(q) && q.receive_name@ =~= spec_receive_name(
                self.contract_name@,
                spec_ep_credential_status(),
            ) && q.parameter.spec_bytes() =~= cred_id@),
    {
        let name = match make_receive_name(&self.contract_name, &ep_credential_status()) {
            Err(e) => {
                return Err(Cis4QueryError::InvalidReceiveName(e));
            },
            Ok(n) => n,
        };
        let mut bytes: Vec<u8> = Vec::new();
        write_bytes(&mut bytes, &cred_id.bytes);
        let parameter = match OwnedParameter::try_from(bytes) {
            Ok(p) => p,
            Err(_) => {
                proof {
                    assert(false);
                }
                OwnedParameter::empty()
            },
        };
        Ok(ContractViewRequest { receive_name: name, parameter })
    }

    /// The query for the list of revocation keys with their nonces: an
    /// empty parameter.
    pub fn revocation_keys(&self) -> (r: Result<ContractViewRequest, Cis4QueryError>)
        ensures
            spec_check_receive_name(
                spec_receive_name(self.contract_name@, spec_ep_revocation_keys()),
            ) matches Err(e) ==> r == Err::<ContractViewRequest, _>(
                Cis4QueryError::InvalidReceiveName(e),
            ),
            spec_check_receive_name(
                spec_receive_name(self.contract_name@, spec_ep_revocation_keys()),
            ) is Ok ==> (r matches Ok(q) && q.receive_name@ =~= spec_receive_name(
                self.contract_name@,
                spec_ep_revocation_keys(),
            ) && q.parameter.spec_bytes() =~= Seq::<u8>::empty()),
    {
        let name = match make_receive_name(&self.contract_name, &ep_revocation_keys()) {
            Err(e) => {
                return Err(Cis4QueryError::InvalidReceiveName(e));
            },
            Ok(n) => n,
        };
        Ok(ContractViewRequest { receive_name: name, parameter: OwnedParameter::empty() })
    }

    /// The query for the issuer's metadata URL: an empty parameter.
    pub fn issuer_metadata(&self) -> (r: Result<ContractViewRequest, Cis4QueryError>)
        ensures
            spec_check_receive_name(
                spec_receive_name(self.contract_name@, spec_ep_issuer_metadata()),
            ) matches Err(e) ==> r == Err::<ContractViewRequest, _>(
                Cis4QueryError::InvalidReceiveName(e),
            ),
            spec_check_receive_name(
                spec_receive_name(self.contract_name@, spec_ep_issuer_metadata()),
            ) is Ok ==> (r matches Ok(q) && q.receive_name@ =~= spec_receive_name(
                self.contract_name@,
                spec_ep_issuer_metadata(),
            ) && q.parameter.spec_bytes() =~= Seq::<u8>::empty()),
    {
        let name = match make_receive_name(&self.contract_name, &ep_issuer_metadata()) {
            Err(e) => {
                return Err(Cis4QueryError::InvalidReceiveName(e));
            },
            Ok(n) => n,
        };
        Ok(ContractViewRequest { receive_name: name, parameter: OwnedParameter::empty() })
    }

    /// The query for the issuer's account address: an empty parameter.
    pub fn issuer_address(&self) -> (r: Result<ContractViewRequest, Cis4QueryError>)
        ensures
            spec_check_receive_name(spec_receive_name(self.contract_name@, spec_ep_issuer()))
                matches Err(e) ==> r == Err::<ContractViewRequest, _>(
                Cis4QueryError::InvalidReceiveName(e),
            ),
            spec_check_receive_name(spec_receive_name(self.contract_name@, spec_ep_issuer()))
                is Ok ==> (r matches Ok(q) && q.receive_name@ =~= spec_receive_name(
                self.contract_name@,
                spec_ep_issuer(),
            ) && q.parameter.spec_bytes() =~= Seq::<u8>::empty()),
    {
        let name = match make_receive_name(&self.contract_name, &ep_issuer()) {
            Err(e) => {
                return Err(Cis4QueryError::InvalidReceiveName(e));
            },
            Ok(n) => n,
        };
        Ok(ContractViewRequest { receive_name: name, parameter: OwnedParameter::empty() })
    }

    /// The update that registers a new credential. The parameter is the
    /// credential info, then the additional data behind a 2-byte length.
    /// If info, data and prefix together would exceed the parameter size
    /// limit, the exact total and the limit are reported and no request is
    /// built — so nothing can be signed or submitted on that path.
    pub fn register_credential(
        &self,
        cred_info: &CredentialInfo,
        additional_data: &Vec<u8>,
    ) -> (r: Result<ContractUpdateRequest, Cis4TransactionError>)
        requires
            cred_info@.wf(),
            spec_ser_credential_info(cred_info@).len() + additional_data@.len() + 2 <= usize::MAX,
        ensures
            spec_ser_credential_info(cred_info@).len() + additional_data@.len() + 2
                > MAX_PARAMETER_LEN ==> r == Err::<ContractUpdateRequest, _>(
                Cis4TransactionError::InvalidParams(
                    ExceedsParameterSize {
                        actual: (spec_ser_credential_info(cred_info@).len()
                            + additional_data@.len() + 2) as usize,
                        max: MAX_PARAMETER_LEN,
                    },
                ),
            ),
            spec_ser_credential_info(cred_info@).len() + additional_data@.len() + 2
                <= MAX_PARAMETER_LEN ==> (spec_check_receive_name(
                spec_receive_name(self.contract_name@, spec_ep_register_credential()),
            ) matches Err(e) ==> r == Err::<ContractUpdateRequest, _>(
                Cis4TransactionError::InvalidReceiveName(e),
            )),
            spec_ser_credential_info(cred_info@).len() + additional_data@.len() + 2
                <= MAX_PARAMETER_LEN && spec_check_receive_name(
                spec_receive_name(self.contract_name@, spec_ep_register_credential()),
            ) is Ok ==> (r matches Ok(q) && q.receive_name@ =~= spec_receive_name(
                self.contract_name@,
                spec_ep_register_credential(),
            ) && q.parameter.spec_bytes() =~= crate::codec::spec_with_trailer(
                spec_ser_credential_info(cred_info@),
                additional_data@,
            )),
    {
        let mut payload: Vec<u8> = Vec::new();
        write_credential_info(&mut payload, cred_info);
        let parameter = match crate::codec::compose_parameter(&payload, additional_data) {
            Err(e) => {
                return Err(Cis4TransactionError::InvalidParams(e));
            },
            Ok(p) => p,
        };
        let name = match make_receive_name(&self.contract_name, &ep_register_credential()) {
            Err(e) => {
                return Err(Cis4TransactionError::InvalidReceiveName(e));
            },
            Ok(n) => n,
        };
        Ok(ContractUpdateRequest { receive_name: name, parameter })
    }

    /// The update that revokes a credential as the issuer: the parameter
    /// is the credential id, then the optional reason. No signed message
    /// is involved; the issuer's authority is the transaction itself.
    pub fn revoke_credential_as_issuer(
        &self,
        cred_id: &CredentialHolderId,
        reason: &Option<Reason>,
    ) -> (r: Result<ContractUpdateRequest, Cis4TransactionError>)
        requires
            cred_id.wf(),
            match reason {
                Some(t) => t.wf(),
                None => true,
            },
        ensures
            spec_check_receive_name(
                spec_receive_name(self.contract_name@, spec_ep_revoke_credential_issuer()),
            ) matches Err(e) ==> r == Err::<ContractUpdateRequest, _>(
                Cis4TransactionError::InvalidReceiveName(e),
            ),
            spec_check_receive_name(
                spec_receive_name(self.contract_name@, spec_ep_revoke_credential_issuer()),
            ) is Ok ==> (r matches Ok(q) && q.receive_name@ =~= spec_receive_name(
                self.contract_name@,
                spec_ep_revoke_credential_issuer(),
            ) && q.parameter.spec_bytes() =~= cred_id@ + spec_ser_opt_reason(
                match reason {
                    Some(t) => Some(t@),
                    None => None,
                },
            )),
    {
        let mut bytes: Vec<u8> = Vec::new();
        write_bytes(&mut bytes, &cred_id.bytes);
        write_opt_reason(&mut bytes, reason);
        let parameter = match OwnedParameter::try_from(bytes) {
            Ok(p) => p,
            Err(_) => {
                proof {
                    assert(false);
                }
                OwnedParameter::empty()
            },
        };
        let name = match make_receive_name(&self.contract_name, &ep_revoke_credential_issuer()) {
            Err(e) => {
                return Err(Cis4TransactionError::InvalidReceiveName(e));
            },
            Ok(n) => n,
        };
        Ok(ContractUpdateRequest { receive_name: name, parameter })
    }

    /// The update that revokes a credential as its holder. The message —
    /// domain tag, the signer's own id, this contract's address, the given
    /// nonce, the expiry of the transaction in milliseconds, the optional
    /// reason — is signed by the holder's key; the parameter is the
    /// signature followed by the same message without the domain tag.
    pub fn revoke_credential_as_holder<S: Web3IdSigner>(
        &self,
        metadata: &Cis4TransactionMetadata,
        web3signer: &S,
        nonce: u64,
        reason: &Option<Reason>,
    ) -> (r: Result<ContractUpdateRequest, Cis4TransactionError>)
        requires
            match reason {
                Some(t) => t.wf(),
                None => true,
            },
        ensures
            ({
                let suffix = spec_revocation_suffix(
                    web3signer.spec_id(),
                    self.address,
                    nonce,
                    spec_expiry_millis(metadata.expiry.seconds),
                    None,
                    match reason {
                        Some(t) => Some(t@),
                        None => None,
                    },
                );
                let sig = web3signer.spec_signature(
                    spec_revoke_domain() + suffix,
                );
                &&& (sig + suffix).len() > MAX_PARAMETER_LEN ==> r == Err::<
                    ContractUpdateRequest,
                    _,
                >(
                    Cis4TransactionError::InvalidParams(
                        ExceedsParameterSize {
                            actual: (sig + suffix).len() as usize,
                            max: MAX_PARAMETER_LEN,
                        },
                    ),
                )
                &&& (sig + suffix).len() <= MAX_PARAMETER_LEN ==> (spec_check_receive_name(
                    spec_receive_name(self.contract_name@, spec_ep_revoke_credential_holder()),
                ) matches Err(e) ==> r == Err::<ContractUpdateRequest, _>(
                    Cis4TransactionError::InvalidReceiveName(e),
                ))
                &&& (sig + suffix).len() <= MAX_PARAMETER_LEN && spec_check_receive_name(
                    spec_receive_name(self.contract_name@, spec_ep_revoke_credential_holder()),
                ) is Ok ==> (r matches Ok(q) && q.receive_name@ =~= spec_receive_name(
                    self.contract_name@,
                    spec_ep_revoke_credential_holder(),
                ) && q.parameter.spec_bytes() =~= sig + suffix)
            }),
    {
        let cred_id = web3signer.id();
        let expiry = expiry_millis(metadata.expiry.seconds);
        let suffix = build_revocation_suffix(
            &cred_id,
            &self.address,
            nonce,
            expiry,
            None,
            reason,
        );
        let mut to_sign = revoke_domain();
        write_bytes(&mut to_sign, &suffix);
        let sig = web3signer.sign(&to_sign);
        let mut parameter_vec = sig;
        write_bytes(&mut parameter_vec, &suffix);
        let parameter = match OwnedParameter::try_from(parameter_vec) {
            Err(e) => {
                return Err(Cis4TransactionError::InvalidParams(e));
            },
            Ok(p) => p,
        };
        let name = match make_receive_name(&self.contract_name, &ep_revoke_credential_holder()) {
            Err(e) => {
                return Err(Cis4TransactionError::InvalidReceiveName(e));
            },
            Ok(n) => n,
        };
        Ok(ContractUpdateRequest { receive_name: name, parameter })
    }

    /// The update that revokes a credential as a registered revoker. The
    /// signed message additionally names the revocation key, between the
    /// expiry and the reason; the credential id is given, not the
    /// signer's own id.
    pub fn revoke_credential_as_revoker<S: Web3IdSigner>(
        &self,
        metadata: &Cis4TransactionMetadata,
        web3signer: &S,
        nonce: u64,
        key: &RevocationKey,
        cred_id: &CredentialHolderId,
        reason: &Option<Reason>,
    ) -> (r: Result<ContractUpdateRequest, Cis4TransactionError>)
        requires
            cred_id.wf(),
            key.wf(),
            match reason {
                Some(t) => t.wf(),
                None => true,
            },
        ensures
            ({
                let suffix = spec_revocation_suffix(
                    cred_id@,
                    self.address,
                    nonce,
                    spec_expiry_millis(metadata.expiry.seconds),
                    Some(key@),
                    match reason {
                        Some(t) => Some(t@),
                        None => None,
                    },
                );
                let sig = web3signer.spec_signature(
                    spec_revoke_domain() + suffix,
                );
                &&& (sig + suffix).len() > MAX_PARAMETER_LEN ==> r == Err::<
                    ContractUpdateRequest,
                    _,
                >(
                    Cis4TransactionError::InvalidParams(
                        ExceedsParameterSize {
                            actual: (sig + suffix).len() as usize,
                            max: MAX_PARAMETER_LEN,
                        },
                    ),
                )
                &&& (sig + suffix).len() <= MAX_PARAMETER_LEN ==> (spec_check_receive_name(
                    spec_receive_name(self.contract_name@, spec_ep_revoke_credential_holder()),
                ) matches Err(e) ==> r == Err::<ContractUpdateRequest, _>(
                    Cis4TransactionError::InvalidReceiveName(e),
                ))
                &&& (sig + suffix).len() <= MAX_PARAMETER_LEN && spec_check_receive_name(
                    spec_receive_name(self.contract_name@, spec_ep_revoke_credential_holder()),
                ) is Ok ==> (r matches Ok(q) && q.receive_name@ =~= spec_receive_name(
                    self.contract_name@,
                    spec_ep_revoke_credential_holder(),
                ) && q.parameter.spec_bytes() =~= sig + suffix)
            }),
    {
        let expiry = expiry_millis(metadata.expiry.seconds);
        let suffix = build_revocation_suffix(
            cred_id,
            &self.address,
            nonce,
            expiry,
            Some(key),
            reason,
        );
        let mut to_sign = revoke_domain();
        write_bytes(&mut to_sign, &suffix);
        let sig = web3signer.sign(&to_sign);
        let mut parameter_vec = sig;
        write_bytes(&mut parameter_vec, &suffix);
        let parameter = match OwnedParameter::try_from(parameter_vec) {
            Err(e) => {
                return Err(Cis4TransactionError::InvalidParams(e));
            },
            Ok(p) => p,
        };
        let name = match make_receive_name(&self.contract_name, &ep_revoke_credential_holder()) {
            Err(e) => {
                return Err(Cis4TransactionError::InvalidReceiveName(e));
            },
            Ok(n) => n,
        };
        Ok(ContractUpdateRequest { receive_name: name, parameter })
    }
}

// ---------------------------------------------------------------------------
// Response decoding, one function per response type. Bytes after the
// decoded value are ignored, as the chain's own readers ignore them.
// ---------------------------------------------------------------------------

/// Decode the response of the credential entry query.
pub fn parse_credential_entry_response(bytes: &Vec<u8>) -> (r: Result<
    CredentialEntry,
    Cis4QueryError,
>)
    ensures
        sp_credential_entry(bytes@, 0) matches Some((e, _)) ==> (r matches Ok(entry) && entry@
            == e && entry@.wf()),
        sp_credential_entry(bytes@, 0) is None ==> r == Err::<CredentialEntry, _>(
            Cis4QueryError::ResponseParseError,
        ),
{
    match parse_credential_entry(bytes, 0) {
        Some((e, _)) => Ok(e),
        None => Err(Cis4QueryError::ResponseParseError),
    }
}

/// Decode the response of the credential status query.
pub fn parse_credential_status_response(bytes: &Vec<u8>) -> (r: Result<
    CredentialStatus,
    Cis4QueryError,
>)
    ensures
        sp_status(bytes@, 0) matches Some((s, _)) ==> r == Ok::<_, Cis4QueryError>(s),
        sp_status(bytes@, 0) is None ==> r == Err::<CredentialStatus, _>(
            Cis4QueryError::ResponseParseError,
        ),
{
    match parse_status(bytes, 0) {
        Some((s, _)) => Ok(s),
        None => Err(Cis4QueryError::ResponseParseError),
    }
}

/// Decode the response of the revocation keys query.
pub fn parse_revocation_keys_response(bytes: &Vec<u8>) -> (r: Result<
    Vec<RevocationKeyWithNonce>,
    Cis4QueryError,
>)
    ensures
        r is Err <==> (match sp_u32(bytes@, 0) {
            None => true,
            Some((count, p1)) => sp_revocation_key_items(bytes@, p1, count as nat) is None,
        }),
        r is Err ==> r == Err::<Vec<RevocationKeyWithNonce>, _>(
            Cis4QueryError::ResponseParseError,
        ),
        r matches Ok(ks) ==> {
            &&& sp_u32(bytes@, 0) matches Some((count, p1))
            &&& sp_revocation_key_items(bytes@, p1, count as nat) matches Some((items, _))
            &&& ks@.len() == items.len()
            &&& forall|i: int|
                0 <= i < items.len() ==> ks@[i].key@ =~= items[i].0 && ks@[i].nonce == items[i].1
        },
{
    match parse_revocation_keys(bytes, 0) {
        Some((ks, _)) => Ok(ks),
        None => Err(Cis4QueryError::ResponseParseError),
    }
}

/// Decode the response of the issuer metadata query.
pub fn parse_issuer_metadata_response(bytes: &Vec<u8>) -> (r: Result<MetadataUrl, Cis4QueryError>)
    ensures
        sp_metadata_url(bytes@, 0) matches Some((m, _)) ==> (r matches Ok(url) && url@ == m
            && url@.wf()),
        sp_metadata_url(bytes@, 0) is None ==> r == Err::<MetadataUrl, _>(
            Cis4QueryError::ResponseParseError,
        ),
{
    match parse_metadata_url(bytes, 0) {
        Some((m, _)) => Ok(m),
        None => Err(Cis4QueryError::ResponseParseError),
    }
}

/// Decode the response of the issuer address query: 32 raw bytes.
pub fn parse_issuer_address_response(bytes: &Vec<u8>) -> (r: Result<AccountAddress, Cis4QueryError>)
    ensures
        bytes@.len() >= 32 ==> (r matches Ok(a) && a@ =~= bytes@.subrange(0, 32) && a.wf()),
        bytes@.len() < 32 ==> r == Err::<AccountAddress, _>(Cis4QueryError::ResponseParseError),
{
    match crate::bytes::read_bytes(bytes, 0, 32) {
        Some((b, _)) => Ok(AccountAddress { bytes: b }),
        None => Err(Cis4QueryError::ResponseParseError),
    }
}

} // verus!
