//! Bounded parameter codec: composes the byte buffer of a contract call
//! parameter — fixed-width fields first, then a 2-byte little-endian length
//! prefix, then the trailing bytes — and enforces the platform-wide
//! parameter size limit.

use vstd::prelude::*;
use crate::bytes::{
    spec_u16_le, spec_u16_from, write_u16_le, write_bytes, read_u16_le, read_bytes,
    lemma_u16_round_trip,
};

verus! {

/// Maximum allowed length in bytes of a smart contract parameter.
pub const MAX_PARAMETER_LEN: usize = 65535;

/// The composed parameter would be larger than the chain accepts.
#[derive(Clone, Copy, PartialEq, Eq, Structural, Debug)]
pub struct ExceedsParameterSize {
    /// The attempted total size.
    pub actual: usize,
    /// The configured maximum.
    pub max: usize,
}

/// A parameter of a contract call; never longer than [`MAX_PARAMETER_LEN`].
#[derive(Clone, Debug)]
pub struct OwnedParameter {
    bytes: Vec<u8>,
}

impl OwnedParameter {
    /// The raw bytes of the parameter.
    pub closed spec fn spec_bytes(self) -> Seq<u8> {
        self.bytes@
    }

    /// Every value of this type respects the size limit.
    pub open spec fn wf(self) -> bool {
        self.spec_bytes().len() <= MAX_PARAMETER_LEN
    }

    /// The empty parameter.
    pub fn empty() -> (r: OwnedParameter)
        ensures
            r.spec_bytes() =~= Seq::<u8>::empty(),
            r.wf(),
    {
        OwnedParameter { bytes: Vec::new() }
    }

    /// Accept a byte buffer as a parameter exactly when it fits the limit;
    /// a longer buffer is reported with its exact size and the maximum.
    pub fn try_from(bytes: Vec<u8>) -> (r: Result<OwnedParameter, ExceedsParameterSize>)
        ensures
            bytes@.len() <= MAX_PARAMETER_LEN ==> (r matches Ok(p) && p.spec_bytes() =~= bytes@
                && p.wf()),
            bytes@.len() > MAX_PARAMETER_LEN ==> r == Err::<OwnedParameter, _>(
                ExceedsParameterSize { actual: bytes@.len() as usize, max: MAX_PARAMETER_LEN },
            ),
    {
        let actual = bytes.len();
        if actual <= MAX_PARAMETER_LEN {
            Ok(OwnedParameter { bytes })
        } else {
            Err(ExceedsParameterSize { actual, max: MAX_PARAMETER_LEN })
        }
    }

    /// Read access to the bytes.
    pub fn as_bytes(&self) -> (r: &Vec<u8>)
        ensures
            r@ =~= self.spec_bytes(),
    {
        &self.bytes
    }

    /// Give the bytes up.
    pub fn into_bytes(self) -> (r: Vec<u8>)
        ensures
            r@ =~= self.spec_bytes(),
    {
        self.bytes
    }
}

/// The layout of a parameter with a trailer: the fixed fields, a 2-byte
/// little-endian length prefix, then the trailing bytes.
pub open spec fn spec_with_trailer(head: Seq<u8>, trailer: Seq<u8>) -> Seq<u8> {
    head + spec_u16_le(trailer.len() as u16) + trailer
}

/// Compose a parameter from already-encoded fixed fields and trailing
/// bytes. Fails, before anything is built, exactly when the total —
/// head, trailer and the 2-byte prefix — would exceed the size limit;
/// the error carries that exact total and the limit.
pub fn compose_parameter(head: &Vec<u8>, trailer: &Vec<u8>) -> (r: Result<
    OwnedParameter,
    ExceedsParameterSize,
>)
    requires
        head@.len() + trailer@.len() + 2 <= usize::MAX,
    ensures
        head@.len() + trailer@.len() + 2 > MAX_PARAMETER_LEN ==> r == Err::<OwnedParameter, _>(
            ExceedsParameterSize {
                actual: (head@.len() + trailer@.len() + 2) as usize,
                max: MAX_PARAMETER_LEN,
            },
        ),
        head@.len() + trailer@.len() + 2 <= MAX_PARAMETER_LEN ==> (r matches Ok(p)
            && p.spec_bytes() =~= spec_with_trailer(head@, trailer@) && p.wf()),
{
    let actual = head.len() + trailer.len() + 2;
    if actual > MAX_PARAMETER_LEN {
        return Err(ExceedsParameterSize { actual, max: MAX_PARAMETER_LEN });
    }
    let mut out: Vec<u8> = Vec::new();
    write_bytes(&mut out, head);
    write_u16_le(&mut out, trailer.len() as u16);
    write_bytes(&mut out, trailer);
    Ok(OwnedParameter { bytes: out })
}

/// Read the trailer of a parameter laid out by [`spec_with_trailer`],
/// starting right after the fixed fields. Succeeds exactly when the 2-byte
/// prefix is present and states the length of what follows it.
pub fn read_trailer(input: &Vec<u8>, pos: usize) -> (r: Option<Vec<u8>>)
    requires
        pos <= input@.len(),
    ensures
        r matches Some(t) ==> input@.subrange(pos as int, input@.len() as int) =~= spec_u16_le(
            t@.len() as u16,
        ) + t@ && t@.len() == input@.len() - pos - 2,
        r is None <==> (pos + 2 > input@.len() || spec_u16_from(
            input@.subrange(pos as int, pos + 2),
        ) != input@.len() - pos - 2),
{
    match read_u16_le(input, pos) {
        None => None,
        Some((len, p)) => {
            if (len as usize) != input.len() - p {
                return None;
            }
            match read_bytes(input, p, len as usize) {
                None => None,
                Some((t, _)) => {
                    proof {
                        lemma_u16_round_trip(len);
                        assert(input@.subrange(pos as int, input@.len() as int) =~= input@
                            .subrange(pos as int, pos + 2) + input@.subrange(
                            pos + 2,
                            input@.len() as int,
                        ));
                        crate::bytes::lemma_u16_bytes_round_trip(
                            input@.subrange(pos as int, pos + 2),
                        );
                    }
                    Some(t)
                },
            }
        },
    }
}

/// Splitting a composed parameter after its fixed fields gives the trailer
/// back unchanged: the codec round-trips.
pub proof fn lemma_with_trailer_round_trip(head: Seq<u8>, trailer: Seq<u8>)
    requires
        trailer.len() <= 0xffff,
    ensures
        spec_with_trailer(head, trailer).subrange(
            head.len() as int,
            spec_with_trailer(head, trailer).len() as int,
        ) =~= spec_u16_le(trailer.len() as u16) + trailer,
        spec_u16_from(
            spec_with_trailer(head, trailer).subrange(head.len() as int, head.len() as int + 2),
        ) == trailer.len(),
{
    let whole = spec_with_trailer(head, trailer);
    assert(whole.subrange(head.len() as int, whole.len() as int) =~= spec_u16_le(
        trailer.len() as u16,
    ) + trailer);
    assert(whole.subrange(head.len() as int, head.len() as int + 2) =~= spec_u16_le(
        trailer.len() as u16,
    ));
    lemma_u16_round_trip(trailer.len() as u16);
}

} // verus!
