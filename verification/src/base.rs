//! Basic chain value types: thin wrappers around integers, and the checked
//! arithmetic and decimal conversions that their invariants require.

use vstd::prelude::*;

verus! {

/// Duration of a slot in milliseconds.
#[derive(Clone, Copy, PartialEq, Eq, Structural, Debug)]
pub struct SlotDuration {
    pub millis: u64,
}

/// Internal short id of the baker.
#[derive(Clone, Copy, PartialEq, Eq, Structural, Debug)]
pub struct BakerId {
    pub id: u64,
}

/// Slot number.
#[derive(Clone, Copy, PartialEq, Eq, Structural, Debug)]
pub struct Slot {
    pub slot: u64,
}

/// Epoch number.
#[derive(Clone, Copy, PartialEq, Eq, Structural, Debug)]
pub struct Epoch {
    pub epoch: u64,
}

/// Account nonce: a strictly sequential counter of transactions.
#[derive(Clone, Copy, PartialEq, Eq, Structural, Debug)]
pub struct Nonce {
    pub nonce: u64,
}

/// Sequence number of chain parameter updates.
#[derive(Clone, Copy, PartialEq, Eq, Structural, Debug)]
pub struct UpdateSequenceNumber {
    pub number: u64,
}

/// Number of signatures that an account requires; never zero.
#[derive(Clone, Copy, PartialEq, Eq, Structural, Debug)]
pub struct AccountThreshold {
    threshold: u8,
}

impl AccountThreshold {
    /// The threshold as a number; a valid threshold is never zero.
    pub closed spec fn spec_threshold(self) -> u8 {
        self.threshold
    }

    /// A threshold may be any non-zero count.
    pub fn try_from(value: u8) -> (r: Result<AccountThreshold, &'static str>)
        ensures
            r is Ok <==> value != 0,
            r matches Ok(t) ==> t.spec_threshold() == value,
    {
        if value == 0 {
            Err("Account threshold cannot be 0.")
        } else {
            Ok(AccountThreshold { threshold: value })
        }
    }

    pub fn threshold(&self) -> (r: u8)
        ensures
            r == self.spec_threshold(),
    {
        self.threshold
    }
}

/// Maximum number of credentials deployable in one block.
#[derive(Clone, Copy, PartialEq, Eq, Structural, Debug)]
pub struct CredentialsPerBlockLimit {
    pub limit: u16,
}

/// Height of a block. Genesis block is at height 0, a child of a block at
/// height n is at height n+1.
#[derive(Clone, Copy, PartialEq, Eq, Structural, Debug)]
pub struct BlockHeight {
    pub height: u64,
}

/// Internal index of an account.
#[derive(Clone, Copy, PartialEq, Eq, Structural, Debug)]
pub struct AccountIndex {
    pub index: u64,
}

/// Energy measure.
#[derive(Clone, Copy, PartialEq, Eq, Structural, Debug)]
pub struct Energy {
    pub energy: u64,
}

/// Index of a smart contract instance.
#[derive(Clone, Copy, PartialEq, Eq, Structural, Debug)]
pub struct ContractIndex {
    pub index: u64,
}

/// Subindex of a smart contract instance.
#[derive(Clone, Copy, PartialEq, Eq, Structural, Debug)]
pub struct ContractSubIndex {
    pub sub_index: u64,
}

/// Address of a smart contract instance: an index together with a subindex.
#[derive(Clone, Copy, PartialEq, Eq, Structural, Debug)]
pub struct ContractAddress {
    pub index: ContractIndex,
    pub subindex: ContractSubIndex,
}

/// Position of the transaction in a block.
#[derive(Clone, Copy, PartialEq, Eq, Structural, Debug)]
pub struct TransactionIndex {
    pub index: u64,
}

/// Address of an account: 32 bytes.
#[derive(Clone, Debug)]
pub struct AccountAddress {
    /// The 32 bytes of the address.
    pub bytes: Vec<u8>,
}

impl View for AccountAddress {
    type V = Seq<u8>;

    open spec fn view(&self) -> Seq<u8> {
        self.bytes@
    }
}

impl AccountAddress {
    pub open spec fn wf(self) -> bool {
        self@.len() == 32
    }
}

/// Either an account or a contract address. Some operations are allowed on
/// both kinds of entities, hence the need for this type.
#[derive(Clone, Debug)]
pub enum Address {
    Account(AccountAddress),
    Contract(ContractAddress),
}

/// A baker's public key for aggregate signatures: a 96-byte encoding of
/// a point of the pairing group, carried opaquely.
#[derive(Clone, Debug)]
pub struct BakerAggregationVerifyKey {
    /// The 96 bytes of the key.
    pub verify_key: Vec<u8>,
}

impl View for BakerAggregationVerifyKey {
    type V = Seq<u8>;

    open spec fn view(&self) -> Seq<u8> {
        self.verify_key@
    }
}

impl BakerAggregationVerifyKey {
    pub open spec fn wf(self) -> bool {
        self@.len() == 96
    }
}

/// A baker's public signature verification key: 32 bytes.
#[derive(Clone, Debug)]
pub struct BakerSignVerifyKey {
    /// The 32 bytes of the key.
    pub verify_key: Vec<u8>,
}

impl View for BakerSignVerifyKey {
    type V = Seq<u8>;

    open spec fn view(&self) -> Seq<u8> {
        self.verify_key@
    }
}

impl BakerSignVerifyKey {
    pub open spec fn wf(self) -> bool {
        self@.len() == 32
    }
}

/// A baker's public leader election key: 32 bytes.
#[derive(Clone, Debug)]
pub struct BakerElectionVerifyKey {
    verify_key: Vec<u8>,
}

impl View for BakerElectionVerifyKey {
    type V = Seq<u8>;

    closed spec fn view(&self) -> Seq<u8> {
        self.verify_key@
    }
}

impl BakerElectionVerifyKey {
    pub open spec fn wf(self) -> bool {
        self@.len() == 32
    }

    /// A key from its 32 bytes.
    pub fn new(verify_key: Vec<u8>) -> (r: Option<BakerElectionVerifyKey>)
        ensures
            r is Some <==> verify_key@.len() == 32,
            r matches Some(k) ==> k@ == verify_key@,
    {
        if verify_key.len() == 32 {
            Some(BakerElectionVerifyKey { verify_key })
        } else {
            None
        }
    }
}

/// A single public key that can sign chain parameter updates: 32 bytes.
#[derive(Clone, Debug)]
pub struct UpdatePublicKey {
    public: Vec<u8>,
}

impl View for UpdatePublicKey {
    type V = Seq<u8>;

    closed spec fn view(&self) -> Seq<u8> {
        self.public@
    }
}

impl UpdatePublicKey {
    pub open spec fn wf(self) -> bool {
        self@.len() == 32
    }

    /// A key from its 32 bytes.
    pub fn new(public: Vec<u8>) -> (r: Option<UpdatePublicKey>)
        ensures
            r is Some <==> public@.len() == 32,
            r matches Some(k) ==> k@ == public@,
    {
        if public.len() == 32 {
            Some(UpdatePublicKey { public })
        } else {
            None
        }
    }
}

/// Threshold of keys needed for chain parameter updates; never zero.
#[derive(Clone, Copy, PartialEq, Eq, Structural, Debug)]
pub struct UpdateKeysThreshold {
    threshold: u16,
}

impl UpdateKeysThreshold {
    pub closed spec fn spec_threshold(self) -> u16 {
        self.threshold
    }

    /// A threshold may be any non-zero count.
    pub fn try_from(value: u16) -> (r: Result<UpdateKeysThreshold, &'static str>)
        ensures
            r is Ok <==> value != 0,
            r matches Ok(t) ==> t.spec_threshold() == value,
    {
        if value == 0 {
            Err("Update key threshold cannot be 0.")
        } else {
            Ok(UpdateKeysThreshold { threshold: value })
        }
    }

    pub fn threshold(&self) -> (r: u16)
        ensures
            r == self.spec_threshold(),
    {
        self.threshold
    }
}

/// Index of a key that can sign chain parameter updates.
#[derive(Clone, Copy, PartialEq, Eq, Structural, Debug)]
pub struct UpdateKeysIndex {
    pub index: u16,
}

/// A fraction between 0 and 1 with a precision of 1/100_000.
#[derive(Clone, Copy, PartialEq, Eq, Structural, Debug)]
pub struct PartsPerHundredThousands {
    parts: u32,
}

/// Why a decimal number does not denote a valid fraction.
#[derive(Clone, Copy, PartialEq, Eq, Structural, Debug)]
pub enum PartsPerHundredThousandsError {
    /// More than 5 decimal digits.
    TooManyDecimals,
    /// The number is negative.
    Negative,
    /// The fraction is greater than 1.
    OutOfBounds,
}

/// 10^e for the small exponents a 5-decimal fraction needs.
pub open spec fn spec_pow10(e: nat) -> int
    decreases e,
{
    if e == 0 {
        1
    } else {
        10 * spec_pow10((e - 1) as nat)
    }
}

proof fn lemma_pow10_mono(a: nat, b: nat)
    requires
        a <= b,
    ensures
        spec_pow10(a) <= spec_pow10(b),
    decreases b,
{
    if a < b {
        lemma_pow10_mono(a, (b - 1) as nat);
        lemma_pow10_positive((b - 1) as nat);
    }
}

/// 10^e for e at most 5.
fn pow10_small(e: u32) -> (r: u64)
    requires
        e <= 5,
    ensures
        r == spec_pow10(e as nat),
        r <= 100_000,
{
    proof {
        reveal_with_fuel(spec_pow10, 6);
        assert(spec_pow10(5) == 100_000);
    }
    let mut r: u64 = 1;
    let mut i: u32 = 0;
    while i < e
        invariant
            i <= e <= 5,
            r == spec_pow10(i as nat),
        decreases e - i,
    {
        proof {
            assert(spec_pow10((i + 1) as nat) == 10 * spec_pow10(i as nat));
            lemma_pow10_mono((i + 1) as nat, 5);
            reveal_with_fuel(spec_pow10, 6);
            assert(spec_pow10(5) == 100_000);
        }
        r = r * 10;
        i = i + 1;
    }
    proof {
        lemma_pow10_mono(e as nat, 5);
    }
    r
}

impl PartsPerHundredThousands {
    /// Numerator of the fraction over 100_000.
    pub closed spec fn spec_parts(self) -> u32 {
        self.parts
    }

    pub fn parts(&self) -> (r: u32)
        ensures
            r == self.spec_parts(),
    {
        self.parts
    }

    /// Read a fraction from a decimal number given in normalized form, as a
    /// mantissa (with its sign) and a scale: the number is
    /// mantissa / 10^scale. Accepted are non-negative numbers with at most 5
    /// decimal digits denoting a fraction of at most 1; the result has the
    /// mantissa rescaled to exactly 5 decimals.
    pub fn from_decimal(mantissa: i128, scale: u32) -> (r: Result<
        PartsPerHundredThousands,
        PartsPerHundredThousandsError,
    >)
        requires
            -0x1000000000000000000000000 < mantissa < 0x1000000000000000000000000,
        ensures
            scale > 5 ==> r == Err::<PartsPerHundredThousands, _>(
                PartsPerHundredThousandsError::TooManyDecimals,
            ),
            scale <= 5 && mantissa < 0 ==> r == Err::<PartsPerHundredThousands, _>(
                PartsPerHundredThousandsError::Negative,
            ),
            scale <= 5 && mantissa >= 0 && mantissa * spec_pow10((5 - scale) as nat) > 100_000
                ==> r == Err::<PartsPerHundredThousands, _>(
                PartsPerHundredThousandsError::OutOfBounds,
            ),
            scale <= 5 && mantissa >= 0 && mantissa * spec_pow10((5 - scale) as nat) <= 100_000
                ==> (r matches Ok(p) && p.spec_parts() == mantissa * spec_pow10(
                (5 - scale) as nat,
            )),
    {
        if scale > 5 {
            return Err(PartsPerHundredThousandsError::TooManyDecimals);
        }
        if mantissa < 0 {
            return Err(PartsPerHundredThousandsError::Negative);
        }
        let factor = pow10_small(5 - scale);
        if mantissa > 100_000 {
            proof {
                assert(spec_pow10((5 - scale) as nat) >= 1) by {
                    lemma_pow10_positive((5 - scale) as nat);
                };
                assert(mantissa * spec_pow10((5 - scale) as nat) >= mantissa * 1) by (
                nonlinear_arith)
                    requires
                        mantissa > 100_000,
                        spec_pow10((5 - scale) as nat) >= 1,
                ;
            }
            return Err(PartsPerHundredThousandsError::OutOfBounds);
        }
        proof {
            assert(mantissa * factor <= 100_000 * 100_000) by (nonlinear_arith)
                requires
                    0 <= mantissa <= 100_000,
                    0 <= factor <= 100_000,
            ;
        }
        let scaled: u64 = (mantissa as u64) * factor;
        if scaled > 100_000 {
            Err(PartsPerHundredThousandsError::OutOfBounds)
        } else {
            Ok(PartsPerHundredThousands { parts: scaled as u32 })
        }
    }

    /// Add two fractions, checking that the result is still at most 1.
    pub fn add(self, rhs: PartsPerHundredThousands) -> (r: Option<PartsPerHundredThousands>)
        ensures
            self.spec_parts() + rhs.spec_parts() <= 100_000 ==> (r matches Some(p)
                && p.spec_parts() == self.spec_parts() + rhs.spec_parts()),
            self.spec_parts() + rhs.spec_parts() > 100_000 ==> r is None,
    {
        let parts: u64 = (self.parts as u64) + (rhs.parts as u64);
        if parts <= 100_000 {
            Some(PartsPerHundredThousands { parts: parts as u32 })
        } else {
            None
        }
    }
}

proof fn lemma_pow10_positive(e: nat)
    ensures
        spec_pow10(e) >= 1,
    decreases e,
{
    if e > 0 {
        lemma_pow10_positive((e - 1) as nat);
    }
}

/// Probability that a lottery participant wins in a slot.
#[derive(Clone, Copy, PartialEq, Eq, Structural, Debug)]
pub struct ElectionDifficulty {
    parts_per_hundred_thousands: PartsPerHundredThousands,
}

impl ElectionDifficulty {
    pub closed spec fn spec_fraction(self) -> PartsPerHundredThousands {
        self.parts_per_hundred_thousands
    }

    pub fn new(fraction: PartsPerHundredThousands) -> (r: ElectionDifficulty)
        ensures
            r.spec_fraction() == fraction,
    {
        ElectionDifficulty { parts_per_hundred_thousands: fraction }
    }

    pub fn fraction(&self) -> (r: PartsPerHundredThousands)
        ensures
            r == self.spec_fraction(),
    {
        self.parts_per_hundred_thousands
    }
}

/// An exchange rate as a ratio of two non-zero numbers.
#[derive(Clone, Copy, PartialEq, Eq, Structural, Debug)]
pub struct ExchangeRate {
    pub numerator: u64,
    pub denominator: u64,
}

/// Rate of creation of new tokens: mantissa * 10^(-exponent).
#[derive(Clone, Copy, PartialEq, Eq, Structural, Debug)]
pub struct MintRate {
    pub mantissa: u32,
    pub exponent: u8,
}

/// Why a decimal number does not denote a valid mint rate.
#[derive(Clone, Copy, PartialEq, Eq, Structural, Debug)]
pub enum MintRateError {
    /// The scale does not fit the exponent's range.
    UnsupportedExponent,
    /// The mantissa does not fit 32 bits or is negative.
    UnsupportedMantissa,
}

impl MintRate {
    /// Read a mint rate from a decimal number given in normalized form as a
    /// mantissa (with its sign) and a scale: the rate is mantissa/10^scale.
    pub fn from_decimal(mantissa: i128, scale: u32) -> (r: Result<MintRate, MintRateError>)
        ensures
            scale > 255 ==> r == Err::<MintRate, _>(MintRateError::UnsupportedExponent),
            scale <= 255 && !(0 <= mantissa <= u32::MAX) ==> r == Err::<MintRate, _>(
                MintRateError::UnsupportedMantissa,
            ),
            scale <= 255 && 0 <= mantissa <= u32::MAX ==> (r matches Ok(m)
                && m.mantissa == mantissa && m.exponent == scale),
    {
        if scale > 255 {
            Err(MintRateError::UnsupportedExponent)
        } else if mantissa < 0 || mantissa > 0xffff_ffff {
            Err(MintRateError::UnsupportedMantissa)
        } else {
            Ok(MintRate { mantissa: mantissa as u32, exponent: scale as u8 })
        }
    }
}

/// A fraction of a reward, as parts per hundred thousand.
#[derive(Clone, Copy, PartialEq, Eq, Structural, Debug)]
pub struct RewardFraction {
    parts_per_hundred_thousands: PartsPerHundredThousands,
}

impl RewardFraction {
    pub closed spec fn spec_fraction(self) -> PartsPerHundredThousands {
        self.parts_per_hundred_thousands
    }

    pub fn new(fraction: PartsPerHundredThousands) -> (r: RewardFraction)
        ensures
            r.spec_fraction() == fraction,
    {
        RewardFraction { parts_per_hundred_thousands: fraction }
    }

    pub fn fraction(&self) -> (r: PartsPerHundredThousands)
        ensures
            r == self.spec_fraction(),
    {
        self.parts_per_hundred_thousands
    }

    /// Add two reward fractions, checking that they sum up to no more than 1.
    pub fn add(self, rhs: RewardFraction) -> (r: Option<RewardFraction>)
        ensures
            self.spec_fraction().spec_parts() + rhs.spec_fraction().spec_parts() <= 100_000
                ==> (r matches Some(f) && f.spec_fraction().spec_parts()
                == self.spec_fraction().spec_parts() + rhs.spec_fraction().spec_parts()),
            self.spec_fraction().spec_parts() + rhs.spec_fraction().spec_parts() > 100_000
                ==> r is None,
    {
        match self.parts_per_hundred_thousands.add(rhs.parts_per_hundred_thousands) {
            Some(parts_per_hundred_thousands) => Some(
                RewardFraction { parts_per_hundred_thousands },
            ),
            None => None,
        }
    }
}

/// Distribution of newly minted tokens.
#[derive(Clone, Copy, PartialEq, Eq, Structural, Debug)]
pub struct MintDistribution {
    pub mint_per_slot: MintRate,
    pub baking_reward: RewardFraction,
    pub finalization_reward: RewardFraction,
}

} // verus!
