//! Driver for the SGP40 digital gas sensor: the command table, the CRC-8
//! that guards every response word, and the decoding of the self-test answer.
//! The bus transaction itself is made by the caller, over its own bus, through
//! `SGP40::bus_mut`.
use vstd::prelude::*;

pub mod commands;

verus! {

/// The sensor's fixed 7-bit bus address.
pub const ADDR: u8 = 0x59;

/// First data byte of a self-test response when every check passed.
pub const SELF_TEST_PASSED: u8 = 0xd4;

/// First data byte of a self-test response when a check failed.
pub const SELF_TEST_FAILED: u8 = 0x4b;

/// Driver for the gas sensor; owns the bus it talks over.
pub struct SGP40<I2C> {
    i2c: I2C,
}

/// What can go wrong in a sensor operation.
#[derive(Clone, Copy, Hash, Debug, PartialEq, Eq, PartialOrd, Ord)]
pub enum Sgp40Error<I2cError> {
    /// The checksum held, but the payload means nothing for the operation.
    InvalidResponse,
    /// A response word's checksum byte does not match its two data bytes.
    InvalidCrc,
    /// The bus transaction itself failed; the bus's own error is kept.
    I2c(I2cError),
}

/// One round of the checksum's shift register: shift left by one bit and
/// feed back the polynomial 0x31 when the top bit falls out.
pub open spec fn crc_shift(c: u8) -> u8 {
    if c & 0x80 != 0 {
        (c << 1u8) ^ 0x31u8
    } else {
        c << 1u8
    }
}

/// `n` rounds of the shift register starting from `c`.
pub open spec fn crc_rounds(c: u8, n: nat) -> u8
    decreases n,
{
    if n == 0 {
        c
    } else {
        crc_shift(crc_rounds(c, (n - 1) as nat))
    }
}

/// The register after one byte has been fed in: XOR it in, then eight rounds.
pub open spec fn crc_feed(c: u8, b: u8) -> u8 {
    crc_rounds(c ^ b, 8)
}

/// The checksum of a two-byte word: the register starts at 0xFF and is fed
/// the two bytes in order.
pub open spec fn crc8(data: [u8; 2]) -> u8 {
    crc_feed(crc_feed(0xff, data[0]), data[1])
}

/// Whether a response word's checksum byte matches its two data bytes.
pub open spec fn crc_matches(data: [u8; 3]) -> bool {
    crc8([data[0], data[1]]) == data[2]
}

/// What checking one response word yields.
pub open spec fn check_crc_result<E>(data: [u8; 3]) -> Result<(), Sgp40Error<E>> {
    if crc_matches(data) {
        Ok(())
    } else {
        Err(Sgp40Error::InvalidCrc)
    }
}

/// What a self-test response word means: the checksum is checked first, then
/// the first data byte tells a pass from a failure; the second is unused.
pub open spec fn self_test_outcome<E>(data: [u8; 3]) -> Result<bool, Sgp40Error<E>> {
    if !crc_matches(data) {
        Err(Sgp40Error::InvalidCrc)
    } else if data[0] == SELF_TEST_PASSED {
        Ok(true)
    } else if data[0] == SELF_TEST_FAILED {
        Ok(false)
    } else {
        Err(Sgp40Error::InvalidResponse)
    }
}

/// What a self-test yields once the bus transaction is over: a bus failure is
/// handed on as it came, and the response is looked at only on success.
pub open spec fn self_test_result<E>(bus: Result<(), E>, data: [u8; 3]) -> Result<
    bool,
    Sgp40Error<E>,
> {
    match bus {
        Err(e) => Err(Sgp40Error::I2c(e)),
        Ok(()) => self_test_outcome(data),
    }
}

/// The checksum depends on the two bytes alone: computing it twice over the
/// same word gives the same value.
pub proof fn lemma_crc_deterministic(a: [u8; 2], b: [u8; 2])
    requires
        a == b,
    ensures
        crc8(a) == crc8(b),
{
}

/// A self-test word whose checksum byte is right is read by its first byte
/// alone, whatever the second: the pass byte gives `Ok(true)`, the fail byte
/// `Ok(false)`, and every other byte an invalid-response error.
pub proof fn lemma_self_test_decoding<E>(first: u8, second: u8)
    ensures
        first == SELF_TEST_PASSED ==> self_test_outcome::<E>([first, second, crc8([first, second])])
            == Ok::<bool, Sgp40Error<E>>(true),
        first == SELF_TEST_FAILED ==> self_test_outcome::<E>([first, second, crc8([first, second])])
            == Ok::<bool, Sgp40Error<E>>(false),
        first != SELF_TEST_PASSED && first != SELF_TEST_FAILED ==> self_test_outcome::<E>(
            [first, second, crc8([first, second])],
        ) == Err::<bool, Sgp40Error<E>>(Sgp40Error::InvalidResponse),
{
}

impl<I2C> SGP40<I2C> {
    /// Takes ownership of the bus.
    pub fn new(i2c: I2C) -> (r: Self)
        ensures
            r.bus() == i2c,
    {
        Self { i2c }
    }

    /// The bus the driver talks over.
    pub closed spec fn bus(&self) -> I2C {
        self.i2c
    }

    /// The bus, for the transactions the driver asks for.
    pub fn bus_mut(&mut self) -> (r: &mut I2C)
        ensures
            *r == old(self).bus(),
            final(self).bus() == *final(r),
    {
        &mut self.i2c
    }

    /// Finishes a self-test from the outcome of the bus transaction and the
    /// response word it read.
    pub fn self_test_response<E>(bus: Result<(), E>, data: &[u8; 3]) -> (r: Result<bool, Sgp40Error<E>>)
        ensures
            r == self_test_result(bus, *data),
    {
        match bus {
            Err(e) => Err(Sgp40Error::from(e)),
            Ok(()) => Self::decode_self_test::<E>(data),
        }
    }

    /// Checks a self-test response word and tells what it reports.
    pub fn decode_self_test<E>(data: &[u8; 3]) -> (r: Result<bool, Sgp40Error<E>>)
        ensures
            r == self_test_outcome::<E>(*data),
    {
        match Self::check_crc::<E>(data) {
            Err(e) => Err(e),
            Ok(()) => {
                if data[0] == SELF_TEST_PASSED {
                    Ok(true)
                } else if data[0] == SELF_TEST_FAILED {
                    Ok(false)
                } else {
                    Err(Sgp40Error::InvalidResponse)
                }
            },
        }
    }

    /// The checksum of a two-byte word (CRC-8, polynomial 0x31, start 0xFF).
    pub fn crc(data: &[u8; 2]) -> (r: u8)
        ensures
            r == crc8(*data),
    {
        let mut crc: u8 = 0xff;
        let mut i: usize = 0;
        while i < 2
            invariant
                i <= 2,
                i == 0 ==> crc == 0xff,
                i == 1 ==> crc == crc_feed(0xff, data[0]),
                i == 2 ==> crc == crc8(*data),
            decreases 2 - i,
        {
            let start: Ghost<u8> = Ghost(crc);
            crc ^= data[i];
            let mut j: usize = 0;
            while j < 8
                invariant
                    i < 2,
                    j <= 8,
                    crc == crc_rounds(start@ ^ data[i as int], j as nat),
                decreases 8 - j,
            {
                if crc & 0x80 != 0 {
                    crc = (crc << 1) ^ 0x31;
                } else {
                    crc = crc << 1;
                }
                j += 1;
            }
            i += 1;
        }
        crc
    }

    /// Checks one response word: two data bytes and their checksum.
    pub fn check_crc<E>(data: &[u8; 3]) -> (r: Result<(), Sgp40Error<E>>)
        ensures
            r == check_crc_result::<E>(*data),
            r is Ok <==> crc_matches(*data),
    {
        if Self::crc(&[data[0], data[1]]) != data[2] {
            Err(Sgp40Error::InvalidCrc)
        } else {
            Ok(())
        }
    }
}

impl<E> From<E> for Sgp40Error<E> {
    fn from(err: E) -> (r: Self)
        ensures
            r == Sgp40Error::I2c(err),
    {
        Sgp40Error::I2c(err)
    }
}

impl<E> vstd::std_specs::convert::FromSpecImpl<E> for Sgp40Error<E> {
    open spec fn obeys_from_spec() -> bool {
        true
    }

    open spec fn from_spec(err: E) -> Self {
        Sgp40Error::I2c(err)
    }
}

} // verus!
