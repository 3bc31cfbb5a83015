//! The count rate and its two-byte wire form.

use vstd::prelude::*;
use crate::error::DeviceError;

verus! {

/// Length of the device's reply to the count query, in bytes.
pub const REPLY_LEN: usize = 2;

/// Counts per minute, as decoded from the device's reply.
#[derive(Clone, Copy, Debug, PartialEq, Eq, Structural)]
pub struct CountReading {
    pub cpm: u16,
}

/// The number that two bytes denote, the high byte first.
pub open spec fn be16(hi: u8, lo: u8) -> int {
    hi as int * 256 + lo as int
}

/// What a reply of any length decodes to: a reading if it holds exactly two
/// bytes, a length error otherwise.
pub open spec fn decoded(reply: Seq<u8>) -> Result<CountReading, DeviceError> {
    if reply.len() == 2 {
        Ok(CountReading { cpm: be16(reply[0], reply[1]) as u16 })
    } else {
        Err(DeviceError::UnexpectedResponseLength { got: reply.len() as usize })
    }
}

impl CountReading {
    /// Combines the two reply bytes, the high byte first.
    pub fn from_be_bytes(hi: u8, lo: u8) -> (reading: CountReading)
        ensures
            reading.cpm as int == be16(hi, lo),
    {
        let high: u16 = hi as u16;
        let low: u16 = lo as u16;
        CountReading { cpm: high * 256 + low }
    }

    /// The two bytes that decode to this reading, the high byte first.
    pub fn to_be_bytes(&self) -> (pair: (u8, u8))
        ensures
            be16(pair.0, pair.1) == self.cpm as int,
    {
        let hi: u8 = (self.cpm / 256) as u8;
        let lo: u8 = (self.cpm % 256) as u8;
        (hi, lo)
    }

    /// Counts per minute.
    pub fn value(&self) -> (cpm: u16)
        ensures
            cpm == self.cpm,
    {
        self.cpm
    }
}

/// Decodes the device's reply. Anything but exactly two bytes is rejected, and
/// nothing is read from it.
pub fn decode_reply(reply: &[u8]) -> (outcome: Result<CountReading, DeviceError>)
    ensures
        outcome == decoded(reply@),
        reply@.len() == 2 ==> outcome is Ok && outcome->Ok_0.cpm as int == be16(
            reply@[0],
            reply@[1],
        ),
        reply@.len() != 2 ==> outcome == Err::<CountReading, DeviceError>(
            DeviceError::UnexpectedResponseLength { got: reply@.len() as usize },
        ),
{
    if reply.len() == REPLY_LEN {
        Ok(CountReading::from_be_bytes(reply[0], reply[1]))
    } else {
        Err(DeviceError::UnexpectedResponseLength { got: reply.len() })
    }
}

/// Two bytes denote a number below 65536, and different pairs denote different
/// numbers: the wire form loses nothing.
pub proof fn lemma_be16_injective(hi1: u8, lo1: u8, hi2: u8, lo2: u8)
    ensures
        0 <= be16(hi1, lo1) <= u16::MAX,
        be16(hi1, lo1) == be16(hi2, lo2) <==> (hi1 == hi2 && lo1 == lo2),
{
}

} // verus!
