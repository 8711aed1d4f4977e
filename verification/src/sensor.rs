//! Decoding of the 16-bit words that the thermocouple converter clocks out.
//!
//! Bit 2 of a word is the fault flag: the converter raises it when no
//! thermocouple is attached. Bits 15 to 3 hold the reading, counted in quarters
//! of a degree.

use vstd::prelude::*;

verus! {

/// Mask of the fault flag in a raw word.
pub const FAULT_MASK: u16 = 0x0004;

/// How far the reading sits above the lowest bit of a raw word.
pub const READING_SHIFT: u16 = 3;

/// The largest reading that thirteen bits can hold, in quarter degrees.
pub const MAX_QUARTER_DEGREES: u16 = 8191;

/// True when the fault flag of a raw word is raised.
pub open spec fn fault_flagged(raw: u16) -> bool {
    raw & FAULT_MASK != 0
}

/// The reading that a raw word carries, in quarter degrees.
pub open spec fn reading(raw: u16) -> u16 {
    raw >> READING_SHIFT
}

/// The word that two bytes form when the first is the more significant.
pub open spec fn word_of(high: u8, low: u8) -> u16 {
    (high * 256 + low) as u16
}

/// No thermocouple is attached, or it came loose. The condition is expected
/// and passes: the caller waits and polls again.
#[derive(Clone, Copy, Debug, PartialEq, Eq, Structural)]
pub struct SensorFault;

/// A temperature, held as a count of quarter degrees.
#[derive(Clone, Copy, Debug, PartialEq, Eq, Structural)]
pub struct TemperatureSample {
    quarter_degrees: u16,
}

impl View for TemperatureSample {
    type V = nat;

    /// The temperature in quarter degrees.
    closed spec fn view(&self) -> nat {
        self.quarter_degrees as nat
    }
}

impl TemperatureSample {
    #[verifier::type_invariant]
    spec fn in_range(self) -> bool {
        self.quarter_degrees <= MAX_QUARTER_DEGREES
    }

    /// The sample of a given count of quarter degrees, if thirteen bits can
    /// hold the count.
    pub fn from_quarter_degrees(count: u16) -> (sample: Option<TemperatureSample>)
        ensures
            sample is Some <==> count <= MAX_QUARTER_DEGREES,
            sample matches Some(s) ==> s@ == count,
    {
        if count <= MAX_QUARTER_DEGREES {
            Some(TemperatureSample { quarter_degrees: count })
        } else {
            None
        }
    }

    /// The temperature in quarter degrees.
    pub fn quarter_degrees(&self) -> (count: u16)
        ensures
            count == self@,
            count <= MAX_QUARTER_DEGREES,
    {
        proof {
            use_type_invariant(self);
        }
        self.quarter_degrees
    }

    /// The temperature in hundredths of a degree. A quarter degree is 25
    /// hundredths, so the value is exact.
    pub fn hundredths(&self) -> (value: u32)
        ensures
            value == 25 * self@,
            value <= 25 * MAX_QUARTER_DEGREES,
    {
        proof {
            use_type_invariant(self);
        }
        25 * (self.quarter_degrees as u32)
    }
}

/// Joins the two bytes of a bus transfer, most significant first.
pub fn word_from_bytes(frame: [u8; 2]) -> (raw: u16)
    ensures
        raw == word_of(frame[0], frame[1]),
{
    let high: u8 = frame[0];
    let low: u8 = frame[1];
    let raw: u16 = ((high as u16) << 8) | (low as u16);
    assert(raw == high * 256 + low) by (bit_vector)
        requires
            raw == ((high as u16) << 8) | (low as u16),
    ;
    raw
}

/// Interprets a raw word: a fault when the flag is raised, and the reading
/// otherwise.
pub fn decode(raw: u16) -> (outcome: Result<TemperatureSample, SensorFault>)
    ensures
        outcome is Err <==> fault_flagged(raw),
        outcome matches Ok(sample) ==> sample@ == reading(raw),
{
    if raw & FAULT_MASK != 0 {
        Err(SensorFault)
    } else {
        let count: u16 = raw >> READING_SHIFT;
        assert(count <= 8191) by (bit_vector)
            requires
                count == raw >> 3,
        ;
        Ok(TemperatureSample { quarter_degrees: count })
    }
}

/// Decodes the bytes that the converter clocked out in one transfer.
pub struct SensorReader;

impl SensorReader {
    /// Interprets the two bytes of a transfer, most significant first.
    pub fn read(frame: [u8; 2]) -> (outcome: Result<TemperatureSample, SensorFault>)
        ensures
            outcome is Err <==> fault_flagged(word_of(frame[0], frame[1])),
            outcome matches Ok(sample) ==> sample@ == reading(word_of(frame[0], frame[1])),
    {
        decode(word_from_bytes(frame))
    }
}

/// The fault flag is the third binary digit of a word, and the reading is the
/// word divided by eight.
pub proof fn lemma_word_layout(raw: u16)
    ensures
        fault_flagged(raw) <==> (raw / 4) % 2 == 1,
        reading(raw) == raw / 8,
        reading(raw) <= MAX_QUARTER_DEGREES,
{
    assert(raw & 0x0004 != 0 <==> (raw / 4) % 2 == 1) by (bit_vector);
    assert(raw >> 3 == raw / 8) by (bit_vector);
    assert(raw >> 3 <= 8191) by (bit_vector);
}

} // verus!
