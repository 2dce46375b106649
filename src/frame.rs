use vstd::prelude::*;

verus! {

/// One decoded measurement, in tenths of a unit so that it stays exact:
/// `temperature_tenths` in tenths of a degree Celsius, `humidity_tenths` in
/// tenths of a percent.
#[derive(Clone, Copy, Debug, PartialEq, Eq, Structural)]
pub struct SensorData {
    pub temperature_tenths: i32,
    pub humidity_tenths: u32,
}

/// Why a driver operation failed.
#[derive(Clone, Copy, Debug, PartialEq, Eq, Structural)]
pub enum DriverError {
    /// The line could not be claimed or configured.
    InitError,
    /// A bounded wait for a line level ran past its deadline.
    SignalTimeoutError,
    /// The frame's checksum byte does not match its data bytes.
    ChecksumError,
}

/// The wrapping 8-bit sum of the four data bytes of a frame.
pub open spec fn checksum_of(h1: u8, h2: u8, t1: u8, t2: u8) -> u8 {
    ((h1 as int + h2 as int + t1 as int + t2 as int) % 256) as u8
}

/// Humidity in tenths: the integer byte plus the fraction byte over ten.
pub open spec fn humidity_tenths_of(h1: u8, h2: u8) -> int {
    10 * h1 + h2
}

/// Temperature in tenths: the integer byte plus the low seven bits of the
/// fraction byte over ten, negated when bit 7 of the fraction byte is set.
pub open spec fn temperature_tenths_of(t1: u8, t2: u8) -> int {
    let magnitude = 10 * t1 + t2 % 128;
    if t2 >= 128 {
        -magnitude
    } else {
        magnitude
    }
}

/// What a frame of five bytes decodes to.
pub open spec fn decode_spec(h1: u8, h2: u8, t1: u8, t2: u8, checksum: u8) -> Result<
    SensorData,
    DriverError,
> {
    if checksum == checksum_of(h1, h2, t1, t2) {
        Ok(
            SensorData {
                temperature_tenths: temperature_tenths_of(t1, t2) as i32,
                humidity_tenths: humidity_tenths_of(h1, h2) as u32,
            },
        )
    } else {
        Err(DriverError::ChecksumError)
    }
}

/// Computes the checksum byte that a well-formed frame carries.
pub fn checksum(h1: u8, h2: u8, t1: u8, t2: u8) -> (r: u8)
    ensures
        r == checksum_of(h1, h2, t1, t2),
{
    h1.wrapping_add(h2).wrapping_add(t1).wrapping_add(t2)
}

/// Validates a frame against its checksum and decodes its values.
pub fn decode_frame(h1: u8, h2: u8, t1: u8, t2: u8, checksum_byte: u8) -> (r: Result<
    SensorData,
    DriverError,
>)
    ensures
        r == decode_spec(h1, h2, t1, t2, checksum_byte),
{
    if checksum(h1, h2, t1, t2) != checksum_byte {
        return Err(DriverError::ChecksumError);
    }
    let fraction: u8 = t2 & 0x7f;
    let negative: bool = t2 & 0x80 != 0;
    assert(fraction == t2 % 128 && (negative <==> t2 >= 128)) by (bit_vector)
        requires
            fraction == t2 & 0x7f,
            negative == (t2 & 0x80 != 0),
    ;
    let magnitude: i32 = 10 * (t1 as i32) + fraction as i32;
    let temperature_tenths: i32 = if negative {
        -magnitude
    } else {
        magnitude
    };
    let humidity_tenths: u32 = 10 * (h1 as u32) + h2 as u32;
    Ok(SensorData { temperature_tenths, humidity_tenths })
}

/// A frame whose checksum byte is the wrapping sum of its data bytes always
/// decodes, to the humidity `h1 + h2 / 10` and the temperature
/// `t1 + (t2 & 0x7f) / 10`, negative exactly when bit 7 of `t2` is set.
pub proof fn lemma_checksum_round_trip(h1: u8, h2: u8, t1: u8, t2: u8)
    ensures
        decode_spec(h1, h2, t1, t2, checksum_of(h1, h2, t1, t2)) == Ok::<SensorData, DriverError>(
            SensorData {
                temperature_tenths: temperature_tenths_of(t1, t2) as i32,
                humidity_tenths: humidity_tenths_of(h1, h2) as u32,
            },
        ),
        humidity_tenths_of(h1, h2) == 10 * h1 + h2,
        temperature_tenths_of(t1, t2) < 0 <==> (t2 >= 128 && (t1 > 0 || t2 % 128 > 0)),
        temperature_tenths_of(t1, t2) == 10 * t1 + t2 % 128 || temperature_tenths_of(t1, t2) == -(
        10 * t1 + t2 % 128),
{
}

/// A frame whose checksum byte differs from the wrapping sum of its data bytes
/// is always refused with a checksum error.
pub proof fn lemma_checksum_mismatch(h1: u8, h2: u8, t1: u8, t2: u8, checksum_byte: u8)
    requires
        checksum_byte != checksum_of(h1, h2, t1, t2),
    ensures
        decode_spec(h1, h2, t1, t2, checksum_byte) == Err::<SensorData, DriverError>(
            DriverError::ChecksumError,
        ),
{
}

} // verus!
