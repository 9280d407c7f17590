//! What the SHT40 sensor measures, from the bytes that it sends.

use vstd::prelude::*;

pub use crate::crc::crc8;

use crate::alarm::{AlarmLatch, AlarmTransition, EnvironmentSample};
use crate::hardware::Sht40Config;
use crate::{alarm, crc};

verus! {

/// Command that starts a measurement with high precision.
pub const MEASURE_HIGH_PRECISION: u8 = 0xfd;

/// How long a measurement takes.
pub const READ_DELAY_MS: u64 = 10;

/// How often the sensor is read: once per superframe of the demo schedule.
pub const SENSOR_SAMPLE_INTERVAL_MS: u64 = 8_000;

/// Fault in the bytes of a measurement.
#[derive(Debug, Clone, Copy, PartialEq, Eq, Structural)]
pub enum Sht40Error {
    BadTemperatureCrc,
    BadHumidityCrc,
}

impl Sht40Error {
    pub open spec fn spec_message(self) -> Seq<char> {
        match self {
            Sht40Error::BadTemperatureCrc => "temperature CRC check failed"@,
            Sht40Error::BadHumidityCrc => "humidity CRC check failed"@,
        }
    }

    /// What a log line says of this error.
    pub fn message(self) -> (text: &'static str)
        ensures
            text@ == self.spec_message(),
    {
        match self {
            Sht40Error::BadTemperatureCrc => "temperature CRC check failed",
            Sht40Error::BadHumidityCrc => "humidity CRC check failed",
        }
    }
}

/// Two bytes as a word, the more significant byte first.
pub open spec fn word(high: u8, low: u8) -> int {
    high * 256 + low
}

/// The temperature for a raw word: from -45 to 130 degrees, in proportion.
pub open spec fn temp_of(raw: int) -> int {
    -4_500 + 17_500 * raw / 65_535
}

/// The humidity for a raw word: from -6 to 119 percent, in proportion, and then
/// kept between 0 and 100 percent.
pub open spec fn humidity_of(raw: int) -> int {
    let humidity = -600 + 12_500 * raw / 65_535;
    if humidity < 0 {
        0
    } else if humidity > 10_000 {
        10_000
    } else {
        humidity
    }
}

/// What the bytes of a measurement say: each of the two words is followed by its
/// checksum.
pub open spec fn reading_of(raw: Seq<u8>) -> Result<EnvironmentSample, Sht40Error> {
    if crc::spec_crc8(raw.subrange(0, 2)) != raw[2] {
        Err(Sht40Error::BadTemperatureCrc)
    } else if crc::spec_crc8(raw.subrange(3, 5)) != raw[5] {
        Err(Sht40Error::BadHumidityCrc)
    } else {
        Ok(
            EnvironmentSample {
                temp_centi_c: temp_of(word(raw[0], raw[1])) as i16,
                humidity_centi_percent: humidity_of(word(raw[3], raw[4])) as u16,
            },
        )
    }
}

/// Read the bytes of a measurement.
pub fn decode_reading(raw: &[u8; 6]) -> (reading: Result<EnvironmentSample, Sht40Error>)
    ensures
        reading == reading_of(raw@),
{
    let bytes: &[u8] = raw;
    if crc8(&bytes[0..2]) != bytes[2] {
        return Err(Sht40Error::BadTemperatureCrc);
    }
    if crc8(&bytes[3..5]) != bytes[5] {
        return Err(Sht40Error::BadHumidityCrc);
    }
    let raw_temp: i32 = bytes[0] as i32 * 256 + bytes[1] as i32;
    let raw_humidity: i32 = bytes[3] as i32 * 256 + bytes[4] as i32;
    let temp: i32 = -4_500 + 17_500 * raw_temp / 65_535;
    let humidity: i32 = -600 + 12_500 * raw_humidity / 65_535;
    let bounded: i32 = if humidity < 0 {
        0
    } else if humidity > 10_000 {
        10_000
    } else {
        humidity
    };
    Ok(EnvironmentSample { temp_centi_c: temp as i16, humidity_centi_percent: bounded as u16 })
}

pub open spec fn spec_sample_or_normal(reading: Option<EnvironmentSample>) -> EnvironmentSample {
    match reading {
        Some(sample) => sample,
        None => EnvironmentSample::normal(),
    }
}

/// The sample to go on with: what was read, or the normal sample where the sensor
/// could not be read.
#[verifier::when_used_as_spec(spec_sample_or_normal)]
pub fn sample_or_normal(reading: Option<EnvironmentSample>) -> (sample: EnvironmentSample)
    ensures
        sample == spec_sample_or_normal(reading),
{
    match reading {
        Some(sample) => sample,
        None => EnvironmentSample::normal(),
    }
}

/// Take a reading into account: return the sample to go on with, and how the
/// alarm changed with it.
pub fn sensor_step(
    latch: &mut AlarmLatch,
    reading: Option<EnvironmentSample>,
    config: Sht40Config,
) -> (step: (EnvironmentSample, AlarmTransition))
    ensures
        step.0 == sample_or_normal(reading),
        final(latch)@ == alarm::alarm_after(
            old(latch)@,
            step.0,
            config.temp_alarm_centi_c,
            config.humidity_alarm_centi_percent,
            config.temp_clear_centi_c,
            config.humidity_clear_centi_percent,
        ),
        step.1 == alarm::transition(old(latch)@, final(latch)@),
{
    let sample = sample_or_normal(reading);
    let transition = latch.update(
        sample,
        config.temp_alarm_centi_c,
        config.humidity_alarm_centi_percent,
        config.temp_clear_centi_c,
        config.humidity_clear_centi_percent,
    );
    (sample, transition)
}

/// Every measurement is within the sensor's range.
pub proof fn law_readings_are_in_range(raw: Seq<u8>)
    requires
        raw.len() == 6,
    ensures
        reading_of(raw) matches Ok(sample) ==> -4_500 <= sample.temp_centi_c <= 13_000
            && sample.humidity_centi_percent <= 10_000 && sample.temp_centi_c == temp_of(
            word(raw[0], raw[1]),
        ) && sample.humidity_centi_percent == humidity_of(word(raw[3], raw[4])),
{
}

/// A greater word stands for a temperature and a humidity that are no smaller.
pub proof fn law_readings_are_monotonic(low: int, high: int)
    requires
        0 <= low <= high <= 65_535,
    ensures
        temp_of(low) <= temp_of(high),
        humidity_of(low) <= humidity_of(high),
{
}

/// With the standard thresholds the alarm starts at 30 degrees or 80 percent, and
/// it ends below 29 degrees and 75 percent and not before.
pub proof fn law_standard_thresholds(active: bool, sample: EnvironmentSample)
    ensures
        ({
            let config = Sht40Config::standard();
            let after = alarm::alarm_after(
                active,
                sample,
                config.temp_alarm_centi_c,
                config.humidity_alarm_centi_percent,
                config.temp_clear_centi_c,
                config.humidity_clear_centi_percent,
            );
            &&& !active ==> after == (sample.temp_centi_c >= 3_000 || sample.humidity_centi_percent
                >= 8_000)
            &&& active ==> after == !(sample.temp_centi_c < 2_900 && sample.humidity_centi_percent
                < 7_500)
        }),
{
}

/// A measurement with one damaged byte is never taken for a reading.
pub proof fn law_damaged_reading_is_rejected(raw: Seq<u8>, i: int, byte: u8)
    requires
        raw.len() == 6,
        reading_of(raw) is Ok,
        0 <= i < 6,
        byte != raw[i],
    ensures
        reading_of(raw.update(i, byte)) is Err,
{
    let damaged = raw.update(i, byte);
    if i < 2 {
        assert(damaged.subrange(0, 2) =~= raw.subrange(0, 2).update(i, byte));
        crc::law_crc8_detects_one_byte(raw.subrange(0, 2), i, byte);
    } else if i == 2 {
        assert(damaged.subrange(0, 2) =~= raw.subrange(0, 2));
    } else if i < 5 {
        assert(damaged.subrange(3, 5) =~= raw.subrange(3, 5).update(i - 3, byte));
        crc::law_crc8_detects_one_byte(raw.subrange(3, 5), i - 3, byte);
    } else {
        assert(damaged.subrange(3, 5) =~= raw.subrange(3, 5));
    }
}

/// A measurement is a reading exactly if both checksums are right; otherwise the
/// first wrong one is named. The words have their high byte first. The temperature
/// in hundredths, counted from -45 degrees, is to 175 degrees as the word is to
/// 65535, and the humidity, counted from -6 percent, is to 125 percent likewise,
/// both rounded down; a humidity below 0 or above 100 percent is moved to there.
pub proof fn law_reading_is_in_proportion(raw: Seq<u8>)
    requires
        raw.len() == 6,
    ensures
        ({
            let temp_ok = crc::spec_crc8(raw.subrange(0, 2)) == raw[2];
            let humidity_ok = crc::spec_crc8(raw.subrange(3, 5)) == raw[5];
            let temp_word = 256 * raw[0] + raw[1];
            let humidity_word = 256 * raw[3] + raw[4];
            if !temp_ok {
                reading_of(raw) == Err::<EnvironmentSample, Sht40Error>(
                    Sht40Error::BadTemperatureCrc,
                )
            } else if !humidity_ok {
                reading_of(raw) == Err::<EnvironmentSample, Sht40Error>(Sht40Error::BadHumidityCrc)
            } else {
                &&& reading_of(raw) matches Ok(sample)
                &&& 65_535 * (sample.temp_centi_c + 4_500) <= 17_500 * temp_word < 65_535 * (
                sample.temp_centi_c + 4_501)
                &&& 12_500 * humidity_word < 65_535 * 600 ==> sample.humidity_centi_percent == 0
                &&& 12_500 * humidity_word >= 65_535 * 10_600 ==> sample.humidity_centi_percent
                    == 10_000
                &&& 65_535 * 600 <= 12_500 * humidity_word < 65_535 * 10_600 ==> 65_535 * (
                sample.humidity_centi_percent + 600) <= 12_500 * humidity_word < 65_535 * (
                sample.humidity_centi_percent + 601)
            }
        }),
{
}

/// A sample that was read is used as it is; where none could be read, 24.80 degrees
/// and 62.50 percent stand in.
pub proof fn law_samples_are_used_as_read(reading: Option<EnvironmentSample>)
    ensures
        reading matches Some(sample) ==> sample_or_normal(reading) == sample,
        reading is None ==> sample_or_normal(reading) == (EnvironmentSample {
            temp_centi_c: 2_480,
            humidity_centi_percent: 6_250,
        }),
{
}

} // verus!
