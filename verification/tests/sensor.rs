use thermo_report::sensor::{
    decode, word_from_bytes, SensorFault, SensorReader, TemperatureSample, FAULT_MASK,
    MAX_QUARTER_DEGREES,
};

#[test]
fn fault_bit_set_never_gives_a_sample() {
    let mut raw: u32 = 0;
    while raw <= 0xffff {
        let word: u16 = raw as u16;
        if word & 0x0004 != 0 {
            assert_eq!(decode(word), Err(SensorFault));
        }
        raw += 1;
    }
}

#[test]
fn fault_bit_clear_gives_the_shifted_reading() {
    let mut raw: u32 = 0;
    while raw <= 0xffff {
        let word: u16 = raw as u16;
        if word & 0x0004 == 0 {
            let sample: TemperatureSample = decode(word).unwrap();
            assert_eq!(sample.quarter_degrees(), word >> 3);
            assert_eq!(sample.hundredths(), 25 * u32::from(word >> 3));
        }
        raw += 1;
    }
}

#[test]
fn decoded_temperature_is_a_quarter_of_the_reading() {
    let mut raw: u32 = 0;
    while raw <= 0xffff {
        let word: u16 = raw as u16;
        if word & 0x0004 == 0 {
            let sample: TemperatureSample = decode(word).unwrap();
            let degrees: f32 = f32::from(sample.quarter_degrees()) * 0.25;
            assert_eq!(degrees, f32::from(word >> 3) * 0.25);
            assert_eq!(degrees * 100.0, sample.hundredths() as f32);
        }
        raw += 1;
    }
}

#[test]
fn room_temperature_word() {
    // 23.5 degrees: 94 quarter degrees, shifted past the three low bits.
    let sample: TemperatureSample = decode(94 << 3).unwrap();
    assert_eq!(sample.quarter_degrees(), 94);
    assert_eq!(sample.hundredths(), 2350);
}

#[test]
fn low_bits_other_than_the_flag_are_ignored() {
    assert_eq!(decode(0x0190).unwrap().quarter_degrees(), 50);
    assert_eq!(decode(0x0191).unwrap().quarter_degrees(), 50);
    assert_eq!(decode(0x0192).unwrap().quarter_degrees(), 50);
    assert_eq!(decode(0x0193).unwrap().quarter_degrees(), 50);
    assert_eq!(decode(0x0194), Err(SensorFault));
    assert_eq!(decode(0x0197), Err(SensorFault));
}

#[test]
fn extreme_words() {
    assert_eq!(decode(0x0000).unwrap().quarter_degrees(), 0);
    assert_eq!(decode(0x0000).unwrap().hundredths(), 0);
    assert_eq!(decode(0xfffb).unwrap().quarter_degrees(), 8191);
    assert_eq!(decode(0xfffb).unwrap().hundredths(), 204_775);
    assert_eq!(decode(0xffff), Err(SensorFault));
    assert_eq!(decode(0x0004), Err(SensorFault));
}

#[test]
fn bytes_join_most_significant_first() {
    assert_eq!(word_from_bytes([0x00, 0x00]), 0x0000);
    assert_eq!(word_from_bytes([0x01, 0x90]), 0x0190);
    assert_eq!(word_from_bytes([0x90, 0x01]), 0x9001);
    assert_eq!(word_from_bytes([0xff, 0xff]), 0xffff);
    assert_eq!(word_from_bytes([0x12, 0x34]), u16::from_be_bytes([0x12, 0x34]));
}

#[test]
fn reader_decodes_a_transfer() {
    assert_eq!(SensorReader::read([0x01, 0x90]).unwrap().quarter_degrees(), 50);
    assert_eq!(SensorReader::read([0x00, 0x04]), Err(SensorFault));
    assert_eq!(SensorReader::read([0x04, 0x00]).unwrap().quarter_degrees(), 128);
    let mut raw: u32 = 0;
    while raw <= 0xffff {
        let word: u16 = raw as u16;
        assert_eq!(SensorReader::read(word.to_be_bytes()), decode(word));
        raw += 251;
    }
}

#[test]
fn samples_are_made_from_counts_in_range_only() {
    assert_eq!(TemperatureSample::from_quarter_degrees(0).unwrap().quarter_degrees(), 0);
    assert_eq!(TemperatureSample::from_quarter_degrees(8191).unwrap().quarter_degrees(), 8191);
    assert_eq!(TemperatureSample::from_quarter_degrees(8192), None);
    assert_eq!(TemperatureSample::from_quarter_degrees(u16::MAX), None);
    assert_eq!(TemperatureSample::from_quarter_degrees(94), Some(decode(94 << 3).unwrap()));
}

#[test]
fn sensor_constants() {
    assert_eq!(FAULT_MASK, 0x0004);
    assert_eq!(MAX_QUARTER_DEGREES, 8191);
}
