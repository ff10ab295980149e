use beacn_lib::audio::messages::exciter::ExciterFreq;
use beacn_lib::types::{
    read_bits, read_bool, read_value, write_bits, write_bool, write_value, DecodeError, Percent,
    Ranged,
};

#[test]
fn bits_are_written_least_significant_byte_first() {
    assert_eq!(write_bits(0x42C8_0000), [0x00, 0x00, 0xC8, 0x42]);
    assert_eq!(write_bits(0x0102_0304), [0x04, 0x03, 0x02, 0x01]);
    assert_eq!(write_bits(0), [0, 0, 0, 0]);
    assert_eq!(write_bits(u32::MAX), [0xff, 0xff, 0xff, 0xff]);
}

#[test]
fn bits_are_read_least_significant_byte_first() {
    assert_eq!(read_bits(&[0x00, 0x00, 0xC8, 0x42]), 0x42C8_0000);
    assert_eq!(read_bits(&[0x04, 0x03, 0x02, 0x01]), 0x0102_0304);
    assert_eq!(read_bits(&[0x78, 0x56, 0x34, 0x12]), 0x1234_5678);
}

#[test]
fn bits_survive_writing_and_reading() {
    for bits in [0u32, 1, 0xff, 0x100, 0x42C8_0000, 0x8000_0000, 0xdead_beef, u32::MAX] {
        assert_eq!(read_bits(&write_bits(bits)), bits);
    }
}

#[test]
fn one_hundred_is_written_as_the_float_is() {
    assert_eq!(write_bits(100.0f32.to_bits()), 100.0f32.to_le_bytes());
    assert_eq!(write_bits(5000.0f32.to_bits()), 5000.0f32.to_le_bytes());
}

#[test]
fn flags_are_one_byte_and_three_zeros() {
    assert_eq!(write_bool(true), [1, 0, 0, 0]);
    assert_eq!(write_bool(false), [0, 0, 0, 0]);
}

#[test]
fn flags_are_read_from_the_low_byte() {
    assert_eq!(read_bool(&[0, 0, 0, 0]), Ok(false));
    assert_eq!(read_bool(&[1, 0, 0, 0]), Ok(true));
    assert_eq!(read_bool(&[1, 9, 8, 7]), Ok(true));
    assert_eq!(read_bool(&[0, 0, 0, 1]), Ok(false));
}

#[test]
fn a_low_byte_above_one_is_no_flag() {
    assert_eq!(read_bool(&[2, 0, 0, 0]), Err(DecodeError::MalformedValue));
    assert_eq!(read_bool(&[0xff, 0, 0, 0]), Err(DecodeError::MalformedValue));
}

#[test]
fn flags_survive_writing_and_reading() {
    assert_eq!(read_bool(&write_bool(true)), Ok(true));
    assert_eq!(read_bool(&write_bool(false)), Ok(false));
}

#[test]
fn percent_takes_zero_to_one_hundred() {
    for value in [0.0f32, 0.5, 1.0, 33.3, 99.999, 100.0] {
        let made = Percent::new(value.to_bits()).expect("in range");
        assert_eq!(f32::from_bits(made.to_bits()), value);
    }
}

#[test]
fn percent_refuses_what_lies_outside() {
    for value in [100.00001f32, 101.0, 6000.0, f32::MAX, -0.001, -1.0, -100.0, f32::MIN] {
        assert_eq!(Percent::new(value.to_bits()), None);
    }
}

#[test]
fn percent_refuses_what_is_no_number() {
    assert_eq!(Percent::new(f32::INFINITY.to_bits()), None);
    assert_eq!(Percent::new(f32::NEG_INFINITY.to_bits()), None);
    assert_eq!(Percent::new(f32::NAN.to_bits()), None);
    assert_eq!(Percent::new(0x7fc0_0001), None);
    assert_eq!(Percent::new(0xffc0_0000), None);
}

#[test]
fn negative_zero_is_zero() {
    let made = Percent::new((-0.0f32).to_bits()).expect("zero is in range");
    assert_eq!(made.to_bits(), 0x8000_0000);
    assert!(ExciterFreq::new(0x8000_0000).is_some());
}

#[test]
fn frequency_of_six_thousand_is_refused() {
    assert_eq!(ExciterFreq::new(6000.0f32.to_bits()), None);
    assert_eq!(ExciterFreq::new(5000.001f32.to_bits()), None);
}

#[test]
fn frequency_takes_zero_to_five_thousand() {
    for value in [0.0f32, 20.0, 4999.9995, 5000.0] {
        let made = ExciterFreq::new(value.to_bits()).expect("in range");
        assert_eq!(f32::from_bits(made.to_bits()), value);
    }
}

#[test]
fn ranges_agree_with_the_order_of_floats() {
    let mut bits: u32 = 0;
    loop {
        let value = f32::from_bits(bits);
        assert_eq!(Percent::new(bits).is_some(), (0.0..=100.0).contains(&value), "{bits:#x}");
        assert_eq!(ExciterFreq::new(bits).is_some(), (0.0..=5000.0).contains(&value), "{bits:#x}");
        match bits.checked_add(0x0000_ffff) {
            Some(next) => bits = next,
            None => break,
        }
    }
}

#[test]
fn ranged_values_are_written_as_their_bits() {
    let amount = Percent::new(100.0f32.to_bits()).unwrap();
    assert_eq!(write_value(&amount), [0x00, 0x00, 0xC8, 0x42]);
    let frequency = ExciterFreq::new(5000.0f32.to_bits()).unwrap();
    assert_eq!(write_value(&frequency), [0x00, 0x40, 0x9C, 0x45]);
}

#[test]
fn ranged_values_are_read_and_checked() {
    assert_eq!(read_value::<Percent>(&[0x00, 0x00, 0xC8, 0x42]), Ok(Percent::new(0x42C8_0000).unwrap()));
    assert_eq!(read_value::<Percent>(&[0x01, 0x00, 0xC8, 0x42]), Err(DecodeError::MalformedValue));
    assert_eq!(read_value::<ExciterFreq>(&[0x01, 0x00, 0xC8, 0x42]), Ok(ExciterFreq::new(0x42C8_0001).unwrap()));
    assert_eq!(read_value::<ExciterFreq>(&6000.0f32.to_le_bytes()), Err(DecodeError::MalformedValue));
    assert_eq!(read_value::<Percent>(&f32::NAN.to_le_bytes()), Err(DecodeError::MalformedValue));
    assert_eq!(read_value::<Percent>(&f32::INFINITY.to_le_bytes()), Err(DecodeError::MalformedValue));
}

#[test]
fn ranged_values_survive_writing_and_reading() {
    for value in [0.0f32, 12.5, 100.0] {
        let amount = Percent::new(value.to_bits()).unwrap();
        assert_eq!(read_value::<Percent>(&write_value(&amount)), Ok(amount));
    }
    for value in [0.0f32, 440.0, 5000.0] {
        let frequency = ExciterFreq::new(value.to_bits()).unwrap();
        assert_eq!(read_value::<ExciterFreq>(&write_value(&frequency)), Ok(frequency));
    }
}
