use beacn_lib::audio::messages::exciter::{Exciter, ExciterFreq, ExciterKeys};
use beacn_lib::audio::messages::{DeviceMessageType, Message, EXCITER_FAMILY};
use beacn_lib::manager::DeviceType;
use beacn_lib::types::{DecodeError, Percent, Ranged};

fn percent(value: f32) -> Percent {
    Percent::new(value.to_bits()).unwrap()
}

fn frequency(value: f32) -> ExciterFreq {
    ExciterFreq::new(value.to_bits()).unwrap()
}

#[test]
fn field_codes_are_one_two_three() {
    assert_eq!(ExciterKeys::Amount.code(), 0x01);
    assert_eq!(ExciterKeys::Frequency.code(), 0x02);
    assert_eq!(ExciterKeys::Enabled.code(), 0x03);
}

#[test]
fn fields_are_found_by_their_codes() {
    assert_eq!(ExciterKeys::from_code(0x01), Some(ExciterKeys::Amount));
    assert_eq!(ExciterKeys::from_code(0x02), Some(ExciterKeys::Frequency));
    assert_eq!(ExciterKeys::from_code(0x03), Some(ExciterKeys::Enabled));
    assert_eq!(ExciterKeys::from_code(0x00), None);
    assert_eq!(ExciterKeys::from_code(0x04), None);
    assert_eq!(ExciterKeys::from_code(0xff), None);
    for field in ExciterKeys::all() {
        assert_eq!(ExciterKeys::from_code(field.code()), Some(field));
    }
}

#[test]
fn all_fields_come_by_rising_code() {
    assert_eq!(
        ExciterKeys::all(),
        [ExciterKeys::Amount, ExciterKeys::Frequency, ExciterKeys::Enabled]
    );
}

#[test]
fn the_exciter_is_common_to_all_devices() {
    assert_eq!(Exciter::GetAmount.get_device_message_type(), DeviceMessageType::Common);
    assert_eq!(Exciter::Enabled(true).get_device_message_type(), DeviceMessageType::Common);
    assert_eq!(
        Message::Exciter(Exciter::GetFrequency).get_device_message_type(),
        DeviceMessageType::Common
    );
}

#[test]
fn only_values_are_set_messages() {
    assert!(Exciter::Amount(percent(1.0)).is_device_message_set());
    assert!(Exciter::Frequency(frequency(1.0)).is_device_message_set());
    assert!(Exciter::Enabled(false).is_device_message_set());
    assert!(!Exciter::GetAmount.is_device_message_set());
    assert!(!Exciter::GetFrequency.is_device_message_set());
    assert!(!Exciter::GetEnabled.is_device_message_set());
    assert!(Message::Exciter(Exciter::Enabled(true)).is_device_message_set());
    assert!(!Message::Exciter(Exciter::GetEnabled).is_device_message_set());
}

#[test]
fn request_and_value_share_the_key() {
    assert_eq!(Exciter::GetAmount.to_beacn_key(), [0x01, 0x00]);
    assert_eq!(Exciter::Amount(percent(50.0)).to_beacn_key(), [0x01, 0x00]);
    assert_eq!(Exciter::GetFrequency.to_beacn_key(), [0x02, 0x00]);
    assert_eq!(Exciter::Frequency(frequency(50.0)).to_beacn_key(), [0x02, 0x00]);
    assert_eq!(Exciter::GetEnabled.to_beacn_key(), [0x03, 0x00]);
    assert_eq!(Exciter::Enabled(true).to_beacn_key(), [0x03, 0x00]);
}

#[test]
fn each_message_knows_its_field() {
    assert_eq!(Exciter::GetAmount.key(), ExciterKeys::Amount);
    assert_eq!(Exciter::Frequency(frequency(0.0)).key(), ExciterKeys::Frequency);
    assert_eq!(Exciter::Enabled(true).key(), ExciterKeys::Enabled);
    for field in ExciterKeys::all() {
        assert_eq!(Exciter::getter(field).key(), field);
        assert!(!Exciter::getter(field).is_device_message_set());
    }
}

#[test]
fn values_are_encoded_in_four_bytes() {
    assert_eq!(Exciter::Amount(percent(100.0)).to_beacn_value(), [0x00, 0x00, 0xC8, 0x42]);
    assert_eq!(Exciter::Frequency(frequency(5000.0)).to_beacn_value(), [0x00, 0x40, 0x9C, 0x45]);
    assert_eq!(Exciter::Enabled(true).to_beacn_value(), [1, 0, 0, 0]);
    assert_eq!(Exciter::Enabled(false).to_beacn_value(), [0, 0, 0, 0]);
}

#[test]
fn values_are_decoded_by_field_code() {
    let device = DeviceType::BeacnMic;
    assert_eq!(
        Exciter::from_beacn([0x01, 0x00], [0x00, 0x00, 0xC8, 0x42], device),
        Exciter::Amount(percent(100.0))
    );
    assert_eq!(
        Exciter::from_beacn([0x02, 0x00], [0x00, 0x00, 0xC8, 0x42], device),
        Exciter::Frequency(frequency(100.0))
    );
    assert_eq!(Exciter::from_beacn([0x03, 0x00], [1, 0, 0, 0], device), Exciter::Enabled(true));
    assert_eq!(
        Exciter::try_from_beacn([0x03, 0x00], [0, 0, 0, 0], DeviceType::BeacnStudio),
        Ok(Exciter::Enabled(false))
    );
}

#[test]
fn the_second_key_byte_is_padding() {
    assert_eq!(
        Exciter::try_from_beacn([0x03, 0x7f], [1, 0, 0, 0], DeviceType::BeacnMic),
        Ok(Exciter::Enabled(true))
    );
}

#[test]
fn an_unknown_field_code_does_not_decode() {
    for code in [0x00u8, 0x04, 0x0b, 0xff] {
        assert_eq!(
            Exciter::try_from_beacn([code, 0x00], [0, 0, 0, 0], DeviceType::BeacnMic),
            Err(DecodeError::UnknownField)
        );
    }
}

#[test]
fn a_value_outside_its_bound_does_not_decode() {
    let device = DeviceType::BeacnMic;
    assert_eq!(
        Exciter::try_from_beacn([0x01, 0x00], 100.5f32.to_le_bytes(), device),
        Err(DecodeError::MalformedValue)
    );
    assert_eq!(
        Exciter::try_from_beacn([0x02, 0x00], 6000.0f32.to_le_bytes(), device),
        Err(DecodeError::MalformedValue)
    );
    assert_eq!(
        Exciter::try_from_beacn([0x02, 0x00], f32::NAN.to_le_bytes(), device),
        Err(DecodeError::MalformedValue)
    );
    assert_eq!(
        Exciter::try_from_beacn([0x03, 0x00], [2, 0, 0, 0], device),
        Err(DecodeError::MalformedValue)
    );
}

#[test]
fn what_is_sent_is_what_comes_back() {
    let values = [
        Exciter::Amount(percent(0.0)),
        Exciter::Amount(percent(37.5)),
        Exciter::Amount(percent(100.0)),
        Exciter::Frequency(frequency(0.0)),
        Exciter::Frequency(frequency(1234.5)),
        Exciter::Frequency(frequency(5000.0)),
        Exciter::Enabled(true),
        Exciter::Enabled(false),
    ];
    for device in [DeviceType::BeacnMic, DeviceType::BeacnStudio] {
        for value in values {
            let key = Exciter::getter(value.key()).to_beacn_key();
            assert_eq!(Exciter::from_beacn(key, value.to_beacn_value(), device), value);
            assert_eq!(Exciter::try_from_beacn(key, value.to_beacn_value(), device), Ok(value));
        }
    }
}

#[test]
fn the_fetch_list_asks_for_every_field_in_order() {
    let expected = vec![
        Message::Exciter(Exciter::GetAmount),
        Message::Exciter(Exciter::GetFrequency),
        Message::Exciter(Exciter::GetEnabled),
    ];
    assert_eq!(Exciter::generate_fetch_message(DeviceType::BeacnMic), expected);
    assert_eq!(Exciter::generate_fetch_message(DeviceType::BeacnStudio), expected);
}

#[test]
fn the_protocol_key_is_family_then_field() {
    assert_eq!(Message::Exciter(Exciter::GetAmount).to_beacn_key(), [EXCITER_FAMILY, 0x01, 0x00]);
    assert_eq!(
        Message::Exciter(Exciter::Frequency(frequency(1.0))).to_beacn_key(),
        [EXCITER_FAMILY, 0x02, 0x00]
    );
    assert_eq!(Message::Exciter(Exciter::Enabled(true)).to_beacn_key(), [EXCITER_FAMILY, 0x03, 0x00]);
}

#[test]
fn the_protocol_value_is_that_of_the_family() {
    assert_eq!(
        Message::Exciter(Exciter::Amount(percent(100.0))).to_beacn_value(),
        [0x00, 0x00, 0xC8, 0x42]
    );
    assert_eq!(Message::Exciter(Exciter::Enabled(true)).to_beacn_value(), [1, 0, 0, 0]);
}

#[test]
fn a_reply_is_decoded_by_family_and_field() {
    let reply = [EXCITER_FAMILY, 0x01, 0x00, 0xa4, 0x00, 0x00, 0xC8, 0x42];
    assert_eq!(
        Message::from_beacn_message(reply, DeviceType::BeacnMic),
        Message::Exciter(Exciter::Amount(percent(100.0)))
    );
    assert_eq!(
        Message::try_from_beacn_message(reply, DeviceType::BeacnStudio),
        Ok(Message::Exciter(Exciter::Amount(percent(100.0))))
    );
    let reply = [EXCITER_FAMILY, 0x03, 0x00, 0xa4, 0x01, 0x00, 0x00, 0x00];
    assert_eq!(
        Message::try_from_beacn_message(reply, DeviceType::BeacnMic),
        Ok(Message::Exciter(Exciter::Enabled(true)))
    );
}

#[test]
fn a_reply_of_an_unknown_family_does_not_decode() {
    let reply = [EXCITER_FAMILY + 1, 0x01, 0x00, 0xa4, 0x00, 0x00, 0xC8, 0x42];
    assert_eq!(
        Message::try_from_beacn_message(reply, DeviceType::BeacnMic),
        Err(DecodeError::UnknownField)
    );
}

#[test]
fn a_reply_with_an_unknown_field_or_a_bad_value_does_not_decode() {
    let reply = [EXCITER_FAMILY, 0x09, 0x00, 0xa4, 0x00, 0x00, 0xC8, 0x42];
    assert_eq!(
        Message::try_from_beacn_message(reply, DeviceType::BeacnMic),
        Err(DecodeError::UnknownField)
    );
    let reply = [EXCITER_FAMILY, 0x03, 0x00, 0xa4, 0x05, 0x00, 0x00, 0x00];
    assert_eq!(
        Message::try_from_beacn_message(reply, DeviceType::BeacnMic),
        Err(DecodeError::MalformedValue)
    );
}
