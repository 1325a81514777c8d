//! The addressing model and the frame checksum on concrete values.

use secure_element::checksum::crc16;
use secure_element::error::Error;
use secure_element::memory::{Size, Slot, Zone};

#[test]
fn sizes() {
    assert_eq!(Size::Word.len(), 4);
    assert_eq!(Size::Block.len(), 32);
}

#[test]
fn zone_encoding() {
    assert_eq!(Zone::Config.encode(Size::Word), 0x00);
    assert_eq!(Zone::Otp.encode(Size::Word), 0x01);
    assert_eq!(Zone::Data.encode(Size::Word), 0x02);
    assert_eq!(Zone::Config.encode(Size::Block), 0x80);
    assert_eq!(Zone::Otp.encode(Size::Block), 0x81);
    assert_eq!(Zone::Data.encode(Size::Block), 0x82);
}

#[test]
fn config_zone_addresses() {
    assert_eq!(Zone::Config.get_addr(0, 0).unwrap(), 0);
    assert_eq!(Zone::Config.get_addr(1, 2).unwrap(), 10);
    assert_eq!(Zone::Config.get_addr(3, 7).unwrap(), 31);
    assert_eq!(Zone::Config.get_addr(4, 0).unwrap_err(), Error::BadParam);
    assert_eq!(Zone::Config.get_addr(0, 8).unwrap_err(), Error::BadParam);
}

#[test]
fn otp_zone_addresses() {
    assert_eq!(Zone::Otp.get_addr(1, 7).unwrap(), 15);
    assert_eq!(Zone::Otp.get_addr(2, 0).unwrap_err(), Error::BadParam);
}

#[test]
fn data_zone_is_addressed_through_slots() {
    assert_eq!(Zone::Data.get_addr(0, 0).unwrap_err(), Error::BadParam);
    assert_eq!(Zone::Data.get_slot_addr(Slot::Slot2, 1).unwrap(), 0x0110);
    assert_eq!(Zone::Data.get_slot_addr(Slot::Slot15, 2).unwrap(), 0x0278);
    assert_eq!(
        Zone::Data.get_slot_addr(Slot::Slot0, 2).unwrap_err(),
        Error::BadParam
    );
    assert_eq!(
        Zone::Config.get_slot_addr(Slot::Slot0, 0).unwrap_err(),
        Error::BadParam
    );
}

#[test]
fn slot_capabilities() {
    assert!(Slot::Slot0.is_private_key());
    assert!(Slot::Slot7.is_private_key());
    assert!(!Slot::Slot8.is_private_key());
    assert!(!Slot::Slot15.is_private_key());
    assert_eq!(Slot::Slot8.block_count(), 13);
    assert_eq!(Slot::Slot9.block_count(), 3);
    assert_eq!(Slot::Slot1.block_count(), 2);
}

#[test]
fn checksum_of_known_bodies() {
    let body = vec![0x07u8, 0x47, 0x00, 0x00, 0x00];
    assert_eq!(crc16(&body), 0x852e);
    let empty: Vec<u8> = Vec::new();
    assert_eq!(crc16(&empty), 0);
}
