//! Validating conversions of raw response buffers into the typed
//! fixed-width values, including the round trips through the byte views.

use secure_element::command::{Block, Digest, Nonce, PremasterSecret, Serial, Signature, Word};
use secure_element::error::Error;

#[test]
fn word_round_trip() {
    let word = Word::try_from(&[1, 2, 3, 4]).unwrap();
    assert_eq!(word.as_ref(), &[1, 2, 3, 4]);
}

#[test]
fn word_rejects_wrong_lengths() {
    assert_eq!(Word::try_from(&[]).unwrap_err(), Error::BadParam);
    assert_eq!(Word::try_from(&[1, 2, 3]).unwrap_err(), Error::BadParam);
    assert_eq!(Word::try_from(&[1, 2, 3, 4, 5]).unwrap_err(), Error::BadParam);
}

#[test]
fn block_round_trip() {
    let mut bytes = [0u8; 32];
    for (i, b) in bytes.iter_mut().enumerate() {
        *b = i as u8;
    }
    let block = Block::try_from(&bytes).unwrap();
    assert_eq!(block.as_ref(), &bytes);
}

#[test]
fn word_bytes_can_be_edited_in_place() {
    let mut word = Word::try_from(&[1, 2, 3, 4]).unwrap();
    word.as_mut()[0] = 9;
    assert_eq!(word.as_ref(), &[9, 2, 3, 4]);
}

#[test]
fn block_bytes_can_be_edited_in_place() {
    let mut block = Block::try_from(&[0u8; 32]).unwrap();
    block.as_mut().copy_from_slice(&[7u8; 32]);
    assert_eq!(block.as_ref(), &[7u8; 32]);
}

#[test]
fn block_rejects_wrong_lengths() {
    assert_eq!(Block::try_from(&[0u8; 16]).unwrap_err(), Error::BadParam);
    assert_eq!(Block::try_from(&[0u8; 31]).unwrap_err(), Error::BadParam);
    assert_eq!(Block::try_from(&[0u8; 33]).unwrap_err(), Error::BadParam);
}

#[test]
fn serial_reassembles_non_contiguous_ranges() {
    let mut buffer = [0xffu8; 32];
    buffer[0..4].copy_from_slice(&[1, 2, 3, 4]);
    buffer[8..13].copy_from_slice(&[5, 6, 7, 8, 9]);
    let serial = Serial::try_from(&buffer).unwrap();
    assert_eq!(serial.as_ref(), &[1, 2, 3, 4, 5, 6, 7, 8, 9]);
}

#[test]
fn serial_rejects_wrong_lengths() {
    assert_eq!(Serial::try_from(&[0u8; 9]).unwrap_err(), Error::BadParam);
    assert_eq!(Serial::try_from(&[0u8; 13]).unwrap_err(), Error::BadParam);
    assert_eq!(Serial::try_from(&[0u8; 31]).unwrap_err(), Error::BadParam);
}

#[test]
fn digest_round_trip() {
    let bytes = [0xabu8; 32];
    let digest = Digest::try_from(&bytes).unwrap();
    assert_eq!(digest.as_ref(), &bytes);
}

#[test]
fn digest_rejects_wrong_lengths() {
    assert_eq!(Digest::try_from(&[0u8; 20]).unwrap_err(), Error::BadParam);
    assert_eq!(Digest::try_from(&[0u8; 64]).unwrap_err(), Error::BadParam);
}

#[test]
fn signature_round_trip() {
    let mut bytes = [0u8; 64];
    for (i, b) in bytes.iter_mut().enumerate() {
        *b = (i * 3) as u8;
    }
    let signature = Signature::from_bytes(&bytes).unwrap();
    assert_eq!(signature.as_ref(), &bytes);
}

#[test]
fn signature_rejects_wrong_lengths() {
    assert_eq!(Signature::from_bytes(&[0u8; 63]).unwrap_err(), Error::InvalidSize);
    assert_eq!(Signature::from_bytes(&[0u8; 65]).unwrap_err(), Error::InvalidSize);
    assert_eq!(Signature::from_bytes(&[]).unwrap_err(), Error::InvalidSize);
}

#[test]
fn premaster_secret_round_trip() {
    let bytes = [0x42u8; 32];
    let secret = PremasterSecret::try_from(&bytes).unwrap();
    assert_eq!(secret.as_ref(), &bytes);
    assert_eq!(PremasterSecret::try_from(&[0u8; 16]).unwrap_err(), Error::BadParam);
}

#[test]
fn nonce_round_trip() {
    let bytes = [0x24u8; 32];
    let nonce = Nonce::try_from(&bytes).unwrap();
    assert_eq!(nonce.as_ref(), &bytes);
    assert_eq!(Nonce::try_from(&[0u8; 33]).unwrap_err(), Error::BadParam);
}
