use nue::auth::{Token, TokenStrategy, TokenStrategyExt};
use nue::card::{
    CardRow, NfcCard, NfcCardBuilder, SubStatus, SubTier, Timestamp, MAX_UTC_TIMESTAMP,
    MIN_UTC_TIMESTAMP,
};
use nue::error::Error;
use nue::raw_card::{CardID, RawCard};
use nue::storage::Memory;

#[test]
fn test_token() {
    let mut buf = [0; 32];
    getrandom::fill(&mut buf).unwrap();

    let (token, raw) = Token::encrypt(&buf).unwrap();
    let decrypted = token.decrypt(&buf).unwrap();

    assert_eq!(raw, decrypted);
}

#[test]
fn test() {
    let card = NfcCardBuilder::new()
        .username("test")
        .uid(CardID::new_zeroed())
        .finish();
    assert!(card.username() == "test" && card.uid().as_slice() == [0; 10]);
}

#[test]
fn token_parts_follow_layout() {
    let nonce = [1u8; 12];
    let secret = [2u8; 16];
    let tag = [3u8; 16];
    let t = Token::from_raw(nonce, secret, tag);
    assert_eq!(t.nonce(), &nonce);
    assert_eq!(t.token(), &secret);
    assert_eq!(t.tag(), &tag);
    let d = Token::default();
    assert_eq!(d.nonce(), &[0u8; 12]);
    assert_eq!(d.token(), &[0u8; 16]);
    assert_eq!(d.tag(), &[0u8; 16]);
}

#[test]
fn encrypt_with_seals_and_decrypt_opens() {
    let key = [7u8; 32];
    let nonce = [9u8; 12];
    let plaintext = [0x55u8; 16];
    let (t, p) = Token::encrypt_with(&key, nonce, plaintext).unwrap();
    assert_eq!(p, plaintext);
    assert_eq!(t.nonce(), &nonce);
    // The sealed secret is not the plaintext itself.
    assert_ne!(t.token(), &plaintext);
    assert_eq!(t.decrypt(&key).unwrap(), plaintext);
    // Sealing is a function of key, nonce and plaintext.
    let (t2, _) = Token::encrypt_with(&key, nonce, plaintext).unwrap();
    assert!(t == t2);
}

#[test]
fn encrypt_with_short_key_is_convert_error() {
    let r = Token::encrypt_with(&[0u8; 31], [0u8; 12], [0u8; 16]);
    assert!(matches!(r, Err(Error::ConvertError(_))));
}

#[test]
fn encrypt_with_short_key_fails() {
    let r = Token::encrypt(&[1u8; 16]);
    assert!(matches!(r, Err(Error::ConvertError(_))));
}

#[test]
fn decrypt_with_wrong_key_is_decryption_error() {
    let (t, _) = Token::encrypt(&[4u8; 32]).unwrap();
    let r = t.decrypt(&[5u8; 32]);
    assert!(matches!(r, Err(Error::CardDecryptionError)));
}

#[test]
fn decrypt_with_key_of_wrong_length_is_convert_error() {
    let t = Token::default();
    assert!(matches!(t.decrypt(&[0u8; 33]), Err(Error::ConvertError(_))));
    assert!(matches!(t.decrypt(&[]), Err(Error::ConvertError(_))));
}

#[test]
fn decrypt_tampered_token_is_decryption_error() {
    let key = [8u8; 32];
    let (t, _) = Token::encrypt_with(&key, [1u8; 12], [2u8; 16]).unwrap();
    let mut secret = [0u8; 16];
    secret.copy_from_slice(t.token());
    secret[0] ^= 1;
    let mut nonce = [0u8; 12];
    nonce.copy_from_slice(t.nonce());
    let mut tag = [0u8; 16];
    tag.copy_from_slice(t.tag());
    let forged = Token::from_raw(nonce, secret, tag);
    assert!(matches!(forged.decrypt(&key), Err(Error::CardDecryptionError)));
}

#[test]
fn aead_error_becomes_decryption_error() {
    let e: Error = chacha20poly1305::Error.into();
    assert!(matches!(e, Error::CardDecryptionError));
}

#[test]
fn error_messages() {
    assert_eq!(Error::NfcReadError.message(), "Failed to read NFC card");
    assert_eq!(Error::NfcWriteError.message(), "Failed to write NFC card");
    assert_eq!(Error::NfcCardEmpty.message(), "This card is empty or unintialized");
    assert_eq!(Error::NfcCardUnrecognized.message(), "NFC card unrecognized");
    assert_eq!(Error::CardAlreadyExist.message(), "Card already exists");
    assert_eq!(Error::CardNotFound.message(), "Card not found");
    assert_eq!(Error::CardDecryptionError.message(), "Card decryption error");
    assert_eq!(Error::CardEncryptionError.message(), "Card encryption error");
    assert_eq!(Error::CommitError.message(), "Storage failed to commit");
    assert_eq!(Error::DBError.message(), "Database storage error");
    let m = Error::from(getrandom::Error::UNSUPPORTED).message();
    assert!(m.starts_with("Failed to fill bytes: "));
    assert!(m.len() > "Failed to fill bytes: ".len());
    let slice_err = <[u8; 2]>::try_from(&[1u8][..]).unwrap_err();
    let m = Error::from(slice_err).message();
    assert!(m.starts_with("Failed to convert: "));
    assert!(m.len() > "Failed to convert: ".len());
}

#[test]
fn uid_as_text() {
    let id = CardID::from([0x04, 0xA1, 0xFF, 0x3C, 0x10, 0x20, 0x30, 0x40, 0x50, 0x60]);
    assert_eq!(id.as_str(), "04:A1:FF:3C");
    assert_eq!(CardID::new_zeroed().as_str(), "00:00:00:00");
    let id = CardID([0x0F, 0xF0, 0x9A, 0xB5, 0, 0, 0, 0, 0, 0]);
    assert_eq!(id.as_str(), "0F:F0:9A:B5");
    assert_eq!(id.as_slice(), &[0x0F, 0xF0, 0x9A, 0xB5, 0, 0, 0, 0, 0, 0]);
    let bytes: &[u8] = id.as_ref();
    assert_eq!(bytes, &[0x0F, 0xF0, 0x9A, 0xB5, 0, 0, 0, 0, 0, 0]);
}

#[test]
fn raw_card_bytes_roundtrip() {
    let t = Token::from_raw([1u8; 12], [2u8; 16], [3u8; 16]);
    let c = RawCard::new(t);
    let bytes = c.as_slice();
    assert_eq!(bytes.len(), 44);
    assert_eq!(&bytes[..12], &[1u8; 12]);
    assert_eq!(&bytes[12..28], &[2u8; 16]);
    assert_eq!(&bytes[28..], &[3u8; 16]);
    let back = RawCard::from_bytes(&bytes).unwrap();
    assert!(back == c);
    assert_eq!(RawCard::zeroed().as_slice(), vec![0u8; 44]);
}

#[test]
fn raw_card_from_bytes_needs_44_bytes() {
    assert!(RawCard::from_bytes(&[0u8; 43]).is_none());
    assert!(RawCard::from_bytes(&[0u8; 45]).is_none());
    assert!(RawCard::from_bytes(&[]).is_none());
    let b: Vec<u8> = (0..44).collect();
    assert_eq!(RawCard::from_bytes(&b).unwrap().as_slice(), b);
}

#[test]
fn tier_and_status_from_numbers() {
    assert_eq!(SubTier::from(0), SubTier::Basic);
    assert_eq!(SubTier::from(1), SubTier::VIP);
    assert_eq!(SubTier::from(200), SubTier::VIP);
    assert_eq!(SubStatus::from(0), SubStatus::Active);
    assert_eq!(SubStatus::from(1), SubStatus::Inactive);
    assert_eq!(SubStatus::from(7), SubStatus::Inactive);
    assert_eq!(SubTier::default(), SubTier::Basic);
    assert_eq!(SubStatus::default(), SubStatus::Inactive);
}

#[test]
fn timestamp_range_matches_utc() {
    assert_eq!(Timestamp::from_secs(0).unwrap().secs(), 0);
    assert_eq!(Timestamp::from_secs(1431648000).unwrap().secs(), 1431648000);
    assert_eq!(Timestamp::from_secs(MIN_UTC_TIMESTAMP).unwrap().secs(), MIN_UTC_TIMESTAMP);
    assert_eq!(Timestamp::from_secs(MAX_UTC_TIMESTAMP).unwrap().secs(), MAX_UTC_TIMESTAMP);
    assert!(Timestamp::from_secs(MIN_UTC_TIMESTAMP - 1).is_none());
    assert!(Timestamp::from_secs(MAX_UTC_TIMESTAMP + 1).is_none());
    assert!(Timestamp::from_secs(i64::MAX).is_none());
    assert!(Timestamp::from_secs(i64::MIN).is_none());
}

#[test]
fn timestamp_bounds_are_chrono_bounds() {
    assert_eq!(chrono::DateTime::<chrono::Utc>::MIN_UTC.timestamp(), MIN_UTC_TIMESTAMP);
    assert_eq!(chrono::DateTime::<chrono::Utc>::MAX_UTC.timestamp(), MAX_UTC_TIMESTAMP);
}

#[test]
fn builder_defaults() {
    let card = NfcCardBuilder::new().finish();
    assert_eq!(card.username(), "");
    assert_eq!(card.membership_id(), 0);
    assert_eq!(card.uid().as_slice(), &[0u8; 10]);
    assert_eq!(card.subscription_tier(), SubTier::Basic);
    assert_eq!(card.subscription_status(), SubStatus::Inactive);
    assert!(card.subscription_start().is_none());
    assert!(card.subscription_end().is_none());
    assert!(card.last_used().is_none());
}

#[test]
fn builder_sets_every_field() {
    let card = NfcCardBuilder::new()
        .uid([9; 10].into())
        .username("faris")
        .membership_id(1)
        .subscription_status(0.into())
        .subscription_tier(1.into())
        .start(100)
        .end(200)
        .last_used(150)
        .finish();
    assert_eq!(card.username(), "faris");
    assert_eq!(card.membership_id(), 1);
    assert_eq!(card.uid().as_slice(), &[9u8; 10]);
    assert_eq!(card.subscription_tier(), SubTier::VIP);
    assert_eq!(card.subscription_status(), SubStatus::Active);
    assert_eq!(card.subscription_start().unwrap().secs(), 100);
    assert_eq!(card.subscription_end().unwrap().secs(), 200);
    assert_eq!(card.last_used().unwrap().secs(), 150);
}

#[test]
fn card_new_and_getters() {
    let t = |s| Timestamp::from_secs(s).unwrap();
    let card = NfcCard::new(
        CardID([1; 10]),
        "ann",
        42,
        SubTier::VIP,
        SubStatus::Active,
        t(10),
        t(20),
        t(30),
    );
    assert_eq!(card.username(), "ann");
    assert_eq!(card.membership_id(), 42);
    assert_eq!(card.subscription_start().unwrap().secs(), 10);
    assert_eq!(card.subscription_end().unwrap().secs(), 20);
    assert_eq!(card.last_used().unwrap().secs(), 30);
    let copy = card.clone();
    assert_eq!(copy.username(), "ann");
}

#[test]
fn card_row_roundtrip() {
    let card = NfcCardBuilder::new()
        .uid([3; 10].into())
        .username("row")
        .membership_id(77)
        .subscription_tier(SubTier::VIP)
        .subscription_status(SubStatus::Active)
        .start(-5)
        .finish();
    let row = card.to_row(card.membership_id());
    assert_eq!(row.uid, [3; 10]);
    assert_eq!(row.username, "row");
    assert_eq!(row.membership_id, 77);
    assert_eq!(row.subscription_tier, 1);
    assert_eq!(row.subscription_status, 0);
    assert_eq!(row.subscription_start, Some(-5));
    assert_eq!(row.subscription_end, None);
    let back = NfcCard::from_row(row);
    assert_eq!(back.username(), "row");
    assert_eq!(back.membership_id(), 77);
    assert_eq!(back.subscription_tier(), SubTier::VIP);
    assert_eq!(back.subscription_status(), SubStatus::Active);
    assert_eq!(back.subscription_start().unwrap().secs(), -5);
    assert!(back.subscription_end().is_none());
}

#[test]
fn card_from_row_reads_numbers() {
    let row = CardRow {
        uid: [0; 10],
        username: String::from("x"),
        membership_id: -1,
        subscription_status: 9,
        subscription_tier: 0,
        subscription_start: None,
        subscription_end: Some(1),
        last_used: None,
    };
    let c = NfcCard::from_row(row);
    assert_eq!(c.membership_id(), usize::MAX);
    assert_eq!(c.subscription_status(), SubStatus::Inactive);
    assert_eq!(c.subscription_tier(), SubTier::Basic);
    assert_eq!(c.subscription_end().unwrap().secs(), 1);
}

#[test]
fn memory_starts_empty() {
    let m = Memory::default();
    let _copy = m.clone();
}

#[test]
fn decrypt_token_with_altered_tag_is_decryption_error() {
    let key = [6u8; 32];
    let (t, _) = Token::encrypt(&key).unwrap();
    let mut nonce = [0u8; 12];
    nonce.copy_from_slice(t.nonce());
    let mut secret = [0u8; 16];
    secret.copy_from_slice(t.token());
    let mut tag = [0u8; 16];
    tag.copy_from_slice(t.tag());
    tag[15] ^= 0x80;
    let altered = Token::from_raw(nonce, secret, tag);
    assert!(matches!(altered.decrypt(&key), Err(Error::CardDecryptionError)));
}

#[test]
fn raw_cards_order_by_bytes() {
    let cards = [
        RawCard::zeroed(),
        RawCard::new(Token::from_raw([0u8; 12], [0u8; 16], [1u8; 16])),
        RawCard::new(Token::from_raw([0u8; 12], [1u8; 16], [0u8; 16])),
        RawCard::new(Token::from_raw([1u8; 12], [0u8; 16], [0u8; 16])),
        RawCard::new(Token::from_raw([0xFFu8; 12], [0xFFu8; 16], [0xFFu8; 16])),
    ];
    for a in cards.iter() {
        for b in cards.iter() {
            let by_bytes = a.as_slice().cmp(&b.as_slice());
            assert_eq!(a.partial_cmp(b), Some(by_bytes));
            assert_eq!(a.cmp(b), by_bytes);
            assert_eq!(a == b, a.as_slice() == b.as_slice());
        }
    }
    let t1 = Token::from_raw([2u8; 12], [0u8; 16], [0u8; 16]);
    let t2 = Token::from_raw([1u8; 12], [9u8; 16], [9u8; 16]);
    assert!(t1 > t2);
    assert_eq!(t1.cmp(&t2), std::cmp::Ordering::Greater);
}

#[test]
fn card_row_under_other_membership_number() {
    let card = NfcCardBuilder::new()
        .uid([4; 10].into())
        .username("moved")
        .membership_id(5)
        .last_used(42)
        .finish();
    let back = NfcCard::from_row(card.to_row(9));
    assert_eq!(back.membership_id(), 9);
    assert_eq!(back.username(), "moved");
    assert_eq!(back.uid().as_slice(), &[4u8; 10]);
    assert_eq!(back.last_used().unwrap().secs(), 42);
    assert_eq!(back.subscription_tier(), SubTier::Basic);
    assert_eq!(back.subscription_status(), SubStatus::Inactive);
}

#[test]
fn message_with_inner_text() {
    let e = Error::ByteFillError(getrandom::Error::UNSUPPORTED);
    assert_eq!(e.message_with("boom"), "Failed to fill bytes: boom");
    assert_eq!(e.message(), format!("Failed to fill bytes: {}", getrandom::Error::UNSUPPORTED));
    let slice_err = <[u8; 2]>::try_from(&[1u8][..]).unwrap_err();
    let text = slice_err.to_string();
    let e = Error::ConvertError(slice_err);
    assert_eq!(e.message_with("x"), "Failed to convert: x");
    assert_eq!(e.message(), format!("Failed to convert: {}", text));
    assert_eq!(Error::DBError.message_with("ignored"), "Database storage error");
}
