use router::crypto::{CryptoError, DecodeMessage, Encryptable, Encryption, GcmAes256, NoAlgorithm, VerifySignature};
use router::customer::{Conversion, Customer, CustomerUpdate};
use router::errors::ValidationError;
use router::storage::{self, CustomerUpdateInternal};

fn created_at() -> time::PrimitiveDateTime {
    time::PrimitiveDateTime::new(
        time::Date::from_calendar_date(2023, time::Month::March, 14).unwrap(),
        time::Time::from_hms(15, 9, 26).unwrap(),
    )
}

fn seal(key: &[u8; 32], nonce: [u8; 12], plain: &[u8]) -> Vec<u8> {
    let unbound = ring::aead::UnboundKey::new(&ring::aead::AES_256_GCM, key).unwrap();
    let sealing = ring::aead::LessSafeKey::new(unbound);
    let mut in_out = plain.to_vec();
    sealing
        .seal_in_place_append_tag(
            ring::aead::Nonce::assume_unique_for_key(nonce),
            ring::aead::Aad::empty(),
            &mut in_out,
        )
        .unwrap();
    let mut msg = nonce.to_vec();
    msg.extend_from_slice(&in_out);
    msg
}

fn plain_customer(id: Option<i32>) -> Customer {
    Customer {
        id,
        customer_id: "cus_abc".to_string(),
        merchant_id: "merchant_1".to_string(),
        name: None,
        email: None,
        phone: None,
        phone_country_code: Some("+44".to_string()),
        description: Some("first customer".to_string()),
        created_at: created_at(),
        metadata: Some(serde_json::Value::String("vip".to_string())),
    }
}

#[test]
fn gcm_decodes_what_was_sealed() {
    let key = [7u8; 32];
    let msg = seal(&key, [1u8; 12], b"hello customer");
    assert_eq!(GcmAes256.decode_message(&key, msg), Ok(b"hello customer".to_vec()));
}

#[test]
fn gcm_rejects_wrong_key_short_message_and_tampering() {
    let key = [7u8; 32];
    let msg = seal(&key, [1u8; 12], b"hello");
    assert_eq!(GcmAes256.decode_message(&[0u8], msg.clone()), Err(CryptoError::DecodingFailed));
    assert_eq!(GcmAes256.decode_message(&[8u8; 32], msg.clone()), Err(CryptoError::DecodingFailed));
    assert_eq!(GcmAes256.decode_message(&key, vec![1u8; 11]), Err(CryptoError::DecodingFailed));
    let mut tampered = msg;
    let last = tampered.len() - 1;
    tampered[last] ^= 1;
    assert_eq!(GcmAes256.decode_message(&key, tampered), Err(CryptoError::DecodingFailed));
}

#[test]
fn decrypt_gives_text_and_keeps_ciphertext() {
    let key = [3u8; 32];
    let msg = seal(&key, [9u8; 12], "Zoë".as_bytes());
    let field = Encryptable::<String>::decrypt(Encryption::new(msg.clone()), &key, GcmAes256).unwrap();
    assert_eq!(field.inner, "Zoë");
    assert_eq!(field.encrypted, msg);
}

#[test]
fn decrypt_rejects_invalid_utf8() {
    let key = [3u8; 32];
    let msg = seal(&key, [9u8; 12], &[0xff, 0xfe]);
    assert_eq!(
        Encryptable::<String>::decrypt(Encryption::new(msg), &key, GcmAes256).err(),
        Some(CryptoError::DecodingFailed)
    );
}

#[test]
fn no_algorithm_hands_back_and_accepts() {
    assert_eq!(NoAlgorithm.decode_message(b"k", b"body".to_vec()), Ok(b"body".to_vec()));
    assert_eq!(NoAlgorithm.verify_signature(b"k", b"sig", b"msg"), Ok(true));
}

#[test]
fn convert_requires_an_id() {
    let err = plain_customer(None).convert().err().unwrap();
    assert_eq!(err, ValidationError::MissingRequiredField { field_name: "id".to_string() });
}

#[test]
fn convert_stores_ciphertext() {
    let mut customer = plain_customer(Some(12));
    customer.name = Some(Encryptable::new("Jane".to_string(), vec![1, 2, 3]));
    customer.phone = Some(Encryptable::new("555".to_string(), vec![4, 5]));
    let stored = customer.convert().unwrap();
    assert_eq!(stored.id, 12);
    assert_eq!(stored.customer_id, "cus_abc");
    assert_eq!(stored.name.unwrap().inner, vec![1, 2, 3]);
    assert!(stored.email.is_none());
    assert_eq!(stored.phone.unwrap().into_inner(), vec![4, 5]);
    assert_eq!(stored.phone_country_code.as_deref(), Some("+44"));
    assert_eq!(stored.created_at, created_at());
    assert_eq!(stored.metadata, Some(serde_json::Value::String("vip".to_string())));
}

#[test]
fn round_trip_without_encrypted_fields() {
    let stored = plain_customer(Some(5)).convert().unwrap();
    let back = Customer::convert_back(stored).unwrap();
    assert_eq!(back.id, Some(5));
    assert_eq!(back.customer_id, "cus_abc");
    assert_eq!(back.merchant_id, "merchant_1");
    assert!(back.name.is_none() && back.email.is_none() && back.phone.is_none());
    assert_eq!(back.description.as_deref(), Some("first customer"));
    assert_eq!(back.created_at, created_at());
}

#[test]
fn convert_back_cannot_decrypt_with_the_placeholder_key() {
    let key = [0u8; 32];
    let stored = storage::Customer {
        id: 1,
        customer_id: "c".to_string(),
        merchant_id: "m".to_string(),
        name: None,
        email: Some(Encryption::new(seal(&key, [0u8; 12], b"a@b.c"))),
        phone: None,
        phone_country_code: None,
        description: None,
        created_at: created_at(),
        metadata: None,
    };
    let err = Customer::convert_back(stored).err().unwrap();
    assert_eq!(
        err,
        ValidationError::InvalidValue { message: "Failed while decrypting customer data".to_string() }
    );
}

#[test]
fn construct_new_copies_fields() {
    let mut customer = plain_customer(None);
    customer.email = Some(Encryptable::new("a@b.c".to_string(), vec![8, 8]));
    let new_record = customer.construct_new().unwrap();
    assert_eq!(new_record.customer_id, "cus_abc");
    assert_eq!(new_record.email.unwrap().inner, vec![8, 8]);
    assert!(new_record.name.is_none());
    assert_eq!(new_record.description.as_deref(), Some("first customer"));
}

#[test]
fn customer_update_becomes_stored_columns() {
    let update = CustomerUpdate::Update {
        name: Some(Encryptable::new("New Name".to_string(), vec![10, 11])),
        email: None,
        phone: Some(Encryptable::new("123".to_string(), vec![12])),
        description: Some("updated".to_string()),
        phone_country_code: None,
        metadata: None,
    };
    let internal = CustomerUpdateInternal::from(update);
    assert_eq!(internal.name.unwrap().inner, vec![10, 11]);
    assert!(internal.email.is_none());
    assert_eq!(internal.phone.unwrap().inner, vec![12]);
    assert_eq!(internal.description.as_deref(), Some("updated"));
    assert!(internal.phone_country_code.is_none());
}

#[test]
fn encryption_from_encryptable_keeps_ciphertext() {
    let enc = Encryption::from(Encryptable::new("x".to_string(), vec![42]));
    assert_eq!(enc.inner, vec![42]);
}
