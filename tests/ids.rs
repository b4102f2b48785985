use hmf::ids::{hex_encode, new_idempotency_key, new_sender_instance, new_transaction_id, DeviceId, InstanceId};

fn is_token(s: &str) -> bool {
    s.len() == 32 && s.chars().all(|c| c.is_ascii_digit() || ('a'..='f').contains(&c))
}

#[test]
fn generated_ids_are_32_hex_digits() {
    assert!(is_token(new_transaction_id().unwrap().as_str()));
    assert!(is_token(new_idempotency_key().unwrap().as_str()));
    assert!(is_token(new_sender_instance().unwrap().as_str()));
}

#[test]
fn generated_ids_differ() {
    assert_ne!(new_transaction_id().unwrap(), new_transaction_id().unwrap());
}

#[test]
fn hex_encoding_is_exact() {
    assert_eq!(hex_encode(&vec![0x00, 0x0f, 0xa5, 0xff]), "000fa5ff");
    assert_eq!(hex_encode(&vec![]), "");
}

#[test]
fn ids_keep_their_text_and_order() {
    let a = DeviceId::new("device-1".to_string());
    assert_eq!(a.as_str(), "device-1");
    assert!(DeviceId::new("a".to_string()) < DeviceId::new("b".to_string()));
    assert_eq!(InstanceId::new("x".to_string()).into_string(), "x");
}
