use git_rsl::nonce::Nonce;

const FAKE_NONCE: Nonce = Nonce {
    bytes: [
        224, 251, 50, 63, 34, 58, 207, 35, 15, 74, 137, 143, 176, 178, 92, 226, 103, 114, 220, 224,
        180, 21, 241, 2, 213, 252, 126, 245, 137, 245, 119, 45,
    ],
};

#[test]
fn nonce_equality() {
    assert_eq!(FAKE_NONCE, FAKE_NONCE)
}

#[test]
fn nonce_inequality() {
    let nonce1 = Nonce {
        bytes: [
            168, 202, 85, 60, 50, 231, 189, 13, 197, 149, 177, 98, 8, 162, 2, 25, 211, 51, 159,
            84, 228, 203, 184, 235, 219, 10, 118, 213, 97, 190, 187, 239,
        ],
    };
    assert_ne!(nonce1, FAKE_NONCE)
}

#[test]
fn nonce_to_string() {
    let serialized = "{\"bytes\":[224,251,50,63,34,58,207,35,15,74,137,143,176,178,92,226,103,114,220,224,180,21,241,2,213,252,126,245,137,245,119,45]}";
    assert_eq!(&FAKE_NONCE.to_string(), &serialized)
}

#[test]
fn nonce_to_string_is_valid_json() {
    let value: serde_json::Value = serde_json::from_str(&FAKE_NONCE.to_string()).unwrap();
    let bytes: Vec<u8> = value["bytes"]
        .as_array()
        .unwrap()
        .iter()
        .map(|v| v.as_u64().unwrap() as u8)
        .collect();
    assert_eq!(bytes, FAKE_NONCE.bytes.to_vec());
}

#[test]
fn nonce_from_str_takes_first_32_bytes() {
    let text = "abcdefghijklmnopqrstuvwxyz0123456789";
    let nonce = Nonce::from_str(text).unwrap();
    assert_eq!(&nonce.bytes[..], &text.as_bytes()[..32]);
}

#[test]
fn nonce_from_str_too_short() {
    let err = Nonce::from_str("too short").unwrap_err();
    assert_eq!(err.description(), "nonce read error");
    assert_eq!(err.descriptions(), vec!["nonce read error".to_string(), "failed to fill whole buffer".to_string()]);
}

#[test]
fn nonce_from_bytes_roundtrip() {
    assert_eq!(Nonce::from_bytes(&FAKE_NONCE.bytes), Some(FAKE_NONCE));
    let mut longer = FAKE_NONCE.bytes.to_vec();
    longer.extend_from_slice(&[1, 2, 3]);
    assert_eq!(Nonce::from_bytes(&longer), Some(FAKE_NONCE));
    assert_eq!(Nonce::from_bytes(&FAKE_NONCE.bytes[..31]), None);
}

#[test]
fn nonce_new_is_random() {
    let a = Nonce::new().unwrap();
    let b = Nonce::new().unwrap();
    assert_ne!(a, b);
}

#[test]
fn nonce_pretty_json() {
    let mut out = String::new();
    FAKE_NONCE.push_json_pretty(&mut out, 0);
    let value: serde_json::Value = serde_json::from_str(&out).unwrap();
    assert_eq!(serde_json::to_string_pretty(&value).unwrap(), out);
}
