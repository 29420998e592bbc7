use crypto::digest::Digest;
use git_rsl::nonce::Nonce;
use git_rsl::nonce_bag::NonceBag;
use git_rsl::oid::Oid;
use git_rsl::push_entry::PushEntry;

const NONCE1: Nonce = Nonce {
    bytes: [
        145, 161, 65, 251, 112, 184, 238, 36, 105, 54, 150, 202, 74, 26, 148, 121, 106, 40, 239,
        155, 31, 232, 49, 251, 215, 71, 200, 240, 105, 73, 0, 84,
    ],
};

fn oid_from_hex(text: &str) -> Oid {
    let bytes = hex::decode(text).unwrap();
    let mut raw = [0u8; 20];
    raw.copy_from_slice(&bytes);
    Oid::from_bytes(raw)
}

fn sample_entry() -> PushEntry {
    PushEntry::new(
        String::from("refs/heads/branch_name"),
        oid_from_hex("decbf2be529ab6557d5429922251e5ee36519817"),
        String::from("fwjjk42ofw093j"),
        NonceBag::default(),
    )
}

#[test]
fn push_entry_to_string_exact() {
    let expected = "{\n  \"ref_name\": \"refs/heads/branch_name\",\n  \"oid\": {\n    \"raw\": \"decbf2be529ab6557d5429922251e5ee36519817\"\n  },\n  \"prev_hash\": \"fwjjk42ofw093j\",\n  \"nonce_bag\": {\n    \"bag\": []\n  }\n}";
    assert_eq!(sample_entry().to_string(), expected);
}

#[test]
fn push_entry_to_string_fields() {
    let entry = sample_entry();
    let serialized = &entry.to_string();
    let value: serde_json::Value = serde_json::from_str(serialized).unwrap();
    assert_eq!(value["ref_name"], "refs/heads/branch_name");
    assert_eq!(value["oid"]["raw"], "decbf2be529ab6557d5429922251e5ee36519817");
    assert_eq!(value["prev_hash"], "fwjjk42ofw093j");
    assert_eq!(value["nonce_bag"]["bag"].as_array().unwrap().len(), 0);
}

#[test]
fn push_entry_json_matches_sample() {
    let string = r#"{
            "ref_name": "refs/heads/branch_name",
            "oid": {
                "raw": "decbf2be529ab6557d5429922251e5ee36519817"
            },
            "prev_hash": "fwjjk42ofw093j",
            "nonce_bag": {
                "bag": []
            }
        }"#;
    let given: serde_json::Value = serde_json::from_str(string).unwrap();
    let written: serde_json::Value = serde_json::from_str(&sample_entry().to_string()).unwrap();
    assert_eq!(written, given)
}

#[test]
fn push_entry_with_nonce_pretty_bag() {
    let mut bag = NonceBag::new();
    bag.insert(NONCE1).unwrap();
    let entry = PushEntry::new(
        String::from("refs/heads/master"),
        oid_from_hex("decbf2be529ab6557d5429922251e5ee36519817"),
        String::from("First Push Entry"),
        bag,
    );
    let text = entry.to_string();
    let value: serde_json::Value = serde_json::from_str(&text).unwrap();
    let bag_text = serde_json::to_string_pretty(&value["nonce_bag"]).unwrap().replace("\n", "\n  ");
    assert!(text.ends_with(&format!("\"nonce_bag\": {}\n}}", bag_text)));
    let first: Vec<u64> = value["nonce_bag"]["bag"][0]["bytes"]
        .as_array()
        .unwrap()
        .iter()
        .map(|v| v.as_u64().unwrap())
        .collect();
    assert_eq!(first, NONCE1.bytes.iter().map(|b| *b as u64).collect::<Vec<u64>>());
}

#[test]
fn push_entry_escapes_strings() {
    let entry = PushEntry::new(
        String::from("refs/heads/\"odd\"\nname\u{1}"),
        oid_from_hex("0000000000000000000000000000000000000000"),
        String::from("back\\slash\ttab"),
        NonceBag::new(),
    );
    let value: serde_json::Value = serde_json::from_str(&entry.to_string()).unwrap();
    assert_eq!(value["ref_name"], "refs/heads/\"odd\"\nname\u{1}");
    assert_eq!(value["prev_hash"], "back\\slash\ttab");
    assert!(entry.to_string().contains("\"refs/heads/\\\"odd\\\"\\nname\\u0001\""));
}

#[test]
fn push_entry_hash_is_sha3_512_of_text() {
    let entry = sample_entry();
    let mut hasher = crypto::sha3::Sha3::sha3_512();
    hasher.input_str(&entry.to_string());
    let expected = hasher.result_str();
    let hash = entry.hash();
    assert_eq!(hash, expected);
    assert_eq!(hash.len(), 128);
    assert!(hash.chars().all(|c| c.is_ascii_hexdigit() && !c.is_ascii_uppercase()));
    assert_ne!(hash, entry.to_string());
}

#[test]
fn push_entry_getters() {
    let entry = sample_entry();
    assert_eq!(entry.ref_name(), "refs/heads/branch_name");
    assert_eq!(entry.prev_hash(), "fwjjk42ofw093j");
    assert_eq!(entry.oid().to_hex(), "decbf2be529ab6557d5429922251e5ee36519817");
    assert_eq!(entry.get_nonce_bag().len(), 0);
}

#[test]
fn push_entry_hash_depends_on_prev_hash() {
    let a = sample_entry();
    let b = PushEntry::new(
        String::from("refs/heads/branch_name"),
        oid_from_hex("decbf2be529ab6557d5429922251e5ee36519817"),
        String::from("another"),
        NonceBag::default(),
    );
    assert_ne!(a.hash(), b.hash());
    assert_eq!(a.hash(), sample_entry().hash());
}
