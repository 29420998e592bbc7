use git_rsl::nonce::Nonce;
use git_rsl::nonce_bag::NonceBag;

const NONCE1: Nonce = Nonce {
    bytes: [
        145, 161, 65, 251, 112, 184, 238, 36, 105, 54, 150, 202, 74, 26, 148, 121, 106, 40, 239,
        155, 31, 232, 49, 251, 215, 71, 200, 240, 105, 73, 0, 84,
    ],
};
const NONCE2: Nonce = Nonce {
    bytes: [
        100, 223, 169, 31, 154, 84, 127, 151, 178, 254, 47, 129, 230, 74, 10, 10, 170, 13, 31,
        199, 167, 68, 28, 149, 131, 10, 110, 201, 71, 146, 214, 78,
    ],
};
const NONCE3: Nonce = Nonce {
    bytes: [
        165, 36, 170, 43, 1, 62, 34, 53, 25, 160, 177, 19, 87, 62, 189, 151, 168, 134, 196, 85,
        33, 237, 9, 52, 198, 39, 79, 32, 180, 145, 165, 132,
    ],
};

fn bag_a() -> NonceBag {
    let mut bag = NonceBag::new();
    bag.insert(NONCE1).unwrap();
    bag.insert(NONCE2).unwrap();
    bag.insert(NONCE3).unwrap();
    bag
}

#[test]
fn nonce_bag_eq() {
    assert_eq!(bag_a(), bag_a());
}

#[test]
fn nonce_bag_neq() {
    let mut bag = bag_a();
    bag.remove(&NONCE1).unwrap();
    assert_ne!(bag, bag_a());
}

#[test]
fn nonce_bag_eq_ignores_order() {
    let mut bag = NonceBag::new();
    bag.insert(NONCE3).unwrap();
    bag.insert(NONCE1).unwrap();
    bag.insert(NONCE2).unwrap();
    assert_eq!(bag, bag_a());
}

#[test]
fn nonce_bag_to_string_exact() {
    let serialized = "{\"bag\":[{\"bytes\":[145,161,65,251,112,184,238,36,105,54,150,202,74,26,148,121,106,40,239,155,31,232,49,251,215,71,200,240,105,73,0,84]},{\"bytes\":[100,223,169,31,154,84,127,151,178,254,47,129,230,74,10,10,170,13,31,199,167,68,28,149,131,10,110,201,71,146,214,78]},{\"bytes\":[165,36,170,43,1,62,34,53,25,160,177,19,87,62,189,151,168,134,196,85,33,237,9,52,198,39,79,32,180,145,165,132]}]}";
    assert_eq!(bag_a().to_string().unwrap(), serialized);
    assert!(bag_a().contains(&NONCE1));
    assert!(bag_a().contains(&NONCE2));
    assert!(bag_a().contains(&NONCE3));
}

#[test]
fn nonce_bag_to_string_is_valid_json() {
    let bag = bag_a();
    let result = NonceBag::to_string(&bag).unwrap();
    let value: serde_json::Value = serde_json::from_str(&result).unwrap();
    let mut bag2 = NonceBag::new();
    for item in value["bag"].as_array().unwrap() {
        let bytes: Vec<u8> = item["bytes"]
            .as_array()
            .unwrap()
            .iter()
            .map(|v| v.as_u64().unwrap() as u8)
            .collect();
        bag2.insert(Nonce::from_bytes(&bytes).unwrap()).unwrap();
    }
    assert_eq!(bag, bag2)
}

#[test]
fn empty_nonce_bag_to_string() {
    assert_eq!(NonceBag::default().to_string().unwrap(), "{\"bag\":[]}");
}

#[test]
fn write_and_read() {
    let bag = bag_a();
    let bytes = bag.to_file_bytes();
    assert_eq!(bytes.len(), 96);
    let res = NonceBag::from_file_bytes(&bytes).expect("bad read");
    assert_eq!(res, bag);
    assert_eq!(res.nonces(), bag.nonces());
}

#[test]
fn read_empty_bag_file() {
    let res = NonceBag::from_file_bytes(&[]).unwrap();
    assert_eq!(res.len(), 0);
}

#[test]
fn read_bag_file_with_partial_tail() {
    let mut bytes = NONCE1.bytes.to_vec();
    bytes.extend_from_slice(&[7, 7, 7]);
    let res = NonceBag::from_file_bytes(&bytes).unwrap();
    assert_eq!(res.len(), 2);
    assert_eq!(res.nonces()[0], NONCE1);
    assert_eq!(&res.nonces()[1].bytes[..3], &[7, 7, 7]);
}

#[test]
fn read_bag_file_with_repeated_nonce() {
    let mut bytes = NONCE2.bytes.to_vec();
    bytes.extend_from_slice(&NONCE2.bytes);
    let err = NonceBag::from_file_bytes(&bytes).unwrap_err();
    assert_eq!(err.description(), "problem inserting nonce into bag");
}

#[test]
fn insert_present_nonce_fails() {
    let mut bag = bag_a();
    let err = bag.insert(NONCE2).unwrap_err();
    assert_eq!(err.description(), "problem inserting nonce into bag");
    assert_eq!(bag.len(), 3);
}

#[test]
fn remove_absent_nonce_fails() {
    let mut bag = NonceBag::new();
    bag.insert(NONCE1).unwrap();
    let err = bag.remove(&NONCE2).unwrap_err();
    assert_eq!(err.description(), "problem removing nonce from bag");
    assert_eq!(bag.len(), 1);
}

#[test]
fn insert_then_remove_restores() {
    let mut bag = NonceBag::new();
    bag.insert(NONCE1).unwrap();
    bag.insert(NONCE3).unwrap();
    bag.remove(&NONCE3).unwrap();
    let mut expected = NonceBag::new();
    expected.insert(NONCE1).unwrap();
    assert_eq!(bag.nonces(), expected.nonces());
}

#[test]
fn clone_keeps_nonces() {
    let bag = bag_a();
    let copy = bag.clone();
    assert_eq!(copy.nonces(), bag.nonces());
}

#[test]
fn remove_then_insert_keeps_nonces() {
    let mut bag = bag_a();
    bag.remove(&NONCE2).unwrap();
    assert!(!bag.contains(&NONCE2));
    bag.insert(NONCE2).unwrap();
    assert_eq!(bag, bag_a());
}

#[test]
fn bag_with_one_nonce() {
    assert_eq!(NonceBag::with_nonce(NONCE1).nonces(), &vec![NONCE1]);
}
