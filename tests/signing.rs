use resilient_call::signing::{sign_request, signature_hex, SIGNING_BUDGET_CYCLES};

#[test]
fn sign_request_hashes_message() {
    let r = sign_request("hello");
    assert_eq!(
        signature_hex(&r.message_hash),
        "2cf24dba5fb0a30e26e83b2ac5b9e29e1b161e5c1fa7425e73043362938b9824"
    );
    assert!(r.derivation_path.is_empty());
    assert_eq!(r.key_name, "dfx_test_key");
}

#[test]
fn sign_request_of_empty_message() {
    let r = sign_request("");
    assert_eq!(
        signature_hex(&r.message_hash),
        "e3b0c44298fc1c149afbf4c8996fb92427ae41e4649b934ca495991b7852b855"
    );
}

#[test]
fn signature_hex_lowercase_high_half_first() {
    assert_eq!(signature_hex(&vec![0x01, 0xab, 0xff, 0x00, 0x10]), "01abff0010");
    assert_eq!(signature_hex(&vec![]), "");
}

#[test]
fn signing_budget() {
    assert_eq!(SIGNING_BUDGET_CYCLES, 10_000_000_000);
}
