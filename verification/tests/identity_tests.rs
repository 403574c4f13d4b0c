use canispect::identity::{generate_audit_id, hash_wasm_bytes};

#[test]
fn digest_of_empty_payload_is_the_known_sha256() {
    let d = hash_wasm_bytes(&[]);
    assert_eq!(
        d,
        "e3b0c44298fc1c149afbf4c8996fb92427ae41e4649b934ca495991b7852b855"
    );
}

#[test]
fn digest_of_abc_is_the_known_sha256() {
    let d = hash_wasm_bytes(b"abc");
    assert_eq!(
        d,
        "ba7816bf8f01cfea414140de5dae2223b00361a396177a9cb410ff61f20015ad"
    );
}

#[test]
fn digest_is_deterministic() {
    let payload = vec![7u8; 1234];
    assert_eq!(hash_wasm_bytes(&payload), hash_wasm_bytes(&payload));
}

#[test]
fn distinct_payloads_have_distinct_digests() {
    assert_ne!(hash_wasm_bytes(b"abc"), hash_wasm_bytes(b"abd"));
    assert_ne!(hash_wasm_bytes(&[]), hash_wasm_bytes(&[0]));
}

#[test]
fn audit_id_is_sixteen_hex_chars() {
    let id = generate_audit_id(1234, "alice");
    assert_eq!(id.len(), 16);
    assert!(id.chars().all(|c| c.is_ascii_hexdigit() && !c.is_ascii_uppercase()));
}

#[test]
fn audit_id_is_the_digest_prefix_of_the_preimage() {
    let id = generate_audit_id(1234, "alice");
    let full = hash_wasm_bytes("1234-alice".as_bytes());
    assert_eq!(id, full[..16]);
}

#[test]
fn audit_id_depends_on_timestamp_and_requester() {
    assert_eq!(generate_audit_id(1, "alice"), generate_audit_id(1, "alice"));
    assert_ne!(generate_audit_id(1, "alice"), generate_audit_id(2, "alice"));
    assert_ne!(generate_audit_id(1, "alice"), generate_audit_id(1, "bob"));
}
