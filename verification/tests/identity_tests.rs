use identify::identity::{check_identity, derive_identity, identity_name, Identity};

fn ns() -> Vec<u8> {
    b"0123456789abcdef".to_vec()
}

#[test]
fn identity_name_concatenates_tag_separator_and_fields() {
    let tag = b"Model".to_vec();
    let fields = vec![b"alpha".to_vec(), b"beta".to_vec()];
    let name = identity_name(&tag, &fields);
    assert_eq!(name, b"Model IDalphabeta".to_vec());
}

#[test]
fn identity_name_with_no_fields_is_tag_and_separator() {
    let tag = b"Model".to_vec();
    let fields: Vec<Vec<u8>> = Vec::new();
    let name = identity_name(&tag, &fields);
    assert_eq!(name, b"Model ID".to_vec());
}

#[test]
fn derive_identity_is_deterministic() {
    let tag = b"Model".to_vec();
    let fields = vec![b"alpha".to_vec(), b"beta".to_vec()];
    let a = derive_identity(&ns(), &tag, &fields);
    let b = derive_identity(&ns(), &tag, &fields);
    assert!(a.eq_value(&b));
    assert_eq!(a.as_bytes(), b.as_bytes());
}

#[test]
fn derive_identity_matches_namespaced_uuid() {
    // The derivation must agree with a version-5 UUID computed directly
    // over the same namespace and name bytes.
    let tag = b"Model".to_vec();
    let fields = vec![b"alpha".to_vec()];
    let derived = derive_identity(&ns(), &tag, &fields);
    let namespace = uuid::Uuid::from_bytes(*b"0123456789abcdef");
    let expected = uuid::Uuid::new_v5(&namespace, b"Model IDalpha");
    assert_eq!(derived.as_bytes().as_slice(), expected.as_bytes());
}

#[test]
fn reordering_distinct_fields_changes_the_identity() {
    let tag = b"Model".to_vec();
    let fields = vec![b"alpha".to_vec(), b"gamma".to_vec()];
    let swapped = vec![b"gamma".to_vec(), b"alpha".to_vec()];
    let a = derive_identity(&ns(), &tag, &fields);
    let b = derive_identity(&ns(), &tag, &swapped);
    assert!(!a.eq_value(&b));
}

#[test]
fn different_type_tags_give_different_identities() {
    let fields = vec![b"alpha".to_vec()];
    let a = derive_identity(&ns(), &b"ModelA".to_vec(), &fields);
    let b = derive_identity(&ns(), &b"ModelB".to_vec(), &fields);
    assert!(!a.eq_value(&b));
}

#[test]
fn check_identity_accepts_the_derived_value() {
    let tag = b"Model".to_vec();
    let fields = vec![b"alpha".to_vec()];
    let derived = derive_identity(&ns(), &tag, &fields);
    assert!(check_identity(&ns(), &tag, &fields, &derived));
}

#[test]
fn check_identity_rejects_any_other_value() {
    let tag = b"Model".to_vec();
    let fields = vec![b"alpha".to_vec()];
    let derived = derive_identity(&ns(), &tag, &fields);
    let mut bytes = derived.as_bytes().clone();
    bytes[0] ^= 1;
    let altered = Identity::from_bytes(bytes);
    assert!(!check_identity(&ns(), &tag, &fields, &altered));
}

#[test]
fn identity_duplicate_keeps_the_bytes() {
    let derived = derive_identity(&ns(), &b"Model".to_vec(), &vec![b"alpha".to_vec()]);
    let copy = derived.duplicate();
    assert!(copy.eq_value(&derived));
}

#[test]
fn bytes_eq_compares_contents() {
    assert!(identify::identity::bytes_eq(&b"abc".to_vec(), &b"abc".to_vec()));
    assert!(!identify::identity::bytes_eq(&b"abc".to_vec(), &b"abd".to_vec()));
    assert!(!identify::identity::bytes_eq(&b"abc".to_vec(), &b"ab".to_vec()));
}

#[test]
fn derived_identity_carries_version_and_variant_bits() {
    let derived = derive_identity(&ns(), &b"Model".to_vec(), &vec![b"alpha".to_vec()]);
    let bytes = derived.as_bytes();
    assert_eq!(bytes[6] >> 4, 5);
    assert_eq!(bytes[8] >> 6, 2);
}
