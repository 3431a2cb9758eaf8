use identify::application::{create_user, CreateUserParams};
use identify::errors::DomainError;
use identify::identity::Identity;
use identify::user::{uuid_namespace, NewUserAttrs, User, UserId, UserIdAttrs};

#[test]
fn namespace_is_the_published_constant() {
    assert_eq!(uuid_namespace(), b"identify-backend".to_vec());
}

#[test]
fn user_id_derivation_is_deterministic() {
    let a = UserId::new(UserIdAttrs { email: "a@x.com".to_string() });
    let b = UserId::new(UserIdAttrs { email: "a@x.com".to_string() });
    assert!(a.to_uuid().eq_value(&b.to_uuid()));
}

#[test]
fn user_id_derivation_depends_on_the_email() {
    let a = UserId::new(UserIdAttrs { email: "a@x.com".to_string() });
    let b = UserId::new(UserIdAttrs { email: "b@x.com".to_string() });
    assert!(!a.to_uuid().eq_value(&b.to_uuid()));
}

#[test]
fn user_id_matches_namespaced_uuid() {
    // The identity must agree with a version-5 UUID computed directly over
    // the published namespace and the tag, separator and email bytes.
    let id = UserId::new(UserIdAttrs { email: "a@x.com".to_string() });
    let namespace = uuid::Uuid::from_bytes(*b"identify-backend");
    let expected = uuid::Uuid::new_v5(&namespace, b"UserId IDa@x.com");
    assert_eq!(id.to_uuid().as_bytes().as_slice(), expected.as_bytes());
}

#[test]
fn user_id_load_accepts_the_derived_identity() {
    let derived = UserId::new(UserIdAttrs { email: "a@x.com".to_string() }).to_uuid();
    let loaded = UserId::load(UserIdAttrs { email: "a@x.com".to_string() }, derived);
    let id = loaded.expect("the self-derived identity must be accepted");
    assert_eq!(id.email(), "a@x.com");
}

#[test]
fn user_id_load_rejects_any_other_identity() {
    let derived = UserId::new(UserIdAttrs { email: "a@x.com".to_string() }).to_uuid();
    let mut bytes = derived.as_bytes().clone();
    bytes[15] ^= 0x80;
    let altered = Identity::from_bytes(bytes);
    let altered_copy = altered.duplicate();
    let loaded = UserId::load(UserIdAttrs { email: "a@x.com".to_string() }, altered);
    match loaded {
        Err(DomainError::IdMismatch { model, expected, computed }) => {
            assert_eq!(model, "UserId");
            assert!(expected.eq_value(&altered_copy));
            assert!(computed.eq_value(&derived));
        }
        Ok(_) => panic!("an altered identity must be rejected"),
    }
}

#[test]
fn fresh_user_round_trips_through_its_attributes() {
    let user = User::new(NewUserAttrs {
        email: "a@x.com".to_string(),
        first_name: "Ada".to_string(),
        last_name: Some("Lovelace".to_string()),
    });
    let loaded = User::load(user.to_attributes()).expect("a fresh user's record must load");
    assert!(loaded.id().eq_value(&user.id()));
    assert_eq!(loaded.first_name(), user.first_name());
    assert_eq!(loaded.last_name(), user.last_name());
    assert_eq!(loaded.created_at(), user.created_at());
    assert_eq!(loaded.updated_at(), user.updated_at());
}

#[test]
fn fresh_user_timestamps_agree() {
    let user = User::new(NewUserAttrs {
        email: "a@x.com".to_string(),
        first_name: "Ada".to_string(),
        last_name: None,
    });
    assert_eq!(user.created_at(), user.updated_at());
}

#[test]
fn tampered_identity_is_detected_on_load() {
    let user = User::new(NewUserAttrs {
        email: "a@x.com".to_string(),
        first_name: "Ada".to_string(),
        last_name: None,
    });
    let genuine = user.id();
    let mut attrs = user.to_attributes();
    let mut bytes = attrs.id.as_bytes().clone();
    bytes[3] ^= 0x04;
    attrs.id = Identity::from_bytes(bytes);
    let altered = attrs.id.duplicate();
    match User::load(attrs) {
        Err(DomainError::IdMismatch { model, expected, computed }) => {
            assert_eq!(model, "UserId");
            assert!(expected.eq_value(&altered));
            assert!(computed.eq_value(&genuine));
        }
        Ok(_) => panic!("a tampered identity must be rejected"),
    }
}

#[test]
fn to_attributes_stores_the_accessor_outputs() {
    let user = User::new(NewUserAttrs {
        email: "a@x.com".to_string(),
        first_name: "Ada".to_string(),
        last_name: Some("Lovelace".to_string()),
    });
    let attrs = user.to_attributes();
    assert_eq!(attrs.email, "a@x.com");
    assert!(attrs.id.eq_value(&user.id()));
    assert_eq!(&attrs.first_name, user.first_name());
    assert_eq!(&attrs.last_name, user.last_name());
    assert_eq!(attrs.created_at, user.created_at());
    assert_eq!(attrs.updated_at, user.updated_at());
}

#[test]
fn create_user_builds_the_entity_from_its_params() {
    let user = create_user(CreateUserParams {
        user_attrs: NewUserAttrs {
            email: "a@x.com".to_string(),
            first_name: "Ada".to_string(),
            last_name: None,
        },
    });
    let expected = UserId::new(UserIdAttrs { email: "a@x.com".to_string() }).to_uuid();
    assert!(user.id().eq_value(&expected));
    assert_eq!(user.first_name(), "Ada");
    assert_eq!(user.last_name(), &None);
    assert_eq!(user.created_at(), user.updated_at());
}
