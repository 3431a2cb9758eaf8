use identify::errors::{ApplicationError, DomainError, Error, InfrastructureError};
use identify::getters::generate_getters;
use identify::identity::Identity;
use identify::schema::{
    validate_field, validate_schema, Annotation, CompanionShape, ExposureMode, FieldPolicy,
    PolicyKind, RawField, RawSchema, SchemaError, ShapeField,
};
use identify::shapes::{constructor_shape, hydration_shape};

fn field(name: &str, ty: &str, annotations: Vec<Annotation>) -> RawField {
    RawField { name: name.to_string(), ty: ty.to_string(), annotations }
}

fn user_schema() -> RawSchema {
    // The user model: the identity field is computed rather than supplied on
    // construction, and both timestamps are computed as well.
    RawSchema {
        model_name: "User".to_string(),
        fields: vec![
            field(
                "id",
                "UserId",
                vec![
                    Annotation::GetterRefInto("Uuid".to_string()),
                    Annotation::ConstructSkip,
                    Annotation::HydrateRetype("Uuid".to_string()),
                ],
            ),
            field("first_name", "String", vec![]),
            field("last_name", "Option<String>", vec![]),
            field("created_at", "DateTime<Utc>", vec![Annotation::ConstructSkip]),
            field("updated_at", "DateTime<Utc>", vec![Annotation::ConstructSkip]),
        ],
        companions: vec![
            CompanionShape {
                name: "NewUserAttrs".to_string(),
                extra_fields: vec![ShapeField {
                    name: "email".to_string(),
                    ty: "String".to_string(),
                }],
            },
            CompanionShape {
                name: "UserAttrs".to_string(),
                extra_fields: vec![ShapeField {
                    name: "email".to_string(),
                    ty: "String".to_string(),
                }],
            },
        ],
    }
}

#[test]
fn unannotated_field_gets_the_defaults() {
    let d = validate_field(&field("first_name", "String", vec![])).unwrap();
    assert_eq!(d.name, "first_name");
    assert_eq!(d.ty, "String");
    assert!(matches!(d.exposure, ExposureMode::Direct));
    assert!(matches!(d.construct, FieldPolicy::Include));
    assert!(matches!(d.hydrate, FieldPolicy::Include));
    assert!(d.bytes_fn.is_none());
}

#[test]
fn annotations_resolve_into_the_descriptor() {
    let d = validate_field(&field(
        "id",
        "UserId",
        vec![
            Annotation::GetterRefInto("Uuid".to_string()),
            Annotation::ConstructSkip,
            Annotation::HydrateRetype("Uuid".to_string()),
            Annotation::BytesFn("id_bytes".to_string()),
        ],
    ))
    .unwrap();
    assert!(matches!(d.exposure, ExposureMode::RefInto(t) if t == "Uuid"));
    assert!(matches!(d.construct, FieldPolicy::Skip));
    assert!(matches!(d.hydrate, FieldPolicy::Retype(t) if t == "Uuid"));
    assert_eq!(d.bytes_fn.as_deref(), Some("id_bytes"));
}

#[test]
fn two_getter_options_conflict() {
    let e = validate_field(&field(
        "name",
        "String",
        vec![Annotation::GetterCopy, Annotation::GetterSkip],
    ))
    .unwrap_err();
    match e {
        SchemaError::ConflictingOptions { field, policy } => {
            assert_eq!(field, "name");
            assert_eq!(policy, PolicyKind::Getter);
        }
        other => panic!("unexpected error: {:?}", other),
    }
}

#[test]
fn two_hydrate_options_conflict() {
    let e = validate_field(&field(
        "name",
        "String",
        vec![Annotation::HydrateSkip, Annotation::HydrateRetype("i64".to_string())],
    ))
    .unwrap_err();
    assert!(matches!(
        e,
        SchemaError::ConflictingOptions { policy: PolicyKind::Hydrate, .. }
    ));
}

#[test]
fn unrecognized_annotation_is_reported_first() {
    let e = validate_field(&field(
        "name",
        "String",
        vec![
            Annotation::GetterCopy,
            Annotation::Unknown("serde(skip)".to_string()),
            Annotation::GetterSkip,
        ],
    ))
    .unwrap_err();
    match e {
        SchemaError::UnknownAnnotation { field, annotation } => {
            assert_eq!(field, "name");
            assert_eq!(annotation, "serde(skip)");
        }
        other => panic!("unexpected error: {:?}", other),
    }
}

#[test]
fn schema_with_three_companions_is_malformed() {
    let mut raw = user_schema();
    raw.companions.push(CompanionShape {
        name: "ExtraAttrs".to_string(),
        extra_fields: vec![],
    });
    let e = validate_schema(raw).unwrap_err();
    assert!(matches!(e, SchemaError::MalformedCompanion { count: 3 }));
}

#[test]
fn schema_error_in_a_field_aborts_validation() {
    let mut raw = user_schema();
    raw.fields.push(field(
        "broken",
        "String",
        vec![Annotation::ConstructSkip, Annotation::ConstructRetype("u32".to_string())],
    ));
    let e = validate_schema(raw).unwrap_err();
    assert!(matches!(
        e,
        SchemaError::ConflictingOptions { policy: PolicyKind::Construct, .. }
    ));
}

#[test]
fn validated_schema_assigns_the_companions_in_order() {
    let s = validate_schema(user_schema()).unwrap();
    assert_eq!(s.model_name, "User");
    assert_eq!(s.fields.len(), 5);
    assert_eq!(s.constructor_companion.as_ref().unwrap().name, "NewUserAttrs");
    assert_eq!(s.hydration_companion.as_ref().unwrap().name, "UserAttrs");
}

#[test]
fn schema_without_companions_generates_no_shapes() {
    let mut raw = user_schema();
    raw.companions = vec![];
    let s = validate_schema(raw).unwrap();
    assert!(s.constructor_companion.is_none());
    assert!(s.hydration_companion.is_none());
    assert!(constructor_shape(&s).is_none());
    assert!(hydration_shape(&s).is_none());
}

#[test]
fn getters_skip_only_the_skipped_fields() {
    let mut raw = user_schema();
    raw.fields.push(field("secret", "String", vec![Annotation::GetterSkip]));
    let s = validate_schema(raw).unwrap();
    let accessors = generate_getters(&s);
    let names: Vec<&str> = accessors.iter().map(|a| a.name.as_str()).collect();
    assert_eq!(names, vec!["id", "first_name", "last_name", "created_at", "updated_at"]);
    assert!(matches!(&accessors[0].mode, ExposureMode::RefInto(t) if t == "Uuid"));
    assert!(matches!(&accessors[1].mode, ExposureMode::Direct));
}

#[test]
fn constructor_shape_holds_the_caller_supplied_fields_only() {
    let s = validate_schema(user_schema()).unwrap();
    let shape = constructor_shape(&s).unwrap();
    assert_eq!(shape.name, "NewUserAttrs");
    let names: Vec<&str> = shape.fields.iter().map(|f| f.name.as_str()).collect();
    assert_eq!(names, vec!["email", "first_name", "last_name"]);
}

#[test]
fn hydration_shape_holds_the_full_record() {
    let s = validate_schema(user_schema()).unwrap();
    let shape = hydration_shape(&s).unwrap();
    assert_eq!(shape.name, "UserAttrs");
    let names: Vec<&str> = shape.fields.iter().map(|f| f.name.as_str()).collect();
    assert_eq!(
        names,
        vec!["email", "id", "first_name", "last_name", "created_at", "updated_at"]
    );
    // The hydration policy retypes the identity field.
    assert_eq!(shape.fields[1].ty, "Uuid");
    assert_eq!(shape.fields[2].ty, "String");
}

#[test]
fn construction_and_hydration_policies_are_independent() {
    let raw = RawSchema {
        model_name: "Model".to_string(),
        fields: vec![
            field("computed", "i64", vec![Annotation::ConstructSkip]),
            field("transient", "i64", vec![Annotation::HydrateSkip]),
        ],
        companions: vec![
            CompanionShape { name: "NewModelAttrs".to_string(), extra_fields: vec![] },
            CompanionShape { name: "ModelAttrs".to_string(), extra_fields: vec![] },
        ],
    };
    let s = validate_schema(raw).unwrap();
    let ctor = constructor_shape(&s).unwrap();
    let hydrate = hydration_shape(&s).unwrap();
    let ctor_names: Vec<&str> = ctor.fields.iter().map(|f| f.name.as_str()).collect();
    let hydrate_names: Vec<&str> = hydrate.fields.iter().map(|f| f.name.as_str()).collect();
    // Skipped for construction, included for hydration.
    assert!(!ctor_names.contains(&"computed"));
    assert!(hydrate_names.contains(&"computed"));
    // Included for construction, skipped for hydration.
    assert!(ctor_names.contains(&"transient"));
    assert!(!hydrate_names.contains(&"transient"));
}

#[test]
fn error_constructors_keep_their_payloads() {
    let e = Error::internal("boom".to_string());
    assert!(matches!(e, Error::Internal { message } if message == "boom"));

    let e = Error::internal_with_message("boom".to_string(), "saving".to_string());
    assert!(matches!(e, Error::Internal { message } if message == "saving: boom"));

    let a = Identity::from_bytes(vec![0u8; 16]);
    let b = Identity::from_bytes(vec![1u8; 16]);
    let e = Error::id_mismatch("User".to_string(), a, b);
    assert!(matches!(e, Error::IdMismatch { model, .. } if model == "User"));

    let e = ApplicationError::internal_with_message("boom".to_string(), "inserting".to_string());
    assert!(matches!(e, ApplicationError::Internal { message } if message == "inserting: boom"));

    let e = ApplicationError::entity_already_exists("User".to_string(), "taken".to_string());
    assert!(matches!(
        e,
        ApplicationError::EntityAlreadyExists { entity, message }
            if entity == "User" && message == "taken"
    ));

    let a = Identity::from_bytes(vec![0u8; 16]);
    let b = Identity::from_bytes(vec![1u8; 16]);
    let d = DomainError::id_mismatch("UserId".to_string(), a, b);
    let e = ApplicationError::from(d);
    assert!(matches!(e, ApplicationError::Domain(DomainError::IdMismatch { .. })));

    let e = InfrastructureError::internal("down".to_string());
    assert!(matches!(e, InfrastructureError::Internal { message } if message == "down"));

    let e = InfrastructureError::internal_with_message("down".to_string(), "pool".to_string());
    assert!(matches!(e, InfrastructureError::Internal { message } if message == "pool: down"));
}

#[test]
fn byte_sources_follow_declaration_order() {
    let raw = RawSchema {
        model_name: "ModelId".to_string(),
        fields: vec![
            field("email", "String", vec![]),
            field(
                "username",
                "String",
                vec![Annotation::BytesFn("custom_to_bytes".to_string())],
            ),
        ],
        companions: vec![],
    };
    let s = validate_schema(raw).unwrap();
    let sources = identify::identity::byte_sources(&s);
    assert_eq!(sources.len(), 2);
    assert_eq!(sources[0].field_name, "email");
    assert!(sources[0].conversion.is_none());
    assert_eq!(sources[1].field_name, "username");
    assert_eq!(sources[1].conversion.as_deref(), Some("custom_to_bytes"));
}
