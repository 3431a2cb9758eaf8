//! Schema descriptors and their validation.
//!
//! A model is declared as a raw schema: an ordered list of fields, each
//! with the annotations written on it, plus up to two companion shapes.
//! Validation is purely structural: it resolves each field's annotations
//! into one exposure mode, one constructor policy, one hydration policy and
//! at most one byte-conversion reference, or reports the first problem it
//! finds. No partial schema is produced on failure.

use vstd::prelude::*;

verus! {

/// How a field's read accessor is shaped.
#[derive(Debug)]
pub enum ExposureMode {
    /// The field is not reachable from outside the entity.
    Skip,
    /// Borrowed access to the stored value.
    Direct,
    /// Owned conversion of the field value into the named type.
    Into(String),
    /// Conversion of a reference to the field into the named type.
    RefInto(String),
    /// Borrow-cast to the named type.
    AsRef(String),
    /// A duplicate of the field's value.
    Copy,
}

/// Whether and how a field appears in a companion input shape.
#[derive(Debug)]
pub enum FieldPolicy {
    /// The field appears with its own type.
    Include,
    /// The field is absent; the entity supplies its value itself.
    Skip,
    /// The field appears with the named type instead of its own.
    Retype(String),
}

/// One annotation as written on a field in the declaration.
#[derive(Debug)]
pub enum Annotation {
    GetterSkip,
    GetterInto(String),
    GetterRefInto(String),
    GetterAsRef(String),
    GetterCopy,
    ConstructSkip,
    ConstructRetype(String),
    HydrateSkip,
    HydrateRetype(String),
    BytesFn(String),
    /// An annotation this engine does not recognize, kept as written.
    Unknown(String),
}

/// The per-field option set an annotation belongs to.
#[derive(Debug, PartialEq, Eq, Structural)]
pub enum PolicyKind {
    Getter,
    Construct,
    Hydrate,
    Bytes,
}

impl Annotation {
    /// The option set this annotation belongs to, or none for an
    /// unrecognized one.
    pub open spec fn kind(self) -> Option<PolicyKind> {
        match self {
            Annotation::GetterSkip => Some(PolicyKind::Getter),
            Annotation::GetterInto(_) => Some(PolicyKind::Getter),
            Annotation::GetterRefInto(_) => Some(PolicyKind::Getter),
            Annotation::GetterAsRef(_) => Some(PolicyKind::Getter),
            Annotation::GetterCopy => Some(PolicyKind::Getter),
            Annotation::ConstructSkip => Some(PolicyKind::Construct),
            Annotation::ConstructRetype(_) => Some(PolicyKind::Construct),
            Annotation::HydrateSkip => Some(PolicyKind::Hydrate),
            Annotation::HydrateRetype(_) => Some(PolicyKind::Hydrate),
            Annotation::BytesFn(_) => Some(PolicyKind::Bytes),
            Annotation::Unknown(_) => None,
        }
    }

    /// The exposure mode this annotation selects.
    pub open spec fn exposure(self) -> ExposureMode {
        match self {
            Annotation::GetterSkip => ExposureMode::Skip,
            Annotation::GetterInto(t) => ExposureMode::Into(t),
            Annotation::GetterRefInto(t) => ExposureMode::RefInto(t),
            Annotation::GetterAsRef(t) => ExposureMode::AsRef(t),
            Annotation::GetterCopy => ExposureMode::Copy,
            _ => ExposureMode::Direct,
        }
    }

    /// The companion policy this annotation selects, for either the
    /// constructor or the hydration option set.
    pub open spec fn policy(self) -> FieldPolicy {
        match self {
            Annotation::ConstructSkip => FieldPolicy::Skip,
            Annotation::ConstructRetype(t) => FieldPolicy::Retype(t),
            Annotation::HydrateSkip => FieldPolicy::Skip,
            Annotation::HydrateRetype(t) => FieldPolicy::Retype(t),
            _ => FieldPolicy::Include,
        }
    }
}

/// How many annotations of the given option set the list holds.
pub open spec fn count_kind(s: Seq<Annotation>, k: PolicyKind) -> nat
    decreases s.len(),
{
    if s.len() == 0 {
        0
    } else {
        (if s.first().kind() == Some(k) {
            1nat
        } else {
            0nat
        }) + count_kind(s.drop_first(), k)
    }
}

/// The exposure mode selected by the first getter annotation, if any.
pub open spec fn spec_exposure(s: Seq<Annotation>) -> Option<ExposureMode>
    decreases s.len(),
{
    if s.len() == 0 {
        None
    } else if s.first().kind() == Some(PolicyKind::Getter) {
        Some(s.first().exposure())
    } else {
        spec_exposure(s.drop_first())
    }
}

/// The policy selected by the first annotation of the given companion
/// option set, if any.
pub open spec fn spec_policy(s: Seq<Annotation>, k: PolicyKind) -> Option<FieldPolicy>
    decreases s.len(),
{
    if s.len() == 0 {
        None
    } else if s.first().kind() == Some(k) {
        Some(s.first().policy())
    } else {
        spec_policy(s.drop_first(), k)
    }
}

/// The reference named by the first byte-conversion annotation, if any.
pub open spec fn spec_bytes_fn(s: Seq<Annotation>) -> Option<String>
    decreases s.len(),
{
    if s.len() == 0 {
        None
    } else {
        match s.first() {
            Annotation::BytesFn(f) => Some(f),
            _ => spec_bytes_fn(s.drop_first()),
        }
    }
}

/// The text of the first unrecognized annotation, if any.
pub open spec fn spec_unknown(s: Seq<Annotation>) -> Option<String>
    decreases s.len(),
{
    if s.len() == 0 {
        None
    } else {
        match s.first() {
            Annotation::Unknown(u) => Some(u),
            _ => spec_unknown(s.drop_first()),
        }
    }
}

/// A field as declared, before validation.
#[derive(Debug)]
pub struct RawField {
    /// The field's name.
    pub name: String,
    /// The field's own type, as written.
    pub ty: String,
    /// The annotations written on the field, in order.
    pub annotations: Vec<Annotation>,
}

/// A validated field descriptor: one resolved choice per option set.
#[derive(Debug)]
pub struct FieldDescriptor {
    pub name: String,
    pub ty: String,
    pub exposure: ExposureMode,
    pub construct: FieldPolicy,
    pub hydrate: FieldPolicy,
    /// The reference used to obtain the field's canonical bytes for
    /// identity derivation, when the type's native representation is not
    /// wanted.
    pub bytes_fn: Option<String>,
}

/// A field of a companion shape: a name and the type it carries there.
#[derive(Debug)]
pub struct ShapeField {
    pub name: String,
    pub ty: String,
}

/// A companion shape as declared: a name plus the extra fields it carries
/// beyond the ones projected from the entity.
#[derive(Debug)]
pub struct CompanionShape {
    pub name: String,
    pub extra_fields: Vec<ShapeField>,
}

/// A schema as declared, before validation.
#[derive(Debug)]
pub struct RawSchema {
    pub model_name: String,
    pub fields: Vec<RawField>,
    /// At most two: the constructor shape first, the hydration shape
    /// second.
    pub companions: Vec<CompanionShape>,
}

/// A validated schema descriptor.
#[derive(Debug)]
pub struct Schema {
    pub model_name: String,
    pub fields: Vec<FieldDescriptor>,
    pub constructor_companion: Option<CompanionShape>,
    pub hydration_companion: Option<CompanionShape>,
}

/// A structural problem in a declared schema. Nothing is generated from a
/// schema that has one.
#[derive(Debug)]
pub enum SchemaError {
    /// A field carries an annotation this engine does not recognize.
    UnknownAnnotation { field: String, annotation: String },
    /// A field carries two annotations of the same mutually-exclusive
    /// option set.
    ConflictingOptions { field: String, policy: PolicyKind },
    /// More companion shapes were declared than the two a model can have.
    MalformedCompanion { count: usize },
}

/// Whether a declared field is structurally sound: every annotation is
/// recognized and no option set is chosen twice.
pub open spec fn field_ok(f: RawField) -> bool {
    &&& spec_unknown(f.annotations@) is None
    &&& count_kind(f.annotations@, PolicyKind::Getter) <= 1
    &&& count_kind(f.annotations@, PolicyKind::Construct) <= 1
    &&& count_kind(f.annotations@, PolicyKind::Hydrate) <= 1
    &&& count_kind(f.annotations@, PolicyKind::Bytes) <= 1
}

/// The descriptor a sound field resolves to: the annotated choice where one
/// is written, the default where none is.
pub open spec fn spec_field_descriptor(f: RawField) -> FieldDescriptor {
    FieldDescriptor {
        name: f.name,
        ty: f.ty,
        exposure: match spec_exposure(f.annotations@) {
            Some(m) => m,
            None => ExposureMode::Direct,
        },
        construct: match spec_policy(f.annotations@, PolicyKind::Construct) {
            Some(p) => p,
            None => FieldPolicy::Include,
        },
        hydrate: match spec_policy(f.annotations@, PolicyKind::Hydrate) {
            Some(p) => p,
            None => FieldPolicy::Include,
        },
        bytes_fn: spec_bytes_fn(f.annotations@),
    }
}

/// The error an unsound field is reported with: an unrecognized annotation
/// first, then the first option set that is chosen twice.
pub open spec fn field_error_matches(f: RawField, e: SchemaError) -> bool {
    let s = f.annotations@;
    if spec_unknown(s) is Some {
        e == (SchemaError::UnknownAnnotation { field: f.name, annotation: spec_unknown(s)->Some_0 })
    } else if count_kind(s, PolicyKind::Getter) >= 2 {
        e == (SchemaError::ConflictingOptions { field: f.name, policy: PolicyKind::Getter })
    } else if count_kind(s, PolicyKind::Construct) >= 2 {
        e == (SchemaError::ConflictingOptions { field: f.name, policy: PolicyKind::Construct })
    } else if count_kind(s, PolicyKind::Hydrate) >= 2 {
        e == (SchemaError::ConflictingOptions { field: f.name, policy: PolicyKind::Hydrate })
    } else if count_kind(s, PolicyKind::Bytes) >= 2 {
        e == (SchemaError::ConflictingOptions { field: f.name, policy: PolicyKind::Bytes })
    } else {
        false
    }
}

/// Duplicates an exposure mode.
pub(crate) fn clone_exposure(m: &ExposureMode) -> (r: ExposureMode)
    ensures
        r == *m,
{
    match m {
        ExposureMode::Skip => ExposureMode::Skip,
        ExposureMode::Direct => ExposureMode::Direct,
        ExposureMode::Into(t) => ExposureMode::Into(t.clone()),
        ExposureMode::RefInto(t) => ExposureMode::RefInto(t.clone()),
        ExposureMode::AsRef(t) => ExposureMode::AsRef(t.clone()),
        ExposureMode::Copy => ExposureMode::Copy,
    }
}

/// Resolves one declared field into its descriptor, or reports the first
/// problem with it: an unrecognized annotation, or an option set chosen
/// twice. The resolved choice of each option set is the first annotation of
/// that set; the default stands where none is written.
pub fn validate_field(raw: &RawField) -> (r: Result<FieldDescriptor, SchemaError>)
    ensures
        r is Ok <==> field_ok(*raw),
        r matches Ok(d) ==> d == spec_field_descriptor(*raw),
        r matches Err(e) ==> field_error_matches(*raw, e),
{
    let s = &raw.annotations;
    let n: usize = s.len();
    let mut exposure: Option<ExposureMode> = None;
    let mut construct: Option<FieldPolicy> = None;
    let mut hydrate: Option<FieldPolicy> = None;
    let mut bytes_fn: Option<String> = None;
    let mut unknown: Option<String> = None;
    let mut getter_count: usize = 0;
    let mut construct_count: usize = 0;
    let mut hydrate_count: usize = 0;
    let mut bytes_count: usize = 0;
    let mut i: usize = n;
    while i > 0
        invariant
            i <= n,
            n == s@.len(),
            exposure == spec_exposure(s@.skip(i as int)),
            construct == spec_policy(s@.skip(i as int), PolicyKind::Construct),
            hydrate == spec_policy(s@.skip(i as int), PolicyKind::Hydrate),
            bytes_fn == spec_bytes_fn(s@.skip(i as int)),
            unknown == spec_unknown(s@.skip(i as int)),
            getter_count == count_kind(s@.skip(i as int), PolicyKind::Getter),
            construct_count == count_kind(s@.skip(i as int), PolicyKind::Construct),
            hydrate_count == count_kind(s@.skip(i as int), PolicyKind::Hydrate),
            bytes_count == count_kind(s@.skip(i as int), PolicyKind::Bytes),
            getter_count <= n,
            construct_count <= n,
            hydrate_count <= n,
            bytes_count <= n,
        decreases i,
    {
        i -= 1;
        proof {
            assert(s@.skip(i as int).first() == s@[i as int]);
            assert(s@.skip(i as int).drop_first() =~= s@.skip(i + 1));
            assert(count_kind(s@.skip(i + 1), PolicyKind::Getter) <= s@.skip(i + 1).len())
                by {
                lemma_count_kind_le_len(s@.skip(i + 1), PolicyKind::Getter);
            }
            assert(count_kind(s@.skip(i + 1), PolicyKind::Construct) <= s@.skip(i + 1).len())
                by {
                lemma_count_kind_le_len(s@.skip(i + 1), PolicyKind::Construct);
            }
            assert(count_kind(s@.skip(i + 1), PolicyKind::Hydrate) <= s@.skip(i + 1).len()) by {
                lemma_count_kind_le_len(s@.skip(i + 1), PolicyKind::Hydrate);
            }
            assert(count_kind(s@.skip(i + 1), PolicyKind::Bytes) <= s@.skip(i + 1).len()) by {
                lemma_count_kind_le_len(s@.skip(i + 1), PolicyKind::Bytes);
            }
        }
        match &s[i] {
            Annotation::GetterSkip => {
                exposure = Some(ExposureMode::Skip);
                getter_count += 1;
            },
            Annotation::GetterInto(t) => {
                exposure = Some(ExposureMode::Into(t.clone()));
                getter_count += 1;
            },
            Annotation::GetterRefInto(t) => {
                exposure = Some(ExposureMode::RefInto(t.clone()));
                getter_count += 1;
            },
            Annotation::GetterAsRef(t) => {
                exposure = Some(ExposureMode::AsRef(t.clone()));
                getter_count += 1;
            },
            Annotation::GetterCopy => {
                exposure = Some(ExposureMode::Copy);
                getter_count += 1;
            },
            Annotation::ConstructSkip => {
                construct = Some(FieldPolicy::Skip);
                construct_count += 1;
            },
            Annotation::ConstructRetype(t) => {
                construct = Some(FieldPolicy::Retype(t.clone()));
                construct_count += 1;
            },
            Annotation::HydrateSkip => {
                hydrate = Some(FieldPolicy::Skip);
                hydrate_count += 1;
            },
            Annotation::HydrateRetype(t) => {
                hydrate = Some(FieldPolicy::Retype(t.clone()));
                hydrate_count += 1;
            },
            Annotation::BytesFn(f) => {
                bytes_fn = Some(f.clone());
                bytes_count += 1;
            },
            Annotation::Unknown(u) => {
                unknown = Some(u.clone());
            },
        }
    }
    proof {
        assert(s@.skip(0) =~= s@);
    }
    if let Some(u) = unknown {
        return Err(SchemaError::UnknownAnnotation { field: raw.name.clone(), annotation: u });
    }
    if getter_count >= 2 {
        return Err(
            SchemaError::ConflictingOptions { field: raw.name.clone(), policy: PolicyKind::Getter },
        );
    }
    if construct_count >= 2 {
        return Err(
            SchemaError::ConflictingOptions {
                field: raw.name.clone(),
                policy: PolicyKind::Construct,
            },
        );
    }
    if hydrate_count >= 2 {
        return Err(
            SchemaError::ConflictingOptions {
                field: raw.name.clone(),
                policy: PolicyKind::Hydrate,
            },
        );
    }
    if bytes_count >= 2 {
        return Err(
            SchemaError::ConflictingOptions { field: raw.name.clone(), policy: PolicyKind::Bytes },
        );
    }
    Ok(
        FieldDescriptor {
            name: raw.name.clone(),
            ty: raw.ty.clone(),
            exposure: match exposure {
                Some(m) => m,
                None => ExposureMode::Direct,
            },
            construct: match construct {
                Some(p) => p,
                None => FieldPolicy::Include,
            },
            hydrate: match hydrate {
                Some(p) => p,
                None => FieldPolicy::Include,
            },
            bytes_fn,
        },
    )
}

/// Whether a declared schema is structurally sound: no more than two
/// companion shapes, and every field sound.
pub open spec fn schema_ok(raw: RawSchema) -> bool {
    &&& raw.companions@.len() <= 2
    &&& forall|i: int| 0 <= i < raw.fields@.len() ==> field_ok(raw.fields@[i])
}

/// Validates a declared schema: resolves every field and takes the first
/// declared companion shape as the constructor shape and the second as the
/// hydration shape. On the first problem found nothing is produced: a
/// companion count over two is reported first, then the fields' problems in
/// declaration order.
pub fn validate_schema(raw: RawSchema) -> (r: Result<Schema, SchemaError>)
    ensures
        r is Ok <==> schema_ok(raw),
        r matches Ok(s) ==> {
            &&& s.model_name == raw.model_name
            &&& s.fields@.len() == raw.fields@.len()
            &&& forall|i: int|
                0 <= i < raw.fields@.len() ==> s.fields@[i] == spec_field_descriptor(
                    raw.fields@[i],
                )
            &&& s.constructor_companion == (if raw.companions@.len() >= 1 {
                Some(raw.companions@[0])
            } else {
                None::<CompanionShape>
            })
            &&& s.hydration_companion == (if raw.companions@.len() >= 2 {
                Some(raw.companions@[1])
            } else {
                None::<CompanionShape>
            })
        },
        r matches Err(e) ==> (raw.companions@.len() > 2 ==> (e matches SchemaError::MalformedCompanion {
            count,
        } && count == raw.companions@.len())),
        r matches Err(e) ==> (raw.companions@.len() <= 2 ==> exists|i: int|
            0 <= i < raw.fields@.len() && !field_ok(raw.fields@[i]) && (forall|j: int|
                0 <= j < i ==> field_ok(#[trigger] raw.fields@[j])) && field_error_matches(
                raw.fields@[i],
                e,
            )),
{
    let companion_count: usize = raw.companions.len();
    if companion_count > 2 {
        return Err(SchemaError::MalformedCompanion { count: companion_count });
    }
    let n: usize = raw.fields.len();
    let mut fields: Vec<FieldDescriptor> = Vec::new();
    let mut i: usize = 0;
    while i < n
        invariant
            i <= n,
            n == raw.fields@.len(),
            raw.companions@.len() <= 2,
            fields@.len() == i,
            forall|j: int| 0 <= j < i ==> field_ok(#[trigger] raw.fields@[j]),
            forall|j: int|
                0 <= j < i ==> fields@[j] == spec_field_descriptor(raw.fields@[j]),
        decreases n - i,
    {
        match validate_field(&raw.fields[i]) {
            Ok(d) => {
                fields.push(d);
            },
            Err(e) => {
                proof {
                    let k = i as int;
                    assert(exists|m: int|
                        0 <= m < raw.fields@.len() && !field_ok(raw.fields@[m]) && (forall|j: int|
                            0 <= j < m ==> field_ok(#[trigger] raw.fields@[j]))
                            && field_error_matches(raw.fields@[m], e)) by {
                        assert(0 <= k < raw.fields@.len() && !field_ok(raw.fields@[k]) && (forall|
                            j: int,
                        |
                            0 <= j < k ==> field_ok(#[trigger] raw.fields@[j]))
                            && field_error_matches(raw.fields@[k], e));
                    }
                }
                return Err(e);
            },
        }
        i += 1;
    }
    let mut companions = raw.companions;
    let hydration_companion: Option<CompanionShape> = if companions.len() == 2 {
        companions.pop()
    } else {
        None
    };
    let constructor_companion: Option<CompanionShape> = companions.pop();
    Ok(
        Schema {
            model_name: raw.model_name,
            fields,
            constructor_companion,
            hydration_companion,
        },
    )
}

/// A count of annotations never exceeds the list's length.
proof fn lemma_count_kind_le_len(s: Seq<Annotation>, k: PolicyKind)
    ensures
        count_kind(s, k) <= s.len(),
    decreases s.len(),
{
    if s.len() > 0 {
        lemma_count_kind_le_len(s.drop_first(), k);
    }
}

} // verus!
