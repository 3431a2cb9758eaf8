//! The companion-shape generators.
//!
//! From a validated schema, the constructor generator produces the "new
//! entity" input shape and the hydration generator the "load existing
//! entity" input shape. Each shape holds the companion's extra fields first,
//! then every entity field that the corresponding per-field policy keeps,
//! in declaration order, with the overriding type where the policy retypes.
//! The two policies are independent: a field can be absent from one shape
//! and present in the other.

use crate::schema::{FieldDescriptor, FieldPolicy, Schema, ShapeField};
use vstd::prelude::*;

verus! {

/// A generated companion input shape: the declared name and the fields in
/// order, the companion's own extra fields first.
#[derive(Debug)]
pub struct Shape {
    pub name: String,
    pub fields: Vec<ShapeField>,
}

/// The policy that governs a field's appearance in the hydration shape or,
/// otherwise, in the constructor shape.
pub open spec fn policy_for(f: FieldDescriptor, hydration: bool) -> FieldPolicy {
    if hydration {
        f.hydrate
    } else {
        f.construct
    }
}

/// What one field contributes to a companion shape under the given policy:
/// nothing when skipped, its own name and type when included, its name with
/// the overriding type when retyped.
pub open spec fn spec_shape_entry(f: FieldDescriptor, hydration: bool) -> Option<ShapeField> {
    match policy_for(f, hydration) {
        FieldPolicy::Include => Some(ShapeField { name: f.name, ty: f.ty }),
        FieldPolicy::Skip => None,
        FieldPolicy::Retype(t) => Some(ShapeField { name: f.name, ty: t }),
    }
}

/// The entity fields a companion shape keeps, in declaration order.
pub open spec fn spec_projected(fields: Seq<FieldDescriptor>, hydration: bool) -> Seq<ShapeField>
    decreases fields.len(),
{
    if fields.len() == 0 {
        Seq::empty()
    } else {
        match spec_shape_entry(fields.first(), hydration) {
            Some(sf) => seq![sf] + spec_projected(fields.drop_first(), hydration),
            None => spec_projected(fields.drop_first(), hydration),
        }
    }
}

/// Duplicates a shape field.
fn clone_shape_field(f: &ShapeField) -> (r: ShapeField)
    ensures
        r == *f,
{
    ShapeField { name: f.name.clone(), ty: f.ty.clone() }
}

/// Projects the entity fields a companion shape keeps.
fn projected_fields(fields: &Vec<FieldDescriptor>, hydration: bool) -> (r: Vec<ShapeField>)
    ensures
        r@ == spec_projected(fields@, hydration),
{
    let n: usize = fields.len();
    let mut out: Vec<ShapeField> = Vec::new();
    let mut i: usize = 0;
    proof {
        assert(fields@.skip(0) =~= fields@);
    }
    while i < n
        invariant
            i <= n,
            n == fields@.len(),
            spec_projected(fields@, hydration) =~= out@ + spec_projected(
                fields@.skip(i as int),
                hydration,
            ),
        decreases n - i,
    {
        proof {
            assert(fields@.skip(i as int).first() == fields@[i as int]);
            assert(fields@.skip(i as int).drop_first() =~= fields@.skip(i + 1));
        }
        let f = &fields[i];
        let policy = if hydration {
            &f.hydrate
        } else {
            &f.construct
        };
        match policy {
            FieldPolicy::Include => {
                out.push(ShapeField { name: f.name.clone(), ty: f.ty.clone() });
            },
            FieldPolicy::Skip => {},
            FieldPolicy::Retype(t) => {
                out.push(ShapeField { name: f.name.clone(), ty: t.clone() });
            },
        }
        i += 1;
    }
    proof {
        assert(fields@.skip(n as int) =~= Seq::<FieldDescriptor>::empty());
        assert(out@ + spec_projected(fields@.skip(n as int), hydration) =~= out@);
    }
    out
}

/// Appends duplicates of `src`'s fields to `dst`.
fn append_shape_fields(dst: &mut Vec<ShapeField>, src: &Vec<ShapeField>)
    ensures
        final(dst)@ == old(dst)@ + src@,
{
    let n: usize = src.len();
    let mut i: usize = 0;
    while i < n
        invariant
            i <= n,
            n == src@.len(),
            dst@ == old(dst)@ + src@.subrange(0, i as int),
        decreases n - i,
    {
        dst.push(clone_shape_field(&src[i]));
        proof {
            assert(src@.subrange(0, i + 1) =~= src@.subrange(0, i as int) + seq![src@[i as int]]);
        }
        i += 1;
    }
    proof {
        assert(src@.subrange(0, n as int) =~= src@);
    }
}

/// Generates the "new entity" input shape, when a constructor companion is
/// declared: the companion's extra fields, then every entity field whose
/// constructor policy keeps it. The shape is the complete and minimal
/// caller input: no kept field is omitted and no skipped field is demanded.
pub fn constructor_shape(schema: &Schema) -> (r: Option<Shape>)
    ensures
        r is Some <==> schema.constructor_companion is Some,
        r matches Some(sh) ==> schema.constructor_companion matches Some(c) && sh.name == c.name
            && sh.fields@ == c.extra_fields@ + spec_projected(schema.fields@, false),
{
    match &schema.constructor_companion {
        None => None,
        Some(c) => {
            let mut fields: Vec<ShapeField> = Vec::new();
            append_shape_fields(&mut fields, &c.extra_fields);
            let projected = projected_fields(&schema.fields, false);
            append_shape_fields(&mut fields, &projected);
            proof {
                assert(fields@ =~= c.extra_fields@ + spec_projected(schema.fields@, false));
            }
            Some(Shape { name: c.name.clone(), fields })
        },
    }
}

/// Generates the "load existing entity" input shape, when a hydration
/// companion is declared: the companion's extra fields, then every entity
/// field whose hydration policy keeps it.
pub fn hydration_shape(schema: &Schema) -> (r: Option<Shape>)
    ensures
        r is Some <==> schema.hydration_companion is Some,
        r matches Some(sh) ==> schema.hydration_companion matches Some(c) && sh.name == c.name
            && sh.fields@ == c.extra_fields@ + spec_projected(schema.fields@, true),
{
    match &schema.hydration_companion {
        None => None,
        Some(c) => {
            let mut fields: Vec<ShapeField> = Vec::new();
            append_shape_fields(&mut fields, &c.extra_fields);
            let projected = projected_fields(&schema.fields, true);
            append_shape_fields(&mut fields, &projected);
            proof {
                assert(fields@ =~= c.extra_fields@ + spec_projected(schema.fields@, true));
            }
            Some(Shape { name: c.name.clone(), fields })
        },
    }
}

/// The names of a run of shape fields, in order.
pub open spec fn shape_field_names(s: Seq<ShapeField>) -> Seq<Seq<char>> {
    s.map_values(|sf: ShapeField| sf.name@)
}

/// A name that only skipped fields bear never appears among the projected
/// fields.
proof fn lemma_projected_no_name(fields: Seq<FieldDescriptor>, hydration: bool, n: Seq<char>)
    requires
        forall|j: int|
            0 <= j < fields.len() && (#[trigger] fields[j]).name@ == n ==> policy_for(
                fields[j],
                hydration,
            ) is Skip,
    ensures
        !shape_field_names(spec_projected(fields, hydration)).contains(n),
    decreases fields.len(),
{
    if fields.len() > 0 {
        assert(fields.drop_first().len() == fields.len() - 1);
        assert(forall|j: int|
            0 <= j < fields.drop_first().len() ==> fields.drop_first()[j] == fields[j + 1]);
        lemma_projected_no_name(fields.drop_first(), hydration, n);
        let rest = spec_projected(fields.drop_first(), hydration);
        match spec_shape_entry(fields.first(), hydration) {
            Some(sf) => {
                assert(shape_field_names(seq![sf] + rest) =~= seq![sf.name@] + shape_field_names(
                    rest,
                ));
                assert(sf.name@ == fields[0].name@);
                assert(fields[0].name@ != n);
            },
            None => {},
        }
    }
}

/// A field the policy keeps always appears among the projected fields under
/// its own name.
proof fn lemma_projected_has_name(fields: Seq<FieldDescriptor>, hydration: bool, i: int)
    requires
        0 <= i < fields.len(),
        !(policy_for(fields[i], hydration) is Skip),
    ensures
        shape_field_names(spec_projected(fields, hydration)).contains(fields[i].name@),
    decreases i,
{
    let rest = spec_projected(fields.drop_first(), hydration);
    if i == 0 {
        match spec_shape_entry(fields.first(), hydration) {
            Some(sf) => {
                assert(shape_field_names(seq![sf] + rest) =~= seq![sf.name@] + shape_field_names(
                    rest,
                ));
                assert(shape_field_names(seq![sf] + rest)[0] == fields[0].name@);
            },
            None => {
                assert(false);
            },
        }
    } else {
        assert(fields.drop_first()[i - 1] == fields[i]);
        lemma_projected_has_name(fields.drop_first(), hydration, i - 1);
        match spec_shape_entry(fields.first(), hydration) {
            Some(sf) => {
                assert(shape_field_names(seq![sf] + rest) =~= seq![sf.name@] + shape_field_names(
                    rest,
                ));
                let names = shape_field_names(rest);
                let k = choose|k: int| 0 <= k < names.len() && names[k] == fields[i].name@;
                assert(shape_field_names(seq![sf] + rest)[k + 1] == fields[i].name@);
            },
            None => {},
        }
    }
}

/// Policy independence: when field names are distinct within the schema, a
/// field's presence among a companion shape's projected fields is governed
/// by that shape's own policy alone — skip leaves the name out, include and
/// retype put it in. So a field skipped for construction but included for
/// hydration is absent from the one shape and present in the other, and
/// inversely.
pub proof fn lemma_policy_independence(fields: Seq<FieldDescriptor>, i: int, hydration: bool)
    requires
        0 <= i < fields.len(),
        forall|j: int, k: int|
            0 <= j < k < fields.len() ==> (#[trigger] fields[j]).name@ != (
            #[trigger] fields[k]).name@,
    ensures
        policy_for(fields[i], hydration) is Skip ==> !shape_field_names(
            spec_projected(fields, hydration),
        ).contains(fields[i].name@),
        !(policy_for(fields[i], hydration) is Skip) ==> shape_field_names(
            spec_projected(fields, hydration),
        ).contains(fields[i].name@),
{
    if policy_for(fields[i], hydration) is Skip {
        assert(forall|j: int|
            0 <= j < fields.len() && (#[trigger] fields[j]).name@ == fields[i].name@ ==> j == i);
        lemma_projected_no_name(fields, hydration, fields[i].name@);
    } else {
        lemma_projected_has_name(fields, hydration, i);
    }
}

} // verus!
