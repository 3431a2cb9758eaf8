//! The getter generator.
//!
//! For each field whose exposure mode is not skip, one read accessor is
//! produced, named after the field and shaped by the mode. The generator is
//! total over every validated schema: it has no failure modes.

use crate::schema::{clone_exposure, ExposureMode, FieldDescriptor, Schema};
use vstd::prelude::*;

verus! {

/// One generated read accessor: named after its field, shaped by the
/// field's exposure mode.
#[derive(Debug)]
pub struct Accessor {
    pub name: String,
    pub mode: ExposureMode,
}

/// The accessors the given fields give rise to: one per field whose
/// exposure mode is not skip, in declaration order.
pub open spec fn spec_accessors(fields: Seq<FieldDescriptor>) -> Seq<Accessor>
    decreases fields.len(),
{
    if fields.len() == 0 {
        Seq::empty()
    } else {
        let rest = spec_accessors(fields.drop_first());
        if fields.first().exposure is Skip {
            rest
        } else {
            seq![Accessor { name: fields.first().name, mode: fields.first().exposure }] + rest
        }
    }
}

/// Generates the read accessors of a schema, in declaration order.
pub fn generate_getters(schema: &Schema) -> (r: Vec<Accessor>)
    ensures
        r@ == spec_accessors(schema.fields@),
{
    let n: usize = schema.fields.len();
    let mut accessors: Vec<Accessor> = Vec::new();
    let mut i: usize = 0;
    proof {
        assert(schema.fields@.skip(0) =~= schema.fields@);
    }
    while i < n
        invariant
            i <= n,
            n == schema.fields@.len(),
            spec_accessors(schema.fields@) =~= accessors@ + spec_accessors(
                schema.fields@.skip(i as int),
            ),
        decreases n - i,
    {
        proof {
            assert(schema.fields@.skip(i as int).first() == schema.fields@[i as int]);
            assert(schema.fields@.skip(i as int).drop_first() =~= schema.fields@.skip(i + 1));
        }
        let f = &schema.fields[i];
        match &f.exposure {
            ExposureMode::Skip => {},
            _ => {
                accessors.push(
                    Accessor { name: f.name.clone(), mode: clone_exposure(&f.exposure) },
                );
            },
        }
        i += 1;
    }
    proof {
        assert(schema.fields@.skip(n as int) =~= Seq::<FieldDescriptor>::empty());
        assert(accessors@ + spec_accessors(schema.fields@.skip(n as int)) =~= accessors@);
    }
    accessors
}

} // verus!
