//! Deterministic, content-derived identity values.
//!
//! An identity is derived from a model's type tag and the byte
//! representations of its fields, taken in declaration order: the tag, the
//! separator `" ID"`, and each field's bytes are concatenated into a single
//! name, which is then hashed with a namespaced, deterministic hash into a
//! 16-byte value.

use crate::schema::{FieldDescriptor, Schema};
use vstd::prelude::*;

verus! {

/// The number of bytes in an identity value.
pub const IDENTITY_LEN: usize = 16;

/// Compares two byte vectors for equality of their contents.
pub fn bytes_eq(a: &Vec<u8>, b: &Vec<u8>) -> (r: bool)
    ensures
        r == (a@ == b@),
{
    if a.len() != b.len() {
        assert(a@ != b@);
        return false;
    }
    let n: usize = a.len();
    let mut i: usize = 0;
    while i < n
        invariant
            n == a@.len(),
            n == b@.len(),
            i <= n,
            forall|j: int| 0 <= j < i ==> a@[j] == b@[j],
        decreases n - i,
    {
        if a[i] != b[i] {
            return false;
        }
        i += 1;
    }
    proof {
        assert(a@ =~= b@);
    }
    true
}

/// The hash that turns a 16-byte namespace and a name into a 16-byte
/// identity value. Deterministic in its two arguments.
pub uninterp spec fn uuid_v5_of(namespace: Seq<u8>, name: Seq<u8>) -> Seq<u8>;

/// Relies on uuid::Uuid::new_v5: a deterministic, SHA-1-based UUID
/// (version 5) computed from the namespace and the name bytes alone, so the
/// same inputs always give the same 16 bytes, in every process. Its builder
/// overwrites the version nibble of byte 6 with 5 and the two top bits of
/// byte 8 with the RFC 4122 variant.
#[verifier::external_body]
fn uuid_v5_bytes(namespace: &Vec<u8>, name: &Vec<u8>) -> (r: Vec<u8>)
    requires
        namespace@.len() == 16,
    ensures
        r@ == uuid_v5_of(namespace@, name@),
        r@.len() == 16,
        r@[6] >> 4 == 5,
        r@[8] >> 6 == 2,
{
    let mut ns = [0u8; 16];
    ns.copy_from_slice(namespace.as_slice());
    let id = uuid::Uuid::new_v5(&uuid::Uuid::from_bytes(ns), name.as_slice());
    id.into_bytes().to_vec()
}

/// The concatenation of a sequence of byte sequences, in order.
pub open spec fn concat_bytes(fields: Seq<Seq<u8>>) -> Seq<u8>
    decreases fields.len(),
{
    if fields.len() == 0 {
        Seq::empty()
    } else {
        fields.first() + concat_bytes(fields.drop_first())
    }
}

/// The separator between the type tag and the field bytes.
pub open spec fn identity_separator() -> Seq<u8> {
    seq![32u8, 73u8, 68u8]
}

/// The full byte string that an identity is derived from: the type tag,
/// the separator `" ID"`, and the fields' bytes in declaration order.
pub open spec fn identity_preimage(tag: Seq<u8>, fields: Seq<Seq<u8>>) -> Seq<u8> {
    tag + identity_separator() + concat_bytes(fields)
}

/// Appends the contents of `src` to `dst`.
fn push_bytes(dst: &mut Vec<u8>, src: &Vec<u8>)
    ensures
        final(dst)@ == old(dst)@ + src@,
{
    let n: usize = src.len();
    let mut i: usize = 0;
    while i < n
        invariant
            n == src@.len(),
            i <= n,
            dst@ == old(dst)@ + src@.subrange(0, i as int),
        decreases n - i,
    {
        dst.push(src[i]);
        proof {
            assert(src@.subrange(0, i + 1) =~= src@.subrange(0, i as int) + seq![src@[i as int]]);
        }
        i += 1;
    }
    proof {
        assert(src@.subrange(0, n as int) =~= src@);
    }
}

/// Builds the byte string that an identity is derived from.
pub fn identity_name(tag: &Vec<u8>, fields: &Vec<Vec<u8>>) -> (r: Vec<u8>)
    ensures
        r@ == identity_preimage(tag@, fields.deep_view()),
{
    let mut name: Vec<u8> = Vec::new();
    push_bytes(&mut name, tag);
    name.push(32u8);
    name.push(73u8);
    name.push(68u8);
    proof {
        assert(name@ =~= tag@ + identity_separator());
    }
    let n: usize = fields.len();
    let mut i: usize = 0;
    while i < n
        invariant
            n == fields@.len(),
            i <= n,
            name@ == tag@ + identity_separator() + concat_bytes(fields.deep_view().subrange(0, i as int)),
        decreases n - i,
    {
        push_bytes(&mut name, &fields[i]);
        proof {
            lemma_concat_bytes_push(fields.deep_view().subrange(0, i as int), fields.deep_view()[i as int]);
            assert(fields.deep_view().subrange(0, i + 1)
                =~= fields.deep_view().subrange(0, i as int).push(fields.deep_view()[i as int]));
        }
        i += 1;
    }
    proof {
        assert(fields.deep_view().subrange(0, n as int) =~= fields.deep_view());
    }
    name
}

/// A fixed-length, deterministic identity value: the 16 bytes of a
/// namespaced, content-derived hash over a model's fields.
#[derive(Debug)]
pub struct Identity {
    bytes: Vec<u8>,
}

impl View for Identity {
    type V = Seq<u8>;

    closed spec fn view(&self) -> Seq<u8> {
        self.bytes@
    }
}

impl Identity {
    /// An identity value always holds exactly 16 bytes.
    pub open spec fn wf(&self) -> bool {
        self@.len() == IDENTITY_LEN
    }

    /// Wraps 16 raw bytes as an identity value.
    pub fn from_bytes(bytes: Vec<u8>) -> (r: Self)
        requires
            bytes@.len() == 16,
        ensures
            r@ == bytes@,
            r.wf(),
    {
        Identity { bytes }
    }

    /// The raw bytes of this identity value.
    pub fn as_bytes(&self) -> (r: &Vec<u8>)
        ensures
            r@ == self@,
    {
        &self.bytes
    }

    /// Whether two identity values hold the same bytes.
    pub fn eq_value(&self, other: &Identity) -> (r: bool)
        ensures
            r == (self@ == other@),
    {
        bytes_eq(&self.bytes, &other.bytes)
    }

    /// A duplicate of this identity value.
    pub fn duplicate(&self) -> (r: Self)
        ensures
            r@ == self@,
    {
        let mut bytes: Vec<u8> = Vec::new();
        push_bytes(&mut bytes, &self.bytes);
        proof {
            assert(bytes@ =~= self.bytes@);
        }
        Identity { bytes }
    }
}

/// The identity value derived for a given namespace, type tag and ordered
/// field byte strings.
pub open spec fn spec_identity(namespace: Seq<u8>, tag: Seq<u8>, fields: Seq<Seq<u8>>) -> Seq<u8> {
    uuid_v5_of(namespace, identity_preimage(tag, fields))
}

/// Derives the identity of a model instance: hashes the type tag, the
/// separator and the fields' bytes, in declaration order, under the given
/// 16-byte namespace. The result carries the version-5 and RFC 4122 variant
/// bits, which the hash's builder overwrites.
pub fn derive_identity(namespace: &Vec<u8>, tag: &Vec<u8>, fields: &Vec<Vec<u8>>) -> (r: Identity)
    requires
        namespace@.len() == 16,
    ensures
        r@ == spec_identity(namespace@, tag@, fields.deep_view()),
        r.wf(),
        r@[6] >> 4 == 5,
        r@[8] >> 6 == 2,
{
    let name = identity_name(tag, fields);
    let bytes = uuid_v5_bytes(namespace, &name);
    Identity::from_bytes(bytes)
}

/// Recomputes the identity of a model instance and compares it to an
/// externally supplied value: true exactly when the supplied value equals
/// the derived one.
pub fn check_identity(
    namespace: &Vec<u8>,
    tag: &Vec<u8>,
    fields: &Vec<Vec<u8>>,
    expected: &Identity,
) -> (r: bool)
    requires
        namespace@.len() == 16,
    ensures
        r == (expected@ == spec_identity(namespace@, tag@, fields.deep_view())),
{
    let computed = derive_identity(namespace, tag, fields);
    expected.eq_value(&computed)
}

/// One field's byte source for identity derivation: the field, in
/// declaration order, with the conversion reference that yields its
/// canonical bytes — or none, when the type's native byte representation is
/// used.
#[derive(Debug)]
pub struct ByteSource {
    pub field_name: String,
    pub conversion: Option<String>,
}

/// The byte sources of the given fields, in declaration order.
pub open spec fn spec_byte_sources(fields: Seq<FieldDescriptor>) -> Seq<ByteSource> {
    fields.map_values(
        |f: FieldDescriptor| ByteSource { field_name: f.name, conversion: f.bytes_fn },
    )
}

/// Generates the plan an identity model's derivation follows: every field
/// of the schema, in declaration order, with its byte conversion. The order
/// is load-bearing: reordering fields changes every derived identity.
pub fn byte_sources(schema: &Schema) -> (r: Vec<ByteSource>)
    ensures
        r@ == spec_byte_sources(schema.fields@),
{
    let n: usize = schema.fields.len();
    let mut out: Vec<ByteSource> = Vec::new();
    let mut i: usize = 0;
    while i < n
        invariant
            i <= n,
            n == schema.fields@.len(),
            out@.len() == i,
            forall|j: int| 0 <= j < i ==> out@[j] == spec_byte_sources(schema.fields@)[j],
        decreases n - i,
    {
        let f = &schema.fields[i];
        let conversion = match &f.bytes_fn {
            Some(c) => Some(c.clone()),
            None => None,
        };
        out.push(ByteSource { field_name: f.name.clone(), conversion });
        i += 1;
    }
    proof {
        assert(out@ =~= spec_byte_sources(schema.fields@));
    }
    out
}

/// Determinism: the derived identity is a function of the namespace, the
/// type tag and the field byte strings alone, so equal inputs always give
/// equal identity values, in every call and in every process.
pub proof fn lemma_identity_deterministic(
    ns1: Seq<u8>,
    tag1: Seq<u8>,
    fields1: Seq<Seq<u8>>,
    ns2: Seq<u8>,
    tag2: Seq<u8>,
    fields2: Seq<Seq<u8>>,
)
    requires
        ns1 == ns2,
        tag1 == tag2,
        fields1 == fields2,
    ensures
        spec_identity(ns1, tag1, fields1) == spec_identity(ns2, tag2, fields2),
{
}

/// Concatenation distributes over appending one more sequence at the end.
proof fn lemma_concat_bytes_push(fields: Seq<Seq<u8>>, last: Seq<u8>)
    ensures
        concat_bytes(fields.push(last)) == concat_bytes(fields) + last,
    decreases fields.len(),
{
    if fields.len() == 0 {
        assert(fields.push(last).first() == last);
        assert(fields.push(last).drop_first() =~= Seq::<Seq<u8>>::empty());
        assert(concat_bytes(fields.push(last)) == last + concat_bytes(Seq::<Seq<u8>>::empty()));
        assert(concat_bytes(fields.push(last)) =~= concat_bytes(fields) + last);
    } else {
        assert(fields.push(last).first() == fields.first());
        assert(fields.push(last).drop_first() =~= fields.drop_first().push(last));
        lemma_concat_bytes_push(fields.drop_first(), last);
        assert(concat_bytes(fields.push(last))
            == fields.first() + (concat_bytes(fields.drop_first()) + last));
        assert(concat_bytes(fields.push(last)) =~= concat_bytes(fields) + last);
    }
}

/// Concatenation splits at any index.
proof fn lemma_concat_bytes_split(fields: Seq<Seq<u8>>, i: int)
    requires
        0 <= i <= fields.len(),
    ensures
        concat_bytes(fields) == concat_bytes(fields.take(i)) + concat_bytes(fields.skip(i)),
    decreases i,
{
    if i == 0 {
        assert(fields.take(0) =~= Seq::<Seq<u8>>::empty());
        assert(fields.skip(0) =~= fields);
        assert(concat_bytes(fields.take(0)) + concat_bytes(fields) =~= concat_bytes(fields));
    } else {
        lemma_concat_bytes_split(fields.drop_first(), i - 1);
        assert(fields.take(i).first() == fields.first());
        assert(fields.take(i).drop_first() =~= fields.drop_first().take(i - 1));
        assert(fields.skip(i) =~= fields.drop_first().skip(i - 1));
        assert(concat_bytes(fields) =~= concat_bytes(fields.take(i)) + concat_bytes(fields.skip(i)));
    }
}

/// The same fields with the ones at positions `i` and `j` exchanged.
pub open spec fn swap_fields(fields: Seq<Seq<u8>>, i: int, j: int) -> Seq<Seq<u8>> {
    fields.update(i, fields[j]).update(j, fields[i])
}

/// Order sensitivity: exchanging two fields whose byte strings differ but
/// have the same length changes the byte string that the identity is
/// derived from. (With byte strings of unequal lengths the derived byte
/// string can coincide — exchanging `[0x61, 0x61]` with `[0x61]` leaves the
/// concatenation unchanged — so those inputs are left out here.)
pub proof fn lemma_preimage_order_sensitive(tag: Seq<u8>, fields: Seq<Seq<u8>>, i: int, j: int)
    requires
        0 <= i < j < fields.len(),
        fields[i].len() == fields[j].len(),
        fields[i] != fields[j],
    ensures
        identity_preimage(tag, swap_fields(fields, i, j)) != identity_preimage(tag, fields),
{
    let swapped = swap_fields(fields, i, j);
    let a = fields[i];
    let b = fields[j];

    lemma_concat_bytes_split(fields, i);
    assert(fields.skip(i).first() == a);
    assert(concat_bytes(fields.skip(i)) == a + concat_bytes(fields.skip(i).drop_first()));

    lemma_concat_bytes_split(swapped, i);
    assert(swapped.take(i) =~= fields.take(i));
    assert(swapped.skip(i).first() == b);
    assert(concat_bytes(swapped.skip(i)) == b + concat_bytes(swapped.skip(i).drop_first()));

    let p = tag + identity_separator() + concat_bytes(fields.take(i));
    let s1 = concat_bytes(fields.skip(i).drop_first());
    let s2 = concat_bytes(swapped.skip(i).drop_first());
    let pre1 = identity_preimage(tag, fields);
    let pre2 = identity_preimage(tag, swapped);
    assert(pre1 =~= p + a + s1);
    assert(pre2 =~= p + b + s2);

    assert(!(a =~= b));
    assert(exists|k: int| 0 <= k < a.len() && a[k] != b[k]);
    let k = choose|k: int| 0 <= k < a.len() && a[k] != b[k];
    assert(pre1[p.len() + k] == a[k]);
    assert(pre2[p.len() + k] == b[k]);
    assert(pre1 != pre2);
}

} // verus!
