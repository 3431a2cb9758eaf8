//! The user entity and its identity model.
//!
//! `UserId` is an identity model over a single field, the user's email: its
//! identity value is derived from the type tag `"UserId"` and the email's
//! bytes under the system-wide namespace. `User` is the entity built on top
//! of it, created fresh from `NewUserAttrs` or rehydrated from `UserAttrs`
//! with the stored identity checked against the recomputed one.

use crate::errors::DomainError;
use crate::identity::{spec_identity, Identity};
use vstd::prelude::*;
use vstd::utf8::encode_utf8;

verus! {

/// The 16-byte namespace under which every identity of this system is
/// derived. Changing it invalidates every previously stored identity, so it
/// is part of the storage format contract.
pub open spec fn spec_uuid_namespace() -> Seq<u8> {
    // the bytes of "identify-backend"
    seq![
        105u8, 100u8, 101u8, 110u8, 116u8, 105u8, 102u8, 121u8,
        45u8, 98u8, 97u8, 99u8, 107u8, 101u8, 110u8, 100u8,
    ]
}

/// The system-wide identity namespace as bytes.
pub fn uuid_namespace() -> (r: Vec<u8>)
    ensures
        r@ == spec_uuid_namespace(),
        r@.len() == 16,
{
    let mut v: Vec<u8> = Vec::new();
    v.push(105u8);
    v.push(100u8);
    v.push(101u8);
    v.push(110u8);
    v.push(116u8);
    v.push(105u8);
    v.push(102u8);
    v.push(121u8);
    v.push(45u8);
    v.push(98u8);
    v.push(97u8);
    v.push(99u8);
    v.push(107u8);
    v.push(101u8);
    v.push(110u8);
    v.push(100u8);
    proof {
        assert(v@ =~= spec_uuid_namespace());
    }
    v
}

/// The type tag that a user identity is derived under.
pub open spec fn spec_user_id_tag() -> Seq<u8> {
    // the bytes of "UserId"
    seq![85u8, 115u8, 101u8, 114u8, 73u8, 100u8]
}

/// The `UserId` type tag as bytes.
fn user_id_tag() -> (r: Vec<u8>)
    ensures
        r@ == spec_user_id_tag(),
{
    let mut v: Vec<u8> = Vec::new();
    v.push(85u8);
    v.push(115u8);
    v.push(101u8);
    v.push(114u8);
    v.push(73u8);
    v.push(100u8);
    proof {
        assert(v@ =~= spec_user_id_tag());
    }
    v
}

/// The identity value of a user with the given email: the namespaced hash
/// over the `UserId` tag and the email's bytes.
pub open spec fn spec_user_identity(email: Seq<char>) -> Seq<u8> {
    spec_identity(spec_uuid_namespace(), spec_user_id_tag(), seq![encode_utf8(email)])
}

/// The attributes a `UserId` is built from.
#[derive(Debug)]
pub struct UserIdAttrs {
    /// Email of the user.
    pub email: String,
}

/// A stable and deterministic ID that uniquely identifies a `User` within
/// the system. Its view is the email it was derived from.
#[derive(Debug)]
pub struct UserId {
    email: String,
}

impl View for UserId {
    type V = Seq<char>;

    closed spec fn view(&self) -> Seq<char> {
        self.email@
    }
}

impl UserId {
    /// Builds a fresh ID model; its identity is self-derived, so it is
    /// valid by construction.
    pub fn new(attrs: UserIdAttrs) -> (r: Self)
        ensures
            r@ == attrs.email@,
    {
        UserId { email: attrs.email }
    }

    /// Rehydrates an ID model from stored attributes: recomputes the
    /// identity and compares it to the externally supplied one. Succeeds
    /// exactly when the supplied value equals the derived one; otherwise
    /// reports the mismatch with both values.
    pub fn load(attrs: UserIdAttrs, expected: Identity) -> (r: Result<Self, DomainError>)
        ensures
            r is Ok <==> expected@ == spec_user_identity(attrs.email@),
            r matches Ok(id) ==> id@ == attrs.email@,
            r matches Err(e) ==> e matches DomainError::IdMismatch {
                model,
                expected: sup,
                computed,
            } && model@ == "UserId"@ && sup@ == expected@ && computed@ == spec_user_identity(
                attrs.email@,
            ),
    {
        let id = UserId { email: attrs.email };
        let generated = id.to_uuid();
        if !generated.eq_value(&expected) {
            return Err(DomainError::id_mismatch("UserId".to_owned(), expected, generated));
        }
        Ok(id)
    }

    /// Email of the user.
    pub fn email(&self) -> (r: &String)
        ensures
            r@ == self@,
    {
        &self.email
    }

    /// Derives the identity value from the fields this ID model has.
    pub fn to_uuid(&self) -> (r: Identity)
        ensures
            r@ == spec_user_identity(self@),
            r.wf(),
    {
        let namespace = uuid_namespace();
        let tag = user_id_tag();
        let mut fields: Vec<Vec<u8>> = Vec::new();
        let email_bytes = self.email.as_str().as_bytes_vec();
        fields.push(email_bytes);
        proof {
            assert(fields.deep_view().len() == 1);
            assert(fields.deep_view()[0] =~= fields@[0]@);
            assert(fields.deep_view()[0] =~= encode_utf8(self.email@));
            assert(fields.deep_view() =~= seq![encode_utf8(self.email@)]);
        }
        crate::identity::derive_identity(&namespace, &tag, &fields)
    }
}

/// Relies on std::time::SystemTime::now: the current time, read as whole
/// milliseconds since the Unix epoch — negative for a clock set before it,
/// saturating at the ends of i64. Both arms of the clock reading are handed
/// back as values, so the call returns on every outcome; nothing else is
/// promised of it, since the result depends on the clock alone.
#[verifier::external_body]
fn now_millis() -> i64 {
    match std::time::SystemTime::now().duration_since(std::time::UNIX_EPOCH) {
        Ok(since) => i64::try_from(since.as_millis()).unwrap_or(i64::MAX),
        Err(before) => i64::try_from(before.duration().as_millis()).map_or(i64::MIN, |ms| -ms),
    }
}

/// The attributes a fresh `User` is created from: the caller supplies only
/// what cannot be derived. The identity and both timestamps are computed by
/// the entity itself.
#[derive(Debug)]
pub struct NewUserAttrs {
    /// Email of the user that uniquely identifies them within the system.
    pub email: String,
    /// User's first name.
    pub first_name: String,
    /// User's last name.
    pub last_name: Option<String>,
}

/// The attributes an existing `User` is rehydrated from: the full persisted
/// record, with the stored identity to be checked, never trusted.
#[derive(Debug)]
pub struct UserAttrs {
    /// Email of the user that uniquely identifies them within the system.
    pub email: String,
    /// The stored identity value.
    pub id: Identity,
    /// User's first name.
    pub first_name: String,
    /// User's last name.
    pub last_name: Option<String>,
    /// When the user was created, in milliseconds since the epoch.
    pub created_at: i64,
    /// When the user was last updated, in milliseconds since the epoch.
    pub updated_at: i64,
}

/// The mathematical content of a `User`.
pub struct UserView {
    pub email: Seq<char>,
    pub first_name: Seq<char>,
    pub last_name: Option<Seq<char>>,
    pub created_at: int,
    pub updated_at: int,
}

/// A user entity: immutable after construction, identified by the identity
/// value derived from its email.
#[derive(Debug)]
pub struct User {
    id: UserId,
    first_name: String,
    last_name: Option<String>,
    created_at: i64,
    updated_at: i64,
}

impl View for User {
    type V = UserView;

    closed spec fn view(&self) -> UserView {
        UserView {
            email: self.id@,
            first_name: self.first_name@,
            last_name: self.last_name.deep_view(),
            created_at: self.created_at as int,
            updated_at: self.updated_at as int,
        }
    }
}

/// Whether rehydrating from `attrs` succeeds: exactly when the stored
/// identity equals the one recomputed from the stored email.
pub open spec fn spec_load_ok(attrs: UserAttrs) -> bool {
    attrs.id@ == spec_user_identity(attrs.email@)
}

/// The user that rehydrating from `attrs` yields when the identity check
/// passes.
pub open spec fn spec_loaded_view(attrs: UserAttrs) -> UserView {
    UserView {
        email: attrs.email@,
        first_name: attrs.first_name@,
        last_name: attrs.last_name.deep_view(),
        created_at: attrs.created_at as int,
        updated_at: attrs.updated_at as int,
    }
}

/// Whether `attrs` is the persisted record of `user`: every accessor output
/// is stored, and the stored identity is the one derived from the email.
pub open spec fn attributes_of(user: User, attrs: UserAttrs) -> bool {
    &&& attrs.email@ == user@.email
    &&& attrs.id@ == spec_user_identity(user@.email)
    &&& attrs.first_name@ == user@.first_name
    &&& attrs.last_name.deep_view() == user@.last_name
    &&& attrs.created_at == user@.created_at
    &&& attrs.updated_at == user@.updated_at
}

impl User {
    /// Creates a fresh user: the identity is self-derived from the email,
    /// and both timestamps are set to the same current time.
    pub fn new(attrs: NewUserAttrs) -> (r: Self)
        ensures
            r@.email == attrs.email@,
            r@.first_name == attrs.first_name@,
            r@.last_name == attrs.last_name.deep_view(),
            r@.created_at == r@.updated_at,
    {
        let now: i64 = now_millis();
        User {
            id: UserId::new(UserIdAttrs { email: attrs.email }),
            first_name: attrs.first_name,
            last_name: attrs.last_name,
            created_at: now,
            updated_at: now,
        }
    }

    /// Rehydrates a user from its persisted record: the stored identity is
    /// recomputed from the stored email and checked. Succeeds exactly when
    /// the two agree; otherwise reports the mismatch with both values and
    /// rehydrates nothing.
    pub fn load(attrs: UserAttrs) -> (r: Result<Self, DomainError>)
        ensures
            r is Ok <==> spec_load_ok(attrs),
            r matches Ok(user) ==> user@ == spec_loaded_view(attrs),
            r matches Err(e) ==> e matches DomainError::IdMismatch {
                model,
                expected,
                computed,
            } && model@ == "UserId"@ && expected@ == attrs.id@ && computed@ == spec_user_identity(
                attrs.email@,
            ),
    {
        match UserId::load(UserIdAttrs { email: attrs.email }, attrs.id) {
            Ok(id) => Ok(User {
                id,
                first_name: attrs.first_name,
                last_name: attrs.last_name,
                created_at: attrs.created_at,
                updated_at: attrs.updated_at,
            }),
            Err(e) => Err(e),
        }
    }

    /// The persisted record of this user: every accessor output, with the
    /// identity value stored alongside the fields it is derived from.
    pub fn to_attributes(&self) -> (r: UserAttrs)
        ensures
            attributes_of(*self, r),
    {
        let last_name = match &self.last_name {
            Some(n) => Some(n.clone()),
            None => None,
        };
        UserAttrs {
            id: self.id(),
            email: self.id.email().clone(),
            first_name: self.first_name.clone(),
            last_name,
            created_at: self.created_at,
            updated_at: self.updated_at,
        }
    }

    /// A stable deterministic ID for this user.
    pub fn id(&self) -> (r: Identity)
        ensures
            r@ == spec_user_identity(self@.email),
            r.wf(),
    {
        self.id.to_uuid()
    }

    /// User's first name.
    pub fn first_name(&self) -> (r: &String)
        ensures
            r@ == self@.first_name,
    {
        &self.first_name
    }

    /// User's last name.
    pub fn last_name(&self) -> (r: &Option<String>)
        ensures
            r.deep_view() == self@.last_name,
    {
        &self.last_name
    }

    /// When the user was created, in milliseconds since the epoch.
    pub fn created_at(&self) -> (r: i64)
        ensures
            r == self@.created_at,
    {
        self.created_at
    }

    /// When the user was last updated, in milliseconds since the epoch.
    pub fn updated_at(&self) -> (r: i64)
        ensures
            r == self@.updated_at,
    {
        self.updated_at
    }
}

/// Fresh-path validity: rehydrating from the record that a user itself
/// wrote always passes the identity check and reproduces the user's whole
/// content. Any user whose record satisfies `attributes_of` — in particular
/// the record that `to_attributes` returns — loads back unchanged.
pub proof fn lemma_fresh_path_round_trip(user: User, attrs: UserAttrs)
    requires
        attributes_of(user, attrs),
    ensures
        spec_load_ok(attrs),
        spec_loaded_view(attrs) == user@,
{
}

} // verus!
