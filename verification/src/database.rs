//! The boundary to the reflection database.
//!
//! The database and its class descriptors come from `rbx_reflection`; the
//! bundled instance comes from `rbx_reflection_database`; default values are
//! `rbx_dom_weak` variants. Verus does not see inside any of them. This module
//! declares those types, gives their contents names that contracts can use,
//! and wraps each read that the queries make. Nothing here is proved: every
//! contract in this file is taken on trust from the source of those crates.

use vstd::prelude::*;
use rbx_dom_weak::types::{Variant, VariantType};
use rbx_reflection::{ClassDescriptor, ClassTag, DataType, ReflectionDatabase};
use crate::model::{ClassModel, DeclaredType};

verus! {

/// `rbx_reflection::ReflectionDatabase`, carried as an opaque value.
#[verifier::external_type_specification]
#[verifier::external_body]
pub struct ExReflectionDatabase<'a>(ReflectionDatabase<'a>);

/// `rbx_reflection::ClassDescriptor`, carried as an opaque value.
#[verifier::external_type_specification]
#[verifier::external_body]
pub struct ExClassDescriptor<'a>(ClassDescriptor<'a>);

/// `rbx_reflection::ClassTag`, a plain list of tags whose members verified
/// code can name.
#[verifier::external_type_specification]
pub struct ExClassTag(ClassTag);

/// `rbx_dom_weak::types::Variant`, carried as an opaque value.
#[verifier::external_type_specification]
#[verifier::external_body]
pub struct ExVariant(Variant);

/// `rbx_dom_weak::types::VariantType`, carried as an opaque value.
#[verifier::external_type_specification]
#[verifier::external_body]
pub struct ExVariantType(VariantType);

/// What a database holds in its `classes` table: each key of the table with
/// the model of the descriptor stored under it.
pub uninterp spec fn schema_model(db: ReflectionDatabase) -> Map<Seq<char>, ClassModel>;

/// What a class descriptor holds in the fields that the queries read:
/// `superclass`, the members of `tags`, the declared type of each entry of
/// `properties`, and the entries of `default_properties`.
pub uninterp spec fn class_model(class: ClassDescriptor) -> ClassModel;

/// The number inside a variant that is `Variant::Enum`; `None` for every other
/// kind of variant.
pub uninterp spec fn enum_ordinal(value: Variant) -> Option<u32>;

/// What the bundled database holds under a class name: the model of the
/// descriptor stored under that key of its `classes` table, or `None` for a
/// name that is no key. The database is compiled into
/// `rbx_reflection_database`, so a name gives the same answer in every run.
pub uninterp spec fn bundled_class(name: Seq<char>) -> Option<ClassModel>;

/// What a schema records under a name, if anything.
pub open spec fn recorded(schema: Map<Seq<char>, ClassModel>, name: Seq<char>) -> Option<
    ClassModel,
> {
    if schema.contains_key(name) {
        Some(schema[name])
    } else {
        None
    }
}

/// The schema of the bundled database: the names under which it holds a
/// class, each with what it holds there.
pub open spec fn bundled_schema() -> Map<Seq<char>, ClassModel> {
    Map::new(
        |name: Seq<char>| bundled_class(name) is Some,
        |name: Seq<char>| bundled_class(name).unwrap(),
    )
}

/// A number counts a set of names: the set is finite and has that many
/// members.
pub open spec fn counts(count: usize, names: Set<Seq<char>>) -> bool {
    names.finite() && names.len() == count
}

/// The declared type of a property as executable code holds it: the enum's
/// name is borrowed from the schema.
pub enum PropertyType<'a> {
    Value(VariantType),
    Enum(&'a str),
    Other,
}

impl<'a> View for PropertyType<'a> {
    type V = DeclaredType;

    open spec fn view(&self) -> DeclaredType {
        match *self {
            PropertyType::Value(kind) => DeclaredType::Value(kind),
            PropertyType::Enum(name) => DeclaredType::Enum(name@),
            PropertyType::Other => DeclaredType::Other,
        }
    }
}

/// Calls `rbx_reflection_database::get`, which hands out the one database
/// that is compiled into that crate. Claimed: what its `classes` table holds
/// under each name is what the bundled database holds there, the same at
/// every call. Nothing is claimed of which classes those are.
///
/// The first call decodes the compiled-in bytes and panics if they do not
/// decode. The bytes are fixed when the crate is built, so a build in which
/// one call returns is a build in which every call does.
#[verifier::external_body]
pub(crate) fn bundled_database() -> (db: &'static ReflectionDatabase<'static>)
    ensures
        forall|name: Seq<char>| #[trigger]
            bundled_class(name) == recorded(schema_model(*db), name),
{
    rbx_reflection_database::get()
}

/// Calls `HashMap::get` on the `classes` table. Claimed: a descriptor comes
/// back exactly when the name is a key of the table, and it is the one stored
/// under that key.
#[verifier::external_body]
pub(crate) fn lookup_class<'a>(db: &'a ReflectionDatabase<'a>, name: &str) -> (found: Option<
    &'a ClassDescriptor<'a>,
>)
    ensures
        match found {
            Some(class) => schema_model(*db).contains_key(name@)
                && class_model(*class) == schema_model(*db)[name@],
            None => !schema_model(*db).contains_key(name@),
        },
{
    db.classes.get(name)
}

/// Calls `HashMap::len` on the `classes` table. Claimed: the table has
/// finitely many keys, and the result is their number.
#[verifier::external_body]
pub(crate) fn class_count(db: &ReflectionDatabase) -> (count: usize)
    ensures
        counts(count, schema_model(*db).dom()),
{
    db.classes.len()
}

/// Reads the `superclass` field. Claimed: the result is the name stored there,
/// if one is.
#[verifier::external_body]
pub(crate) fn superclass_name<'a>(class: &'a ClassDescriptor<'a>) -> (parent: Option<&'a str>)
    ensures
        match parent {
            Some(name) => class_model(*class).superclass == Some(name@),
            None => class_model(*class).superclass is None,
        },
{
    class.superclass.as_deref()
}

/// Calls `HashSet::contains` on the `tags` field. Claimed: the result tells
/// whether the class carries the tag.
#[verifier::external_body]
pub(crate) fn has_tag(class: &ClassDescriptor, tag: ClassTag) -> (tagged: bool)
    ensures
        tagged == class_model(*class).tags.contains(tag),
{
    class.tags.contains(&tag)
}

/// Calls `HashMap::get` on the `properties` field and reads the `data_type` of
/// what it finds. Claimed: a type comes back exactly when the class declares
/// the property itself, and it is the declared one; a kind of `DataType` other
/// than `Value` and `Enum` comes back as `Other`.
#[verifier::external_body]
pub(crate) fn declared_type<'a>(
    class: &'a ClassDescriptor<'a>,
    property_name: &str,
) -> (declared: Option<PropertyType<'a>>)
    ensures
        match declared {
            Some(kind) => class_model(*class).properties.contains_key(property_name@)
                && kind@ == class_model(*class).properties[property_name@],
            None => !class_model(*class).properties.contains_key(property_name@),
        },
{
    match class.properties.get(property_name) {
        Some(property) => Some(match &property.data_type {
            DataType::Value(kind) => PropertyType::Value(*kind),
            DataType::Enum(name) => PropertyType::Enum(name.as_ref()),
            _ => PropertyType::Other,
        }),
        None => None,
    }
}

/// Calls `HashMap::get` on the `default_properties` field. Claimed: a value
/// comes back exactly when the class records a default for the property
/// itself, and it is the recorded one.
#[verifier::external_body]
pub(crate) fn lookup_default<'a>(
    class: &'a ClassDescriptor<'a>,
    property_name: &str,
) -> (default: Option<&'a Variant>)
    ensures
        match default {
            Some(value) => class_model(*class).defaults.contains_key(property_name@)
                && *value == class_model(*class).defaults[property_name@],
            None => !class_model(*class).defaults.contains_key(property_name@),
        },
{
    class.default_properties.get(property_name)
}

/// Tells `Variant::Enum` from the other kinds of variant and calls
/// `Enum::to_u32` on what it holds. Claimed: the result is the number of an
/// enum variant and `None` for any other.
#[verifier::external_body]
pub(crate) fn enum_value(value: &Variant) -> (ordinal: Option<u32>)
    ensures
        ordinal == enum_ordinal(*value),
{
    match value {
        Variant::Enum(member) => Some(member.to_u32()),
        _ => None,
    }
}

} // verus!
