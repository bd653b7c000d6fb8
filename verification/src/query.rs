//! What each query answers, stated over the model of a schema.

use vstd::prelude::*;
use rbx_dom_weak::types::Variant;
use crate::chain::{search, Goal, Outcome};
use crate::database::enum_ordinal;
use crate::model::{ClassModel, DeclaredType, PropertyInfoModel, Schema};

verus! {

/// The name of the root class, which every class is taken to descend from
/// whether or not the schema records it.
pub open spec fn root_class() -> Seq<char> {
    "Instance"@
}

/// Whether `instance_class` is `class_name` or descends from it.
///
/// `Some(true)` at once when `class_name` is the root class or the two names
/// are the same text. Otherwise the chain of `instance_class` is searched for
/// a known class named `class_name`: `Some(true)` when it is found, `None`
/// when the chain first reaches a name that the schema lacks, `Some(false)`
/// when every class of the chain is known and none has that name.
pub open spec fn is_a(schema: Schema, instance_class: Seq<char>, class_name: Seq<char>) -> Option<
    bool,
> {
    if class_name == root_class() || instance_class == class_name {
        Some(true)
    } else {
        match search(schema, instance_class, Goal::Named(class_name)) {
            Outcome::Found(_) => Some(true),
            Outcome::Missing => None,
            Outcome::Exhausted => Some(false),
        }
    }
}

/// Whether `instance_class` or one of its ancestors carries the service tag.
///
/// `Some(true)` when the nearest tagged class is reached through known
/// classes only, `None` when the chain first reaches a name that the schema
/// lacks, `Some(false)` when every class of the chain is known and none is
/// tagged.
pub open spec fn is_service(schema: Schema, instance_class: Seq<char>) -> Option<bool> {
    match search(schema, instance_class, Goal::Service) {
        Outcome::Found(_) => Some(true),
        Outcome::Missing => None,
        Outcome::Exhausted => Some(false),
    }
}

/// The default that a class records for a property, if it records one.
pub open spec fn default_of(class: ClassModel, property_name: Seq<char>) -> Option<Variant> {
    if class.defaults.contains_key(property_name) {
        Some(class.defaults[property_name])
    } else {
        None
    }
}

/// What is reported of a property that `class` declares itself.
///
/// An enum property reports the enum's name, and as its default the number of
/// the recorded default when that default is an enum value; a default of any
/// other kind counts as none. A value property reports its kind and the
/// recorded default as it stands. Any other declaration reports nothing.
pub open spec fn resolve(class: ClassModel, property_name: Seq<char>) -> PropertyInfoModel {
    match class.properties[property_name] {
        DeclaredType::Enum(enum_name) => PropertyInfoModel {
            enum_name: Some(enum_name),
            enum_default: match default_of(class, property_name) {
                Some(value) => enum_ordinal(value),
                None => None,
            },
            value_type: None,
            value_default: None,
        },
        DeclaredType::Value(kind) => PropertyInfoModel {
            enum_name: None,
            enum_default: None,
            value_type: Some(kind),
            value_default: default_of(class, property_name),
        },
        DeclaredType::Other => PropertyInfoModel::empty(),
    }
}

/// What is known of a property of `instance_class`.
///
/// The nearest class of the chain that declares the property decides alone:
/// type and default are both read from it. `None` when no class declares the
/// property before the chain ends or reaches a name that the schema lacks.
pub open spec fn property_info(
    schema: Schema,
    instance_class: Seq<char>,
    property_name: Seq<char>,
) -> Option<PropertyInfoModel> {
    match search(schema, instance_class, Goal::Declaring(property_name)) {
        Outcome::Found(owner) => Some(resolve(schema[owner], property_name)),
        _ => None,
    }
}

} // verus!
