//! The mathematical picture of a class schema that every contract speaks of.
//!
//! Names of classes and properties are sequences of characters, compared
//! exactly. A schema is a map from class names to what is recorded under each.

use vstd::prelude::*;
use rbx_dom_weak::types::{Variant, VariantType};
use rbx_reflection::ClassTag;

verus! {

/// What a property's declaration says of its values.
pub enum DeclaredType {
    /// An ordinary value of the given kind.
    Value(VariantType),
    /// A member of the enum with the given name.
    Enum(Seq<char>),
    /// A kind of declaration that carries no type the queries can report.
    Other,
}

/// What is recorded under one class name.
pub struct ClassModel {
    /// The name of the parent class; `None` for a class without one.
    pub superclass: Option<Seq<char>>,
    /// The tags that the class itself carries.
    pub tags: Set<ClassTag>,
    /// The properties that the class declares itself, by name.
    pub properties: Map<Seq<char>, DeclaredType>,
    /// The default values that the class records itself, by property name.
    pub defaults: Map<Seq<char>, Variant>,
}

impl ClassModel {
    /// Whether the class itself carries the service tag.
    pub open spec fn is_service(self) -> bool {
        self.tags.contains(ClassTag::Service)
    }
}

/// A schema: every known class by its name.
pub type Schema = Map<Seq<char>, ClassModel>;

/// The mathematical value of a [`crate::resolver::PropertyInfo`].
pub struct PropertyInfoModel {
    /// The name of the enum, for an enum property.
    pub enum_name: Option<Seq<char>>,
    /// The number of the default member, for an enum property with a usable
    /// default.
    pub enum_default: Option<u32>,
    /// The kind of value, for a value property.
    pub value_type: Option<VariantType>,
    /// The recorded default, for a value property with one.
    pub value_default: Option<Variant>,
}

impl PropertyInfoModel {
    /// The answer for a property that exists but has no type to report.
    pub open spec fn empty() -> PropertyInfoModel {
        PropertyInfoModel {
            enum_name: None,
            enum_default: None,
            value_type: None,
            value_default: None,
        }
    }

    /// An answer describes an enum property, a value property, or neither,
    /// never both; and a default only stands beside the type it belongs to.
    pub open spec fn well_formed(self) -> bool {
        &&& !(self.enum_name is Some && self.value_type is Some)
        &&& self.enum_default is Some ==> self.enum_name is Some
        &&& self.value_default is Some ==> self.value_type is Some
    }
}

} // verus!
