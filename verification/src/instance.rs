//! The queries against the bundled reflection database.
//!
//! Each function here asks a [`ClassHierarchyResolver`] over the bundled
//! database, and answers as that resolver does on the bundled schema.

use vstd::prelude::*;
use crate::database::bundled_schema;
use crate::query::{is_a, is_service, property_info};
use crate::resolver::{ClassHierarchyResolver, PropertyInfo};
use crate::text::same_text;

verus! {

/// What the bundled database knows of a property of `instance_class`, looking
/// through its ancestors where the class does not declare the property
/// itself. `None` if the class or the property does not exist.
pub fn find_property_info(instance_class: &str, property_name: &str) -> (found: Option<
    PropertyInfo<'static>,
>)
    ensures
        match found {
            Some(info) => property_info(bundled_schema(), instance_class@, property_name@)
                == Some(info@),
            None => property_info(bundled_schema(), instance_class@, property_name@) is None,
        },
        found matches Some(info) ==> info@.well_formed(),
{
    ClassHierarchyResolver::bundled().find_property_info(instance_class, property_name)
}

/// Whether the bundled database has a class of this name.
pub fn class_exists(class_name: &str) -> (found: bool)
    ensures
        found == bundled_schema().contains_key(class_name@),
{
    ClassHierarchyResolver::bundled().class_exists(class_name)
}

/// Whether `instance_class` is `class_name` or descends from it, by the
/// bundled database; `None` where the database lacks a class that the answer
/// depends on.
///
/// Every class is itself and every class is an `Instance`: those answers are
/// given before the database is touched.
pub fn class_is_a(instance_class: &str, class_name: &str) -> (answer: Option<bool>)
    ensures
        answer == is_a(bundled_schema(), instance_class@, class_name@),
{
    if same_text(class_name, "Instance") || same_text(instance_class, class_name) {
        Some(true)
    } else {
        ClassHierarchyResolver::bundled().class_is_a(instance_class, class_name)
    }
}

/// Whether `instance_class` is a service, by the bundled database; `None`
/// where the database lacks a class that the answer depends on.
pub fn class_is_a_service(instance_class: &str) -> (answer: Option<bool>)
    ensures
        answer == is_service(bundled_schema(), instance_class@),
{
    ClassHierarchyResolver::bundled().class_is_a_service(instance_class)
}

} // verus!
