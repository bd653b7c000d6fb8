//! The resolver: the queries themselves, run against a reflection database.

use std::borrow::Cow;
use vstd::prelude::*;
use rbx_dom_weak::types::{Variant, VariantType};
use rbx_reflection::{ClassDescriptor, ClassTag, ReflectionDatabase};
use crate::chain::{
    lemma_walk_breaks, lemma_walk_cycles, lemma_walk_ends, lemma_walk_finds, lemma_walk_goes_on,
    Goal, Outcome, Walk,
};
use crate::database::{
    bundled_database, bundled_schema, class_count, class_model, declared_type, enum_value,
    has_tag, lookup_class, lookup_default, schema_model, superclass_name, PropertyType,
};
use crate::model::{PropertyInfoModel, Schema};
use crate::query::{is_a, is_service, property_info, root_class};
use crate::text::same_text;

verus! {

/// What is known of one property: either the name of its enum, with the
/// number of the default member where the schema records one, or the kind of
/// its value, with the recorded default. Names and defaults are borrowed from
/// the schema.
pub struct PropertyInfo<'a> {
    /// The name of the enum, for an enum property.
    pub enum_name: Option<Cow<'a, str>>,
    /// The number of the default member, for an enum property whose class
    /// records an enum value as its default.
    pub enum_default: Option<u32>,
    /// The kind of value, for a value property.
    pub value_type: Option<VariantType>,
    /// The recorded default, for a value property whose class records one.
    pub value_default: Option<&'a Variant>,
}

impl<'a> View for PropertyInfo<'a> {
    type V = PropertyInfoModel;

    open spec fn view(&self) -> PropertyInfoModel {
        PropertyInfoModel {
            enum_name: match self.enum_name {
                Some(name) => Some(name@),
                None => None,
            },
            enum_default: self.enum_default,
            value_type: self.value_type,
            value_default: match self.value_default {
                Some(value) => Some(*value),
                None => None,
            },
        }
    }
}

/// A walk is under way in `schema`, stands at `current`, and may follow
/// `spare` more links: of as many links as the schema has classes, it has
/// used up one for each link that it followed.
spec fn under_way(walk: Walk, schema: Schema, current: Seq<char>, spare: usize) -> bool {
    &&& walk.valid()
    &&& walk.schema == schema
    &&& walk.current == current
    &&& schema.dom().finite()
    &&& walk.steps + spare == schema.dom().len()
}

/// Follows the superclass link of the class at which a walk stands, once the
/// class has turned out not to meet the goal. `None` means that the search is
/// exhausted: the class has no parent, or the walk has followed as many links
/// as the schema has classes and so runs round a cycle.
fn climb<'a>(
    class: &'a ClassDescriptor<'a>,
    spare: &mut usize,
    Ghost(walk): Ghost<Walk>,
) -> (parent: Option<&'a str>)
    requires
        under_way(walk, walk.schema, walk.current, *old(spare)),
        walk.at_known_class(),
        !walk.at_goal(),
        class_model(*class) == walk.schema[walk.current],
    ensures
        match parent {
            Some(name) => under_way(walk.at_parent(name@), walk.schema, name@, *final(spare))
                && *final(spare) < *old(spare),
            None => walk.outcome() == Outcome::Exhausted,
        },
{
    match superclass_name(class) {
        None => {
            proof {
                lemma_walk_ends(walk);
            }
            None
        },
        Some(parent) => {
            if *spare == 0 {
                proof {
                    lemma_walk_cycles(walk);
                }
                None
            } else {
                proof {
                    lemma_walk_goes_on(walk, parent@);
                }
                *spare -= 1;
                Some(parent)
            }
        },
    }
}

/// Answers questions about classes from the superclass links, properties,
/// defaults and tags of one reflection database, which it only reads.
pub struct ClassHierarchyResolver<'a> {
    schema: &'a ReflectionDatabase<'a>,
}

impl<'a> ClassHierarchyResolver<'a> {
    /// The schema that the resolver reads.
    pub closed spec fn schema(&self) -> Schema {
        schema_model(*self.schema)
    }

    /// A resolver over the given database.
    pub fn new(schema: &'a ReflectionDatabase<'a>) -> (resolver: Self)
        ensures
            resolver.schema() == schema_model(*schema),
    {
        ClassHierarchyResolver { schema }
    }

    /// Whether the schema has a class of this name.
    pub fn class_exists(&self, class_name: &str) -> (found: bool)
        ensures
            found == self.schema().contains_key(class_name@),
    {
        lookup_class(self.schema, class_name).is_some()
    }

    /// Whether `instance_class` is `class_name` or descends from it; `None`
    /// where the schema lacks a class that the answer depends on.
    ///
    /// The walk follows at most as many links as the schema has classes. A
    /// walk that long has run into a cycle, which can hold no class that it
    /// has not seen, so the answer is then `Some(false)`.
    pub fn class_is_a(&self, instance_class: &str, class_name: &str) -> (answer: Option<bool>)
        ensures
            answer == is_a(self.schema(), instance_class@, class_name@),
    {
        if same_text(class_name, "Instance") || same_text(instance_class, class_name) {
            return Some(true);
        }
        let ghost schema = self.schema();
        let ghost mut walk = Walk::begin(schema, instance_class@, Goal::Named(class_name@));
        let mut spare: usize = class_count(self.schema);
        let mut current: &str = instance_class;
        loop
            invariant
                under_way(walk, schema, current@, spare),
                schema == schema_model(*self.schema),
                walk.start == instance_class@,
                walk.goal == Goal::Named(class_name@),
                class_name@ != root_class(),
                instance_class@ != class_name@,
            decreases spare,
        {
            match lookup_class(self.schema, current) {
                None => {
                    proof {
                        lemma_walk_breaks(walk);
                    }
                    return None;
                },
                Some(class) => {
                    if same_text(current, class_name) {
                        proof {
                            lemma_walk_finds(walk);
                        }
                        return Some(true);
                    }
                    match climb(class, &mut spare, Ghost(walk)) {
                        None => {
                            return Some(false);
                        },
                        Some(parent) => {
                            proof {
                                walk = walk.at_parent(parent@);
                            }
                            current = parent;
                        },
                    }
                },
            }
        }
    }

    /// Whether `instance_class` or one of its ancestors carries the service
    /// tag; `None` where the schema lacks a class that the answer depends on.
    ///
    /// Services share no base class, so every class of the chain is asked for
    /// the tag. The walk is bounded as in [`Self::class_is_a`]; a chain that
    /// runs round a cycle without a tagged class answers `Some(false)`.
    pub fn class_is_a_service(&self, instance_class: &str) -> (answer: Option<bool>)
        ensures
            answer == is_service(self.schema(), instance_class@),
    {
        let ghost schema = self.schema();
        let ghost mut walk = Walk::begin(schema, instance_class@, Goal::Service);
        let mut spare: usize = class_count(self.schema);
        let mut current: &str = instance_class;
        loop
            invariant
                under_way(walk, schema, current@, spare),
                schema == schema_model(*self.schema),
                walk.start == instance_class@,
                walk.goal == Goal::Service,
            decreases spare,
        {
            match lookup_class(self.schema, current) {
                None => {
                    proof {
                        lemma_walk_breaks(walk);
                    }
                    return None;
                },
                Some(class) => {
                    if has_tag(class, ClassTag::Service) {
                        proof {
                            lemma_walk_finds(walk);
                        }
                        return Some(true);
                    }
                    match climb(class, &mut spare, Ghost(walk)) {
                        None => {
                            return Some(false);
                        },
                        Some(parent) => {
                            proof {
                                walk = walk.at_parent(parent@);
                            }
                            current = parent;
                        },
                    }
                },
            }
        }
    }

    /// What is known of a property of `instance_class`: the declaration of
    /// the nearest class of the chain that has one, with the default that the
    /// same class records. `None` when no class of the chain declares the
    /// property, or the chain reaches a name that the schema lacks before one
    /// does.
    ///
    /// The walk is bounded as in [`Self::class_is_a`]; a chain that runs round
    /// a cycle without a declaring class answers `None`.
    pub fn find_property_info(&self, instance_class: &str, property_name: &str) -> (found: Option<
        PropertyInfo<'a>,
    >)
        ensures
            match found {
                Some(info) => property_info(self.schema(), instance_class@, property_name@)
                    == Some(info@),
                None => property_info(self.schema(), instance_class@, property_name@) is None,
            },
            found matches Some(info) ==> info@.well_formed(),
    {
        let ghost schema = self.schema();
        let ghost mut walk = Walk::begin(schema, instance_class@, Goal::Declaring(property_name@));
        let mut spare: usize = class_count(self.schema);
        let mut current: &str = instance_class;
        loop
            invariant
                under_way(walk, schema, current@, spare),
                schema == schema_model(*self.schema),
                walk.start == instance_class@,
                walk.goal == Goal::Declaring(property_name@),
            decreases spare,
        {
            match lookup_class(self.schema, current) {
                None => {
                    proof {
                        lemma_walk_breaks(walk);
                    }
                    return None;
                },
                Some(class) => match declared_type(class, property_name) {
                    Some(declared) => {
                        proof {
                            lemma_walk_finds(walk);
                        }
                        let default = lookup_default(class, property_name);
                        return Some(
                            match declared {
                                PropertyType::Enum(enum_name) => PropertyInfo {
                                    enum_name: Some(Cow::Borrowed(enum_name)),
                                    enum_default: match default {
                                        Some(value) => enum_value(value),
                                        None => None,
                                    },
                                    value_type: None,
                                    value_default: None,
                                },
                                PropertyType::Value(kind) => PropertyInfo {
                                    enum_name: None,
                                    enum_default: None,
                                    value_type: Some(kind),
                                    value_default: default,
                                },
                                PropertyType::Other => PropertyInfo {
                                    enum_name: None,
                                    enum_default: None,
                                    value_type: None,
                                    value_default: None,
                                },
                            },
                        );
                    },
                    None => match climb(class, &mut spare, Ghost(walk)) {
                        None => {
                            return None;
                        },
                        Some(parent) => {
                            proof {
                                walk = walk.at_parent(parent@);
                            }
                            current = parent;
                        },
                    },
                },
            }
        }
    }
}

impl ClassHierarchyResolver<'static> {
    /// A resolver over the database that is bundled with the program.
    pub fn bundled() -> (resolver: Self)
        ensures
            resolver.schema() == bundled_schema(),
    {
        let resolver = ClassHierarchyResolver { schema: bundled_database() };
        assert(resolver.schema() =~= bundled_schema());
        resolver
    }
}

} // verus!
