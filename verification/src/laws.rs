//! Laws of the queries: what holds of their answers on every schema.
//!
//! Each law is stated over the functions of [`crate::query`], which the
//! contracts of the resolver and of the functions over the bundled database
//! use for their answers, so each holds of those answers too.

use vstd::prelude::*;
use crate::chain::{
    ancestor, first_met_at, lemma_nothing_after_end, lemma_search_outcome, met_at, missing_at,
    Goal,
};
use crate::model::Schema;
use crate::query::{is_a, is_service, property_info, resolve, root_class};

verus! {

/// Every class is itself, whether the schema knows it or not.
pub proof fn lemma_class_is_itself(schema: Schema, class: Seq<char>)
    ensures
        is_a(schema, class, class) == Some(true),
{
}

/// Every class is an `Instance`, whether the schema knows it or not.
pub proof fn lemma_class_is_an_instance(schema: Schema, class: Seq<char>)
    ensures
        is_a(schema, class, root_class()) == Some(true),
{
}

/// A class is another class exactly when the other is the root class, or has
/// the same name, or is a known class that the chain reaches.
pub proof fn lemma_is_a_means_reached(
    schema: Schema,
    instance_class: Seq<char>,
    class_name: Seq<char>,
)
    ensures
        is_a(schema, instance_class, class_name) == Some(true) <==> (class_name == root_class()
            || instance_class == class_name || exists|steps: nat|
            schema.contains_key(class_name) && ancestor(schema, instance_class, steps) == Some(
                class_name,
            )),
{
    let goal = Goal::Named(class_name);
    lemma_search_outcome(schema, instance_class, goal);
    if exists|steps: nat|
        schema.contains_key(class_name) && ancestor(schema, instance_class, steps) == Some(
            class_name,
        ) {
        let steps = choose|steps: nat|
            schema.contains_key(class_name) && ancestor(schema, instance_class, steps) == Some(
                class_name,
            );
        assert(met_at(schema, instance_class, goal, steps));
    }
    if exists|steps: nat| met_at(schema, instance_class, goal, steps) {
        let steps = choose|steps: nat| met_at(schema, instance_class, goal, steps);
        assert(schema.contains_key(class_name) && ancestor(schema, instance_class, steps) == Some(
            class_name,
        ));
    }
}

/// A known class is not a different known class that its chain never
/// reaches, provided that the other class is not the root class, which
/// everything is, and that the chain reaches no name that the schema lacks,
/// which would leave the answer open.
pub proof fn lemma_class_is_not_an_unrelated_class(
    schema: Schema,
    instance_class: Seq<char>,
    class_name: Seq<char>,
)
    requires
        instance_class != class_name,
        schema.contains_key(instance_class),
        schema.contains_key(class_name),
        forall|steps: nat| ancestor(schema, instance_class, steps) != Some(class_name),
        class_name != root_class(),
        forall|steps: nat| !missing_at(schema, instance_class, steps),
    ensures
        is_a(schema, instance_class, class_name) == Some(false),
{
    let goal = Goal::Named(class_name);
    assert forall|steps: nat| !first_met_at(schema, instance_class, goal, steps) by {
        assert(ancestor(schema, instance_class, steps) != Some(class_name));
    }
}

/// Of a class that the schema lacks nothing is known: unless the two names
/// are the same or the other is the root class, the answer is `None`.
pub proof fn lemma_unknown_class_is_undecided(
    schema: Schema,
    unknown: Seq<char>,
    class_name: Seq<char>,
)
    requires
        !schema.contains_key(unknown),
        unknown != class_name,
        class_name != root_class(),
    ensures
        is_a(schema, unknown, class_name) is None,
{
    let goal = Goal::Named(class_name);
    assert forall|steps: nat| !first_met_at(schema, unknown, goal, steps) by {
        if steps > 0 {
            lemma_nothing_after_end(schema, unknown, 0, steps);
        }
    }
    assert(missing_at(schema, unknown, 0));
}

/// A class is a service when it carries the tag itself or a class carries it
/// that the chain reaches, however many links above.
pub proof fn lemma_service_tag_is_inherited(schema: Schema, instance_class: Seq<char>, steps: nat)
    requires
        met_at(schema, instance_class, Goal::Service, steps),
    ensures
        is_service(schema, instance_class) == Some(true),
{
    lemma_search_outcome(schema, instance_class, Goal::Service);
}

/// A class is no service when every class of its chain is known and none
/// carries the tag.
pub proof fn lemma_untagged_chain_is_no_service(schema: Schema, instance_class: Seq<char>)
    requires
        forall|steps: nat| !missing_at(schema, instance_class, steps),
        forall|steps: nat| !met_at(schema, instance_class, Goal::Service, steps),
    ensures
        is_service(schema, instance_class) == Some(false),
{
}

/// Whether a class is a service is left open as soon as its chain reaches a
/// name that the schema lacks without a tagged class before it.
pub proof fn lemma_missing_class_leaves_service_open(
    schema: Schema,
    instance_class: Seq<char>,
    steps: nat,
)
    requires
        missing_at(schema, instance_class, steps),
        forall|earlier: nat|
            earlier < steps ==> !met_at(schema, instance_class, Goal::Service, earlier),
    ensures
        is_service(schema, instance_class) is None,
{
    assert forall|n: nat| !first_met_at(schema, instance_class, Goal::Service, n) by {
        if n > steps {
            lemma_nothing_after_end(schema, instance_class, steps, n);
        }
    }
}

/// A property is described by the nearest class of the chain that declares
/// it, and by that class alone: neither a declaration nor a default further
/// up the chain has any part in the answer.
pub proof fn lemma_nearest_declaration_decides(
    schema: Schema,
    instance_class: Seq<char>,
    property_name: Seq<char>,
    steps: nat,
)
    requires
        first_met_at(schema, instance_class, Goal::Declaring(property_name), steps),
    ensures
        property_info(schema, instance_class, property_name) == Some(
            resolve(schema[ancestor(schema, instance_class, steps).unwrap()], property_name),
        ),
{
    lemma_search_outcome(schema, instance_class, Goal::Declaring(property_name));
}

/// A property that the class declares itself is described by the class
/// itself, whatever its ancestors declare.
pub proof fn lemma_own_declaration_decides(
    schema: Schema,
    instance_class: Seq<char>,
    property_name: Seq<char>,
)
    requires
        schema.contains_key(instance_class),
        schema[instance_class].properties.contains_key(property_name),
    ensures
        property_info(schema, instance_class, property_name) == Some(
            resolve(schema[instance_class], property_name),
        ),
{
    assert(first_met_at(schema, instance_class, Goal::Declaring(property_name), 0));
    lemma_nearest_declaration_decides(schema, instance_class, property_name, 0);
}

/// A property has a description exactly when some known class of the chain
/// declares it.
pub proof fn lemma_described_means_declared(
    schema: Schema,
    instance_class: Seq<char>,
    property_name: Seq<char>,
)
    ensures
        property_info(schema, instance_class, property_name) is Some <==> exists|steps: nat|
            met_at(schema, instance_class, Goal::Declaring(property_name), steps),
{
    lemma_search_outcome(schema, instance_class, Goal::Declaring(property_name));
}

/// A property that no class of the chain declares has no description.
pub proof fn lemma_undeclared_property_is_unknown(
    schema: Schema,
    instance_class: Seq<char>,
    property_name: Seq<char>,
)
    requires
        forall|steps: nat| !met_at(schema, instance_class, Goal::Declaring(property_name), steps),
    ensures
        property_info(schema, instance_class, property_name) is None,
{
}

/// A class that the schema lacks has no property with a description.
pub proof fn lemma_unknown_class_has_no_properties(
    schema: Schema,
    unknown: Seq<char>,
    property_name: Seq<char>,
)
    requires
        !schema.contains_key(unknown),
    ensures
        property_info(schema, unknown, property_name) is None,
{
    assert forall|steps: nat| !first_met_at(
        schema,
        unknown,
        Goal::Declaring(property_name),
        steps,
    ) by {
        if steps > 0 {
            lemma_nothing_after_end(schema, unknown, 0, steps);
        }
    }
}

/// A description names an enum or a value kind or neither, never both, and
/// holds a default only beside the type that the default belongs to.
pub proof fn lemma_property_info_is_well_formed(
    schema: Schema,
    instance_class: Seq<char>,
    property_name: Seq<char>,
)
    ensures
        property_info(schema, instance_class, property_name) matches Some(info)
            ==> info.well_formed(),
{
}

} // verus!
