//! The ancestor chain of a class, and the one search that every query makes
//! along it.
//!
//! A chain starts at a class name and follows `superclass` links. It may end
//! at a class without a parent, break at a name that the schema lacks, or run
//! round a cycle for ever. A search walks the chain until a known class meets
//! a goal; its outcome is defined here without reference to any loop, and the
//! lemmas below connect a walk in progress with that outcome.

use vstd::prelude::*;
use vstd::set_lib::lemma_len_subset;
use crate::model::{ClassModel, Schema};

verus! {

/// What a search looks for in a class.
pub enum Goal {
    /// The class has this name.
    Named(Seq<char>),
    /// The class carries the service tag.
    Service,
    /// The class declares the property with this name itself.
    Declaring(Seq<char>),
}

/// Whether the class recorded under `name` is what the search looks for.
pub open spec fn meets(goal: Goal, name: Seq<char>, class: ClassModel) -> bool {
    match goal {
        Goal::Named(wanted) => name == wanted,
        Goal::Service => class.is_service(),
        Goal::Declaring(property) => class.properties.contains_key(property),
    }
}

/// The name reached from `start` after following `steps` superclass links;
/// `None` once the chain has ended or broken before that.
pub open spec fn ancestor(schema: Schema, start: Seq<char>, steps: nat) -> Option<Seq<char>>
    decreases steps,
{
    if steps == 0 {
        Some(start)
    } else {
        match ancestor(schema, start, (steps - 1) as nat) {
            Some(below) => if schema.contains_key(below) {
                schema[below].superclass
            } else {
                None
            },
            None => None,
        }
    }
}

/// After `steps` links the chain stands at a known class.
pub open spec fn known_at(schema: Schema, start: Seq<char>, steps: nat) -> bool {
    ancestor(schema, start, steps) matches Some(name) && schema.contains_key(name)
}

/// After `steps` links the chain stands at a name that the schema lacks.
pub open spec fn missing_at(schema: Schema, start: Seq<char>, steps: nat) -> bool {
    ancestor(schema, start, steps) matches Some(name) && !schema.contains_key(name)
}

/// After `steps` links the chain stands at a known class that meets the goal.
pub open spec fn met_at(schema: Schema, start: Seq<char>, goal: Goal, steps: nat) -> bool {
    ancestor(schema, start, steps) matches Some(name) && schema.contains_key(name) && meets(
        goal,
        name,
        schema[name],
    )
}

/// After `steps` links the chain meets the goal, and it did not before.
pub open spec fn first_met_at(schema: Schema, start: Seq<char>, goal: Goal, steps: nat) -> bool {
    &&& met_at(schema, start, goal, steps)
    &&& forall|earlier: nat| earlier < steps ==> !met_at(schema, start, goal, earlier)
}

/// How a search along a chain ends.
pub enum Outcome {
    /// The nearest known class that meets the goal has this name.
    Found(Seq<char>),
    /// No class met the goal before the chain reached a name that the schema
    /// lacks.
    Missing,
    /// Every class of the chain is known and none meets the goal.
    Exhausted,
}

/// The outcome of searching the chain of `start` for `goal`.
pub open spec fn search(schema: Schema, start: Seq<char>, goal: Goal) -> Outcome {
    if exists|steps: nat| first_met_at(schema, start, goal, steps) {
        let steps = choose|steps: nat| first_met_at(schema, start, goal, steps);
        Outcome::Found(ancestor(schema, start, steps).unwrap())
    } else if exists|steps: nat| missing_at(schema, start, steps) {
        Outcome::Missing
    } else {
        Outcome::Exhausted
    }
}

/// Where a chain meets a goal at all, there is a first place at which it does.
pub proof fn lemma_goal_is_first_met_somewhere(
    schema: Schema,
    start: Seq<char>,
    goal: Goal,
    steps: nat,
)
    requires
        met_at(schema, start, goal, steps),
    ensures
        exists|first: nat| first <= steps && first_met_at(schema, start, goal, first),
    decreases steps,
{
    if exists|earlier: nat| earlier < steps && met_at(schema, start, goal, earlier) {
        let earlier = choose|earlier: nat| earlier < steps && met_at(schema, start, goal, earlier);
        lemma_goal_is_first_met_somewhere(schema, start, goal, earlier);
    } else {
        assert(first_met_at(schema, start, goal, steps));
    }
}

/// A chain first meets a goal at one place only.
pub proof fn lemma_first_met_once(
    schema: Schema,
    start: Seq<char>,
    goal: Goal,
    one: nat,
    other: nat,
)
    requires
        first_met_at(schema, start, goal, one),
        first_met_at(schema, start, goal, other),
    ensures
        one == other,
{
    if one < other {
        assert(met_at(schema, start, goal, one));
    } else if other < one {
        assert(met_at(schema, start, goal, other));
    }
}

/// The outcome of a search, read off the chain: found exactly when some known
/// class of the chain meets the goal, and then it is the first such class;
/// missing exactly when none does and the chain reaches a name that the
/// schema lacks; exhausted exactly when neither happens.
pub proof fn lemma_search_outcome(schema: Schema, start: Seq<char>, goal: Goal)
    ensures
        search(schema, start, goal) is Found <==> exists|steps: nat|
            met_at(schema, start, goal, steps),
        forall|steps: nat| #[trigger]
            first_met_at(schema, start, goal, steps) ==> search(schema, start, goal)
                == Outcome::Found(ancestor(schema, start, steps).unwrap()),
        search(schema, start, goal) is Missing <==> (forall|steps: nat|
            !met_at(schema, start, goal, steps)) && exists|steps: nat|
            missing_at(schema, start, steps),
        search(schema, start, goal) is Exhausted <==> (forall|steps: nat|
            !met_at(schema, start, goal, steps)) && (forall|steps: nat|
            !missing_at(schema, start, steps)),
{
    if exists|steps: nat| met_at(schema, start, goal, steps) {
        let steps = choose|steps: nat| met_at(schema, start, goal, steps);
        lemma_goal_is_first_met_somewhere(schema, start, goal, steps);
    }
    assert forall|steps: nat| #[trigger]
        first_met_at(schema, start, goal, steps) implies search(schema, start, goal)
        == Outcome::Found(ancestor(schema, start, steps).unwrap()) by {
        let chosen = choose|n: nat| first_met_at(schema, start, goal, n);
        lemma_first_met_once(schema, start, goal, chosen, steps);
    }
}

/// Past the last name of a chain there is nothing: once the chain stands at a
/// name that the schema lacks, or at a class without a parent, or has already
/// ended, every later step is `None`.
pub proof fn lemma_nothing_after_end(schema: Schema, start: Seq<char>, end: nat, later: nat)
    requires
        end < later,
        match ancestor(schema, start, end) {
            Some(name) => !schema.contains_key(name) || schema[name].superclass is None,
            None => true,
        },
    ensures
        ancestor(schema, start, later) is None,
    decreases later,
{
    if later > end + 1 {
        lemma_nothing_after_end(schema, start, end, (later - 1) as nat);
    }
}

/// A chain continues from any name on it as the chain of that name does.
pub proof fn lemma_chain_continues(schema: Schema, start: Seq<char>, first: nat, rest: nat)
    ensures
        ancestor(schema, start, first + rest) == match ancestor(schema, start, first) {
            Some(name) => ancestor(schema, name, rest),
            None => None,
        },
    decreases rest,
{
    if rest > 0 {
        lemma_chain_continues(schema, start, first, (rest - 1) as nat);
    }
}

/// A walk that has stood at more known classes than the schema holds has
/// stood at one of them twice.
pub proof fn lemma_long_walk_repeats(schema: Schema, start: Seq<char>, last: nat)
    requires
        schema.dom().finite(),
        schema.dom().len() <= last,
        forall|steps: nat| steps <= last ==> #[trigger] known_at(schema, start, steps),
    ensures
        exists|i: nat, j: nat|
            i < j <= last && #[trigger] ancestor(schema, start, i) == #[trigger] ancestor(
                schema,
                start,
                j,
            ),
{
    let names = Seq::new(last + 1, |at: int| ancestor(schema, start, at as nat).unwrap());
    if names.no_duplicates() {
        names.unique_seq_to_set();
        assert forall|name: Seq<char>| names.to_set().contains(name) implies schema.dom().contains(
            name,
        ) by {
            let at = choose|at: int| 0 <= at < names.len() && names[at] == name;
            assert(known_at(schema, start, at as nat));
        }
        lemma_len_subset(names.to_set(), schema.dom());
        assert(false);
    }
    let (a, b) = choose|a: int, b: int|
        0 <= a < names.len() && 0 <= b < names.len() && a != b && names[a] == names[b];
    let i = (if a < b { a } else { b }) as nat;
    let j = (if a < b { b } else { a }) as nat;
    assert(known_at(schema, start, i));
    assert(known_at(schema, start, j));
    assert(i < j <= last && ancestor(schema, start, i) == ancestor(schema, start, j));
}

/// Once a chain stands at the same name after `i` and after `j` links, it
/// never leaves the names that it reached in fewer than `j` links.
pub proof fn lemma_cycle_confines(schema: Schema, start: Seq<char>, i: nat, j: nat, steps: nat)
    requires
        i < j,
        ancestor(schema, start, i) == ancestor(schema, start, j),
    ensures
        exists|within: nat|
            within < j && #[trigger] ancestor(schema, start, within) == ancestor(
                schema,
                start,
                steps,
            ),
    decreases steps,
{
    if steps < j {
        assert(ancestor(schema, start, steps) == ancestor(schema, start, steps));
    } else {
        let rest = (steps - j) as nat;
        lemma_chain_continues(schema, start, i, rest);
        lemma_chain_continues(schema, start, j, rest);
        assert(ancestor(schema, start, i + rest) == ancestor(schema, start, steps));
        lemma_cycle_confines(schema, start, i, j, i + rest);
    }
}

/// A walk in progress along a chain: where it started, what it looks for, how
/// many links it has followed, and the name at which it stands.
pub struct Walk {
    /// The schema in which the walk moves.
    pub schema: Schema,
    /// The name at which the walk began.
    pub start: Seq<char>,
    /// What the walk looks for.
    pub goal: Goal,
    /// The number of links that the walk has followed.
    pub steps: nat,
    /// The name at which the walk stands.
    pub current: Seq<char>,
}

impl Walk {
    /// The walk that has not moved yet.
    pub open spec fn begin(schema: Schema, start: Seq<char>, goal: Goal) -> Walk {
        Walk { schema, start, goal, steps: 0, current: start }
    }

    /// The walk one link further on, at the parent of the class at which it
    /// stands.
    pub open spec fn at_parent(self, parent: Seq<char>) -> Walk {
        Walk { steps: self.steps + 1, current: parent, ..self }
    }

    /// The walk stands where its chain does after `steps` links, and every
    /// class that it has passed is known and does not meet the goal.
    pub open spec fn valid(self) -> bool {
        &&& ancestor(self.schema, self.start, self.steps) == Some(self.current)
        &&& forall|earlier: nat|
            earlier < self.steps ==> #[trigger] known_at(self.schema, self.start, earlier)
                && !met_at(self.schema, self.start, self.goal, earlier)
    }

    /// The walk stands at a known class.
    pub open spec fn at_known_class(self) -> bool {
        self.schema.contains_key(self.current)
    }

    /// The walk stands at a known class that meets the goal.
    pub open spec fn at_goal(self) -> bool {
        self.at_known_class() && meets(self.goal, self.current, self.schema[self.current])
    }

    /// The outcome of the search that the walk carries out.
    pub open spec fn outcome(self) -> Outcome {
        search(self.schema, self.start, self.goal)
    }
}

/// A walk that stands at a known class which meets the goal has found the
/// outcome of the search: that class.
pub proof fn lemma_walk_finds(walk: Walk)
    requires
        walk.valid(),
        walk.at_goal(),
    ensures
        walk.outcome() == Outcome::Found(walk.current),
{
    assert(first_met_at(walk.schema, walk.start, walk.goal, walk.steps)) by {
        assert forall|earlier: nat| earlier < walk.steps implies !met_at(
            walk.schema,
            walk.start,
            walk.goal,
            earlier,
        ) by {
            assert(known_at(walk.schema, walk.start, earlier));
        }
    }
    lemma_search_outcome(walk.schema, walk.start, walk.goal);
}

/// A walk that stands at a name which the schema lacks has found the outcome
/// of the search: missing.
pub proof fn lemma_walk_breaks(walk: Walk)
    requires
        walk.valid(),
        !walk.at_known_class(),
    ensures
        walk.outcome() == Outcome::Missing,
{
    assert forall|n: nat| !first_met_at(walk.schema, walk.start, walk.goal, n) by {
        if n < walk.steps {
            assert(known_at(walk.schema, walk.start, n));
        } else if n > walk.steps {
            lemma_nothing_after_end(walk.schema, walk.start, walk.steps, n);
        }
    }
    assert(missing_at(walk.schema, walk.start, walk.steps));
}

/// A walk that stands at a known class without a parent, which does not meet
/// the goal, has found the outcome of the search: exhausted.
pub proof fn lemma_walk_ends(walk: Walk)
    requires
        walk.valid(),
        walk.at_known_class(),
        !walk.at_goal(),
        walk.schema[walk.current].superclass is None,
    ensures
        walk.outcome() == Outcome::Exhausted,
{
    assert forall|n: nat| !first_met_at(walk.schema, walk.start, walk.goal, n) by {
        if n < walk.steps {
            assert(known_at(walk.schema, walk.start, n));
        } else if n > walk.steps {
            lemma_nothing_after_end(walk.schema, walk.start, walk.steps, n);
        }
    }
    assert forall|n: nat| !missing_at(walk.schema, walk.start, n) by {
        if n < walk.steps {
            assert(known_at(walk.schema, walk.start, n));
        } else if n > walk.steps {
            lemma_nothing_after_end(walk.schema, walk.start, walk.steps, n);
        }
    }
}

/// A walk that stands at a known class with a parent, which does not meet the
/// goal, goes on at the parent.
pub proof fn lemma_walk_goes_on(walk: Walk, parent: Seq<char>)
    requires
        walk.valid(),
        walk.at_known_class(),
        !walk.at_goal(),
        walk.schema[walk.current].superclass == Some(parent),
    ensures
        walk.at_parent(parent).valid(),
{
    let next = walk.at_parent(parent);
    assert(ancestor(walk.schema, walk.start, next.steps) == Some(parent)) by {
        assert((next.steps - 1) as nat == walk.steps);
    }
    assert forall|earlier: nat| earlier < next.steps implies #[trigger] known_at(
        next.schema,
        next.start,
        earlier,
    ) && !met_at(next.schema, next.start, next.goal, earlier) by {
        if earlier < walk.steps {
            assert(known_at(walk.schema, walk.start, earlier));
        } else {
            assert(earlier == walk.steps);
        }
    }
}

/// A walk that has followed as many links as the schema has classes, and
/// still stands at a known class, is caught in a cycle of classes that it
/// has passed already: the search is exhausted, however long the walk went
/// on.
pub proof fn lemma_walk_cycles(walk: Walk)
    requires
        walk.valid(),
        walk.at_known_class(),
        walk.schema.dom().finite(),
        walk.schema.dom().len() <= walk.steps,
    ensures
        walk.outcome() == Outcome::Exhausted,
{
    let schema = walk.schema;
    let start = walk.start;
    let steps = walk.steps;
    assert forall|n: nat| n <= steps implies #[trigger] known_at(schema, start, n) by {
        if n < steps {
            assert(known_at(schema, start, n));
        }
    }
    lemma_long_walk_repeats(schema, start, steps);
    let (i, j) = choose|i: nat, j: nat|
        i < j <= steps && #[trigger] ancestor(schema, start, i) == #[trigger] ancestor(
            schema,
            start,
            j,
        );
    assert forall|n: nat| #[trigger]
        known_at(schema, start, n) && !met_at(schema, start, walk.goal, n) by {
        lemma_cycle_confines(schema, start, i, j, n);
        let within = choose|within: nat|
            within < j && #[trigger] ancestor(schema, start, within) == ancestor(schema, start, n);
        assert(known_at(schema, start, within));
    }
    assert forall|n: nat| !first_met_at(schema, start, walk.goal, n) by {
        assert(known_at(schema, start, n));
    }
    assert forall|n: nat| !missing_at(schema, start, n) by {
        assert(known_at(schema, start, n));
    }
}

} // verus!
