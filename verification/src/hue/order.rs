//! The orders in which lights, scenes and groups are listed.
use vstd::prelude::*;
use std::cmp::Ordering;
use crate::hue::models::{Group, Light, Scene};
use crate::sorting::Precedence;
use crate::text::{compare_str, lemma_lex_order_antisym, lex_order, parse_unsigned, parse_unsigned_max};

verus! {

/// Order of two light identifiers: numerically when both are decimal `u32` values,
/// otherwise as strings.  Negative, zero and positive mean less, equal and greater.
pub open spec fn light_id_order(left: Seq<char>, right: Seq<char>) -> int {
    let a = parse_unsigned(left, 0xffff_ffff);
    let b = parse_unsigned(right, 0xffff_ffff);
    if a is Some && b is Some {
        if a->0 < b->0 {
            -1
        } else if a->0 > b->0 {
            1
        } else {
            0
        }
    } else {
        lex_order(left, right)
    }
}

pub proof fn lemma_light_id_order_antisym(left: Seq<char>, right: Seq<char>)
    ensures
        light_id_order(left, right) == -light_id_order(right, left),
{
    lemma_lex_order_antisym(left, right);
}

/// Compares light identifiers, preferring numeric order.
pub fn compare_light_ids(left: &str, right: &str) -> (r: Ordering)
    ensures
        (r == Ordering::Less) == (light_id_order(left@, right@) < 0),
        (r == Ordering::Equal) == (light_id_order(left@, right@) == 0),
        (r == Ordering::Greater) == (light_id_order(left@, right@) > 0),
{
    proof {
        lemma_lex_order_antisym(left@, right@);
    }
    match (parse_unsigned_max(left, 0xffff_ffff), parse_unsigned_max(right, 0xffff_ffff)) {
        (Some(a), Some(b)) => {
            if a < b {
                Ordering::Less
            } else if a > b {
                Ordering::Greater
            } else {
                Ordering::Equal
            }
        },
        _ => {
            let c = compare_str(left, right);
            if c < 0 {
                Ordering::Less
            } else if c > 0 {
                Ordering::Greater
            } else {
                Ordering::Equal
            }
        },
    }
}

/// Lights ordered by identifier.
pub struct ByLightId;

impl Precedence<Light> for ByLightId {
    open spec fn before(a: Light, b: Light) -> bool {
        light_id_order(a.id@, b.id@) < 0
    }

    proof fn lemma_before_asymmetric(a: Light, b: Light) {
        lemma_light_id_order_antisym(a.id@, b.id@);
    }

    fn precedes(a: &Light, b: &Light) -> (r: bool) {
        match compare_light_ids(a.id.as_str(), b.id.as_str()) {
            Ordering::Less => true,
            _ => false,
        }
    }
}

/// Order by name, then by identifier.
pub open spec fn name_then_id_before(name_a: Seq<char>, id_a: Seq<char>, name_b: Seq<char>, id_b: Seq<char>) -> bool {
    lex_order(name_a, name_b) < 0 || (lex_order(name_a, name_b) == 0 && lex_order(id_a, id_b) < 0)
}

pub proof fn lemma_name_then_id_asym(name_a: Seq<char>, id_a: Seq<char>, name_b: Seq<char>, id_b: Seq<char>)
    requires
        name_then_id_before(name_a, id_a, name_b, id_b),
    ensures
        !name_then_id_before(name_b, id_b, name_a, id_a),
{
    lemma_lex_order_antisym(name_a, name_b);
    lemma_lex_order_antisym(id_a, id_b);
}

/// Whether `(name_a, id_a)` comes before `(name_b, id_b)`.
pub fn name_then_id_precedes(name_a: &str, id_a: &str, name_b: &str, id_b: &str) -> (r: bool)
    ensures
        r == name_then_id_before(name_a@, id_a@, name_b@, id_b@),
{
    let c = compare_str(name_a, name_b);
    if c < 0 {
        true
    } else if c > 0 {
        false
    } else {
        compare_str(id_a, id_b) < 0
    }
}

/// Scenes ordered by name, then identifier.
pub struct SceneByNameThenId;

impl Precedence<Scene> for SceneByNameThenId {
    open spec fn before(a: Scene, b: Scene) -> bool {
        name_then_id_before(a.name@, a.id@, b.name@, b.id@)
    }

    proof fn lemma_before_asymmetric(a: Scene, b: Scene) {
        lemma_name_then_id_asym(a.name@, a.id@, b.name@, b.id@);
    }

    fn precedes(a: &Scene, b: &Scene) -> (r: bool) {
        name_then_id_precedes(a.name.as_str(), a.id.as_str(), b.name.as_str(), b.id.as_str())
    }
}

/// Groups ordered by name, then identifier.
pub struct GroupByNameThenId;

impl Precedence<Group> for GroupByNameThenId {
    open spec fn before(a: Group, b: Group) -> bool {
        name_then_id_before(a.name@, a.id@, b.name@, b.id@)
    }

    proof fn lemma_before_asymmetric(a: Group, b: Group) {
        lemma_name_then_id_asym(a.name@, a.id@, b.name@, b.id@);
    }

    fn precedes(a: &Group, b: &Group) -> (r: bool) {
        name_then_id_precedes(a.name.as_str(), a.id.as_str(), b.name.as_str(), b.id.as_str())
    }
}

} // verus!
