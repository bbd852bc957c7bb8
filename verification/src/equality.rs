//! Equality of values: two values are equal when they mean the same.
//!
//! Lists are compared member by member, in order. Objects are compared as maps: the order in
//! which their members are stored plays no part.

use vstd::prelude::*;
use vstd::set_lib::lemma_subset_equality;
use crate::entries::{distinct_keys, entries_map, lemma_entries_map_at, lemma_entries_map_len};
use crate::number::number_eq;
use crate::object::Object;
use crate::value::{value_pairs, value_views, Value};

verus! {

/// Whether two rows of values hold equal values at each place.
pub(crate) fn lists_equal(a: &Vec<Value>, b: &Vec<Value>) -> (r: bool)
    ensures
        r == (value_views(a@) == value_views(b@)),
    decreases a,
{
    if a.len() != b.len() {
        return false;
    }
    let mut i: usize = 0;
    while i < a.len()
        invariant
            i <= a.len(),
            a.len() == b.len(),
            forall|j: int| 0 <= j < i ==> a[j]@ == b[j]@,
        decreases a.len() - i,
    {
        if !values_equal(&a[i], &b[i]) {
            assert(value_views(a@)[i as int] != value_views(b@)[i as int]);
            return false;
        }
        i += 1;
    }
    assert(value_views(a@) =~= value_views(b@));
    true
}

/// Whether two objects have the same keys and equal values under each of them.
pub(crate) fn objects_equal(a: &Object, b: &Object) -> (r: bool)
    ensures
        r == (a@ == b@),
    decreases a,
{
    let ea = a.members();
    let eb = b.members();
    let ghost pa = value_pairs(ea@);
    let ghost pb = value_pairs(eb@);
    proof {
        lemma_entries_map_len(pa);
        lemma_entries_map_len(pb);
    }
    if ea.len() != eb.len() {
        // Maps with different numbers of keys differ.
        return false;
    }
    let mut i: usize = 0;
    while i < ea.len()
        invariant
            i <= ea.len(),
            *ea == a.entries,
            pa == value_pairs(ea@),
            pb == value_pairs(eb@),
            a@ == entries_map(pa),
            b@ == entries_map(pb),
            distinct_keys(pa),
            distinct_keys(pb),
            forall|j: int| 0 <= j < i ==> b@.dom().contains(pa[j].0) && b@[pa[j].0] == pa[j].1,
        decreases ea.len() - i,
    {
        proof {
            lemma_entries_map_at(pa, i as int);
        }
        match Object::position(eb, &ea[i].0) {
            None => {
                // A key of `a` that `b` lacks.
                return false;
            },
            Some(j) => {
                proof {
                    lemma_entries_map_at(pb, j as int);
                }
                if !values_equal(&ea[i].1, &eb[j].1) {
                    // A key under which the two hold different values.
                    return false;
                }
            },
        }
        i += 1;
    }
    proof {
        // Every key of `a` is a key of `b`, with an equal value; the two have equally many
        // keys, so `b` has no other key.
        assert forall|k: Seq<char>| a@.dom().contains(k) implies b@.dom().contains(k) && a@[k]
            == b@[k] by {
            let j = choose|j: int| 0 <= j < pa.len() && (#[trigger] pa[j]).0 == k;
            lemma_entries_map_at(pa, j);
        }
        lemma_subset_equality(a@.dom(), b@.dom());
        assert(a@ =~= b@);
    }
    true
}

/// Whether two values mean the same.
pub(crate) fn values_equal(a: &Value, b: &Value) -> (r: bool)
    ensures
        r == (a@ == b@),
    decreases a,
{
    match (a, b) {
        (Value::Null, Value::Null) => true,
        (Value::Boolean(x), Value::Boolean(y)) => *x == *y,
        (Value::Number(x), Value::Number(y)) => number_eq(x, y),
        (Value::String(x), Value::String(y)) => *x == *y,
        (Value::List(x), Value::List(y)) => lists_equal(x, y),
        (Value::Object(x), Value::Object(y)) => objects_equal(x, y),
        _ => false,
    }
}

impl PartialEq for Value {
    fn eq(&self, other: &Value) -> (r: bool) {
        values_equal(self, other)
    }
}

impl vstd::std_specs::cmp::PartialEqSpecImpl for Value {
    open spec fn obeys_eq_spec() -> bool {
        true
    }

    /// Two values are equal when they are of the same kind and hold equal things: lists
    /// member by member, objects key by key.
    open spec fn eq_spec(&self, other: &Value) -> bool {
        self@ == other@
    }
}

impl PartialEq for Object {
    fn eq(&self, other: &Object) -> (r: bool) {
        objects_equal(self, other)
    }
}

impl vstd::std_specs::cmp::PartialEqSpecImpl for Object {
    open spec fn obeys_eq_spec() -> bool {
        true
    }

    /// Two objects are equal when they have the same keys and equal values under each.
    open spec fn eq_spec(&self, other: &Object) -> bool {
        self@ == other@
    }
}

} // verus!
