//! JSON documents and their conversion into the value tree.

use vstd::prelude::*;
use crate::value::{first_names, last_index, lemma_insert_step, names, Record, Value};

verus! {

broadcast use vstd::std_specs::vec::group_vec_axioms;

/// A JSON number as its parser reports it: exactly as a 64-bit signed
/// integer (if it is one), as the nearest binary64 (bit pattern; if it has
/// one), and as its source text.
#[derive(Debug, Clone, PartialEq, Eq)]
pub struct JsonNumber {
    pub int: Option<i64>,
    pub float: Option<u64>,
    pub text: String,
}

/// A JSON document; object members are kept in document order.
#[derive(Debug, PartialEq, Eq)]
pub enum Json {
    Null,
    Bool(bool),
    Number(JsonNumber),
    String(String),
    Array(Vec<Json>),
    Object(Vec<(String, Json)>),
}

/// The value a JSON number becomes: an integer if it fits exactly, else a
/// float, else its text.
pub open spec fn number_converts(n: JsonNumber, v: Value) -> bool {
    match n.int {
        Some(i) => v == Value::Int(i),
        None => match n.float {
            Some(f) => v == Value::Float(f),
            None => v matches Value::String(s) && s@ == n.text@,
        },
    }
}

/// The member names of an object, in document order.
pub open spec fn member_keys(es: Seq<(String, Json)>) -> Seq<Seq<char>> {
    es.map_values(|e: (String, Json)| e.0@)
}

/// `v` is the value-tree form of `j`. An object becomes a record with one
/// field per distinct member name, in order of first occurrence, holding
/// the value of the last member of that name.
pub open spec fn converts(j: Json, v: Value) -> bool
    decreases j,
{
    match j {
        Json::Null => v == Value::Nothing,
        Json::Bool(b) => v == Value::Bool(b),
        Json::Number(n) => number_converts(n, v),
        Json::String(s) => v matches Value::String(t) && t@ == s@,
        Json::Array(a) => v matches Value::List(l) && l.len() == a.len() && forall|i: int|
            0 <= i < a.len() ==> converts(#[trigger] a@[i], l@[i]),
        Json::Object(es) => v matches Value::Record(r) && object_converts(es@, r),
    }
}

/// `r` is the record form of the members `es`.
pub open spec fn object_converts(es: Seq<(String, Json)>, r: Record) -> bool
    decreases es, 0nat,
{
    &&& r.wf()
    &&& names(r.cols@) == first_names(member_keys(es))
    &&& forall|i: int|
        0 <= i < r.cols.len() ==> {
            let m = last_index(member_keys(es), (#[trigger] r.cols@[i])@);
            0 <= m < es.len() && converts(es[m].1, r.vals@[i])
        }
}

/// Converts a JSON number.
pub fn number_to_value(n: &JsonNumber) -> (v: Value)
    ensures
        number_converts(*n, v),
{
    match n.int {
        Some(i) => Value::Int(i),
        None => match n.float {
            Some(f) => Value::Float(f),
            None => Value::String(n.text.clone()),
        },
    }
}

/// Converts a JSON document into the value tree.
pub fn json_to_value(j: &Json) -> (v: Value)
    ensures
        converts(*j, v),
    decreases j,
{
    match j {
        Json::Null => Value::Nothing,
        Json::Bool(b) => Value::Bool(*b),
        Json::Number(n) => number_to_value(n),
        Json::String(s) => Value::String(s.clone()),
        Json::Array(a) => Value::List(array_to_list(a)),
        Json::Object(es) => Value::Record(object_to_record(es)),
    }
}

/// Converts the elements of an array, in order.
pub fn array_to_list(a: &Vec<Json>) -> (l: Vec<Value>)
    ensures
        l.len() == a.len(),
        forall|k: int| 0 <= k < a.len() ==> converts(#[trigger] a@[k], l@[k]),
    decreases a,
{
    let mut l: Vec<Value> = Vec::new();
    let mut i: usize = 0;
    while i < a.len()
        invariant
            i <= a.len(),
            l.len() == i,
            forall|k: int| 0 <= k < i ==> converts(#[trigger] a@[k], l@[k]),
        decreases a.len() - i,
    {
        proof {
            assert(decreases_to!(*a => a[i as int]));
        }
        let v = json_to_value(&a[i]);
        l.push(v);
        i = i + 1;
    }
    l
}

/// Converts the members of an object into a record, member by member.
pub fn object_to_record(es: &Vec<(String, Json)>) -> (r: Record)
    ensures
        object_converts(es@, r),
    decreases es,
{
    let mut r = Record::new();
    let mut i: usize = 0;
    assert(es@.take(0) =~= Seq::<(String, Json)>::empty());
    assert(names(r.cols@) =~= Seq::<Seq<char>>::empty());
    while i < es.len()
        invariant
            i <= es.len(),
            object_converts(es@.take(i as int), r),
        decreases es.len() - i,
    {
        proof {
            assert(decreases_to!(*es => es[i as int]));
        }
        let v = json_to_value(&es[i].1);
        let k = es[i].0.clone();
        let ghost before = r;
        let ghost s = es@.take(i + 1);
        r.insert(k, v);
        proof {
            assert(member_keys(s) =~= member_keys(es@.take(i as int)).push(k@));
            lemma_insert_step(before, r, member_keys(es@.take(i as int)), k, v);
            assert forall|p: int| 0 <= p < r.cols.len() implies {
                let m = last_index(member_keys(s), (#[trigger] r.cols@[p])@);
                0 <= m < s.len() && converts(s[m].1, r.vals@[p])
            } by {
                let kp = r.cols@[p]@;
                if kp != k@ {
                    assert(before.cols@[p] == r.cols@[p]);
                }
            }
        }
        i = i + 1;
    }
    assert(es@.take(es.len() as int) =~= es@);
    r
}

} // verus!
