//! The generic value tree that decoded rows and script results are made of.

use vstd::prelude::*;

verus! {

/// An absolute instant together with the UTC offset it was expressed in.
#[derive(Debug, Clone, PartialEq, Eq)]
pub struct Instant {
    /// Whole seconds since the Unix epoch.
    pub secs: i64,
    /// Nanoseconds past `secs`.
    pub nanos: u32,
    /// Offset east of UTC, in seconds.
    pub offset_secs: i32,
}

/// A node of the value tree.
#[derive(Debug, PartialEq, Eq)]
pub enum Value {
    Nothing,
    Bool(bool),
    Int(i64),
    /// A binary64 floating-point number, held as its bit pattern.
    Float(u64),
    String(String),
    Binary(Vec<u8>),
    List(Vec<Value>),
    Record(Record),
    Date(Instant),
    /// A duration in nanoseconds.
    Duration(i64),
}

/// Named fields in insertion order; field names are distinct.
#[derive(Debug, PartialEq, Eq)]
pub struct Record {
    pub cols: Vec<String>,
    pub vals: Vec<Value>,
}

/// The field names of a record as character sequences.
pub open spec fn names(cols: Seq<String>) -> Seq<Seq<char>> {
    cols.map_values(|c: String| c@)
}

/// Whether `k` names one of `cols`.
pub open spec fn has_name(cols: Seq<String>, k: Seq<char>) -> bool {
    exists|j: int| 0 <= j < cols.len() && (#[trigger] cols[j])@ == k
}

/// `j` is the first position of `k` in `cols`.
pub open spec fn first_at(cols: Seq<String>, k: Seq<char>, j: int) -> bool {
    &&& 0 <= j < cols.len()
    &&& cols[j]@ == k
    &&& forall|i: int| 0 <= i < j ==> (#[trigger] cols[i])@ != k
}

/// Distinct names of `ks`, in order of first occurrence.
pub open spec fn first_names(ks: Seq<Seq<char>>) -> Seq<Seq<char>>
    decreases ks.len(),
{
    if ks.len() == 0 {
        Seq::empty()
    } else {
        let p = first_names(ks.drop_last());
        if p.contains(ks.last()) {
            p
        } else {
            p.push(ks.last())
        }
    }
}

/// Position of the last occurrence of `k` in `ks`, or -1.
pub open spec fn last_index(ks: Seq<Seq<char>>, k: Seq<char>) -> int
    decreases ks.len(),
{
    if ks.len() == 0 {
        -1
    } else if ks.last() == k {
        ks.len() - 1
    } else {
        last_index(ks.drop_last(), k)
    }
}

/// `after` is `before` with field `col` set to `val`: a new name is
/// appended at the end, an existing one keeps its place.
pub open spec fn insert_post(before: Record, after: Record, col: String, val: Value) -> bool {
    &&& after.wf()
    &&& !has_name(before.cols@, col@) ==> {
        &&& after.cols@ == before.cols@.push(col)
        &&& after.vals@ == before.vals@.push(val)
    }
    &&& has_name(before.cols@, col@) ==> exists|j: int|
        first_at(before.cols@, col@, j) && after.cols@ == before.cols@
            && after.vals@ == before.vals@.update(j, val)
}

/// Setting fields one by one in the order of `ks` gives one field per
/// distinct name, in order of first occurrence; inserting `col` afterwards
/// keeps that shape for `ks` extended by `col`, and leaves every field but
/// `col` as it was.
pub proof fn lemma_insert_step(
    before: Record,
    after: Record,
    ks: Seq<Seq<char>>,
    col: String,
    val: Value,
)
    requires
        before.wf(),
        names(before.cols@) == first_names(ks),
        insert_post(before, after, col, val),
    ensures
        names(after.cols@) == first_names(ks.push(col@)),
        forall|p: int|
            0 <= p < after.cols.len() ==> {
                if (#[trigger] after.cols@[p])@ == col@ {
                    &&& after.vals@[p] == val
                    &&& last_index(ks.push(col@), col@) == ks.len()
                } else {
                    &&& p < before.cols.len()
                    &&& before.cols@[p] == after.cols@[p]
                    &&& after.vals@[p] == before.vals@[p]
                    &&& last_index(ks.push(col@), after.cols@[p]@) == last_index(ks, after.cols@[p]@)
                }
            },
{
    let s = ks.push(col@);
    assert(s.drop_last() =~= ks);
    if has_name(before.cols@, col@) {
        let jj = choose|jj: int| 0 <= jj < before.cols.len() && (#[trigger] before.cols@[jj])@ == col@;
        assert(names(before.cols@)[jj] == col@);
        assert(first_names(ks).contains(col@));
    } else {
        assert forall|jj: int| 0 <= jj < names(before.cols@).len() implies names(before.cols@)[jj] != col@ by {
            assert(before.cols@[jj]@ != col@);
        }
        assert(!first_names(ks).contains(col@));
    }
    assert(names(after.cols@) =~= first_names(s));
    assert forall|p: int| 0 <= p < after.cols.len() implies {
        if (#[trigger] after.cols@[p])@ == col@ {
            &&& after.vals@[p] == val
            &&& last_index(s, col@) == ks.len()
        } else {
            &&& p < before.cols.len()
            &&& before.cols@[p] == after.cols@[p]
            &&& after.vals@[p] == before.vals@[p]
            &&& last_index(s, after.cols@[p]@) == last_index(ks, after.cols@[p]@)
        }
    } by {
        if has_name(before.cols@, col@) {
            let j = choose|j: int|
                first_at(before.cols@, col@, j) && after.cols@ == before.cols@
                    && after.vals@ == before.vals@.update(j, val);
            if after.cols@[p]@ == col@ {
                assert(before.cols@[j]@ == before.cols@[p]@);
                assert(j == p);
            }
        }
    }
}

impl Record {
    /// One value per name, and no name twice.
    pub open spec fn wf(&self) -> bool {
        &&& self.cols.len() == self.vals.len()
        &&& forall|i: int, j: int|
            0 <= i < j < self.cols.len() ==> (#[trigger] self.cols@[i])@ != (#[trigger] self.cols@[j])@
    }

    /// The record with no fields.
    pub fn new() -> (r: Record)
        ensures
            r.wf(),
            r.cols@.len() == 0,
    {
        Record { cols: Vec::new(), vals: Vec::new() }
    }

    /// Number of fields.
    pub fn len(&self) -> (r: usize)
        ensures
            r == self.cols@.len(),
    {
        self.cols.len()
    }

    /// Sets field `col` to `val`: a new name is appended at the end, an
    /// existing one keeps its place and takes the new value.
    pub fn insert(&mut self, col: String, val: Value)
        requires
            old(self).wf(),
        ensures
            insert_post(*old(self), *final(self), col, val),
    {
        let n = self.cols.len();
        let mut j: usize = 0;
        while j < n
            invariant
                n == self.cols.len(),
                self.cols@ == old(self).cols@,
                self.vals@ == old(self).vals@,
                self.wf(),
                j <= n,
                forall|i: int| 0 <= i < j ==> (#[trigger] self.cols@[i])@ != col@,
            decreases n - j,
        {
            if self.cols[j] == col {
                self.vals.set(j, val);
                assert(first_at(old(self).cols@, col@, j as int));
                assert(self.vals@ == old(self).vals@.update(j as int, val));
                return;
            }
            j = j + 1;
        }
        assert(!has_name(old(self).cols@, col@));
        self.cols.push(col);
        self.vals.push(val);
    }
}

} // verus!
