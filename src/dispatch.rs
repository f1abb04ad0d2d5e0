//! Routing the statements of a script by kind and collecting their results.

use vstd::prelude::*;
use vstd::string::{StrSliceExecFns, StringExecFns};
use vstd::utf8::encode_utf8;
use crate::error::PgError;
use crate::value::Value;

verus! {

/// How a statement is executed.
#[derive(PartialEq, Eq, Structural, Clone, Copy, Debug)]
pub enum StatementKind {
    /// A query whose rows are decoded and returned.
    RowProducing,
    /// A copy from the client's input into a table.
    BulkCopyIn,
    /// A copy from a table to the client, which is not supported.
    BulkCopyOut,
    /// Anything else: executed, and its rows, if any, are not returned.
    Other,
}

/// The parser's view of a statement, as far as routing needs it.
#[derive(PartialEq, Eq, Structural, Clone, Copy, Debug)]
pub enum NodeShape {
    Select,
    Copy { is_from: bool, is_program: bool },
    Other,
}

/// A statement of a script: its kind and its canonical text.
#[derive(Debug, Clone, PartialEq, Eq)]
pub struct Statement {
    pub kind: StatementKind,
    pub text: String,
}

/// The kind of a statement of the given shape.
pub open spec fn kind_of(shape: NodeShape) -> StatementKind {
    match shape {
        NodeShape::Select => StatementKind::RowProducing,
        NodeShape::Copy { is_from, is_program } => if is_program {
            StatementKind::Other
        } else if is_from {
            StatementKind::BulkCopyIn
        } else {
            StatementKind::BulkCopyOut
        },
        NodeShape::Other => StatementKind::Other,
    }
}

/// Classifies a parsed statement: a select produces rows; a copy from the
/// client is a bulk copy in, to the client a bulk copy out, and one that
/// involves a program on the server is executed like any other statement.
pub fn classify(shape: NodeShape) -> (r: StatementKind)
    ensures
        r == kind_of(shape),
{
    match shape {
        NodeShape::Select => StatementKind::RowProducing,
        NodeShape::Copy { is_from, is_program } => {
            if is_program {
                StatementKind::Other
            } else if is_from {
                StatementKind::BulkCopyIn
            } else {
                StatementKind::BulkCopyOut
            }
        },
        NodeShape::Other => StatementKind::Other,
    }
}

/// The script's result from the row lists of its row-producing statements:
/// a single list is returned as it is, any other number as a list of them.
pub open spec fn aggregated(outputs: Seq<Value>, v: Value) -> bool {
    if outputs.len() == 1 {
        v == outputs[0]
    } else {
        v matches Value::List(l) && l@ == outputs
    }
}

/// Combines the row lists of a script's row-producing statements.
pub fn aggregate(outputs: Vec<Value>) -> (v: Value)
    ensures
        aggregated(outputs@, v),
{
    let mut outputs = outputs;
    if outputs.len() == 1 {
        outputs.pop().unwrap()
    } else {
        Value::List(outputs)
    }
}

/// What the caller is to do next.
#[derive(Debug, PartialEq, Eq)]
pub enum Action {
    /// Run this query, decode all of its rows into one list, and report it.
    Query(String),
    /// Run this copy and write all of these bytes into it, then report done.
    CopyIn(String, Vec<u8>),
    /// Run this statement without decoding rows, then report done.
    Execute(String),
    /// The script is done; this is its result.
    Finish(Value),
    /// The script failed with this error.
    Fail(PgError),
}

/// The outcome of the last action.
#[derive(Debug, PartialEq, Eq)]
pub enum Event {
    /// The query's decoded rows.
    Rows(Value),
    /// The statement completed without rows.
    Done,
    /// The statement failed.
    Failed(PgError),
}

pub open spec fn copy_out_msg() -> Seq<char> {
    "`COPY … TO STDOUT` is not supported"@
}

/// A script under way: its statements, the client's input, the statement
/// in flight, and the row lists collected so far.
pub struct Dispatcher {
    pub stmts: Vec<Statement>,
    pub input: Vec<u8>,
    pub next: usize,
    pub outputs: Vec<Value>,
    /// Whether an action for `stmts[next]` is in flight.
    pub running: bool,
}

/// `a` is the action for `stmt` with client input `input`.
pub open spec fn action_for(stmt: Statement, input: Seq<u8>, a: Action) -> bool {
    match stmt.kind {
        StatementKind::RowProducing => a matches Action::Query(t) && t@ == stmt.text@,
        StatementKind::BulkCopyIn => a matches Action::CopyIn(t, d) && t@ == stmt.text@ && d@ == input,
        StatementKind::BulkCopyOut => a matches Action::Fail(e) && e.msg@ == copy_out_msg(),
        StatementKind::Other => a matches Action::Execute(t) && t@ == stmt.text@,
    }
}

/// The row lists collected once statement `stmt` reported `ev`, given those
/// collected before: a row-producing statement's rows are appended.
pub open spec fn collect_step(collected: Seq<Value>, stmt: Statement, ev: Event) -> Seq<Value> {
    match ev {
        Event::Rows(v) => if stmt.kind == StatementKind::RowProducing {
            collected.push(v)
        } else {
            collected
        },
        _ => collected,
    }
}

/// The row lists collected when the statements of `stmts` reported `evs`,
/// one event each, in order.
pub open spec fn collect(stmts: Seq<Statement>, evs: Seq<Event>) -> Seq<Value>
    decreases evs.len(),
{
    if evs.len() == 0 {
        Seq::empty()
    } else {
        collect_step(collect(stmts, evs.drop_last()), stmts[evs.len() - 1], evs.last())
    }
}

/// Dispatcher `d`, told `ev` about its statement in flight, becomes `d2`
/// and asks for `a`.
pub open spec fn advanced(d: Dispatcher, ev: Event, d2: Dispatcher, a: Action) -> bool {
    &&& d2.stmts == d.stmts
    &&& d2.input == d.input
    &&& match ev {
        Event::Failed(e) => !d2.running && a == Action::Fail(e),
        _ => {
            &&& d2.next == d.next + 1
            &&& d2.issued(collect_step(d.outputs@, d.stmts@[d.next as int], ev), a)
        },
    }
}

impl Dispatcher {
    pub open spec fn wf(&self) -> bool {
        &&& self.next <= self.stmts.len()
        &&& self.running ==> self.next < self.stmts.len()
    }

    /// `a` is what follows once `self` has reached statement `next` with
    /// the row lists `collected`: that statement's action, or the script's
    /// result when none is left.
    pub open spec fn issued(&self, collected: Seq<Value>, a: Action) -> bool {
        &&& self.wf()
        &&& if self.next < self.stmts.len() {
            &&& action_for(self.stmts@[self.next as int], self.input@, a)
            &&& self.running == (self.stmts@[self.next as int].kind != StatementKind::BulkCopyOut)
            &&& self.outputs@ == collected
        } else {
            &&& !self.running
            &&& a matches Action::Finish(v) && aggregated(collected, v)
        }
    }

    fn issue(&mut self) -> (a: Action)
        requires
            old(self).next <= old(self).stmts.len(),
        ensures
            final(self).stmts == old(self).stmts,
            final(self).input == old(self).input,
            final(self).next == old(self).next,
            final(self).issued(old(self).outputs@, a),
    {
        if self.next < self.stmts.len() {
            let stmt = &self.stmts[self.next];
            match stmt.kind {
                StatementKind::RowProducing => {
                    self.running = true;
                    Action::Query(stmt.text.clone())
                },
                StatementKind::BulkCopyIn => {
                    let data = copy_bytes(&self.input);
                    self.running = true;
                    Action::CopyIn(stmt.text.clone(), data)
                },
                StatementKind::BulkCopyOut => {
                    self.running = false;
                    Action::Fail(PgError::new("`COPY … TO STDOUT` is not supported".to_string()))
                },
                StatementKind::Other => {
                    self.running = true;
                    Action::Execute(stmt.text.clone())
                },
            }
        } else {
            self.running = false;
            let outputs = self.outputs.split_off(0);
            assert(outputs@ =~= old(self).outputs@);
            Action::Finish(aggregate(outputs))
        }
    }

    /// Starts a script. A script that did not parse fails at once, before
    /// any statement runs; otherwise the first statement's action is
    /// issued, or the empty result for a script without statements.
    pub fn start(parsed: Result<Vec<Statement>, PgError>, input: Vec<u8>) -> (r: (Dispatcher, Action))
        ensures
            match parsed {
                Err(e) => !r.0.running && r.1 == Action::Fail(e),
                Ok(stmts) => {
                    &&& r.0.stmts == stmts
                    &&& r.0.input == input
                    &&& r.0.next == 0
                    &&& r.0.issued(Seq::empty(), r.1)
                },
            },
    {
        match parsed {
            Err(e) => {
                let d = Dispatcher { stmts: Vec::new(), input, next: 0, outputs: Vec::new(), running: false };
                (d, Action::Fail(e))
            },
            Ok(stmts) => {
                let mut d = Dispatcher { stmts, input, next: 0, outputs: Vec::new(), running: false };
                let a = d.issue();
                (d, a)
            },
        }
    }

    /// Takes the outcome of the action in flight. A failure ends the script
    /// with that failure; otherwise a row-producing statement's rows are
    /// collected, and the next statement's action, or the result, follows.
    pub fn on_event(&mut self, ev: Event) -> (a: Action)
        requires
            old(self).wf(),
            old(self).running,
        ensures
            advanced(*old(self), ev, *final(self), a),
    {
        match ev {
            Event::Failed(e) => {
                self.running = false;
                Action::Fail(e)
            },
            Event::Rows(v) => {
                if self.stmts[self.next].kind == StatementKind::RowProducing {
                    self.outputs.push(v);
                }
                self.next = self.next + 1;
                self.issue()
            },
            Event::Done => {
                self.next = self.next + 1;
                self.issue()
            },
        }
    }
}

/// The input a script is run with, as the shell hands it over.
#[derive(Debug, Clone, PartialEq, Eq)]
pub enum Input {
    Nothing,
    Text(String),
    Binary(Vec<u8>),
    /// Input of another type, by the name of that type.
    Other(String),
}

/// The bytes a bulk copy in writes: none for no input, the UTF-8 encoding
/// of text, binary as it is; input of any other type is refused.
pub fn input_bytes(input: Input) -> (r: Result<Vec<u8>, PgError>)
    ensures
        match input {
            Input::Nothing => r matches Ok(b) && b@.len() == 0,
            Input::Text(s) => r matches Ok(b) && b@ == encode_utf8(s@),
            Input::Binary(b0) => r matches Ok(b) && b@ == b0@,
            Input::Other(t) => r matches Err(e) && e.msg@ == "expected `string` or `binary` input, but got `"@
                + t@ + "`"@,
        },
{
    match input {
        Input::Nothing => Ok(Vec::new()),
        Input::Text(s) => Ok(s.as_str().as_bytes_vec()),
        Input::Binary(b) => Ok(b),
        Input::Other(t) => Err(
            PgError::new(
                "expected `string` or `binary` input, but got `".to_string().concat(t.as_str()).concat(
                    "`",
                ),
            ),
        ),
    }
}

/// A script without statements yields the empty list, not an error.
pub proof fn lemma_empty_script_yields_empty_list(d: Dispatcher, a: Action)
    requires
        d.stmts@.len() == 0,
        d.issued(Seq::empty(), a),
    ensures
        a matches Action::Finish(v) && (v matches Value::List(l) && l@.len() == 0),
{
}

/// `ds`, `acts` and `evs` are a run of a script in which no statement
/// failed: the dispatcher as started and after each event, the action it
/// asked for at each point, and the outcome reported for each action.
pub open spec fn is_run(ds: Seq<Dispatcher>, acts: Seq<Action>, evs: Seq<Event>) -> bool {
    &&& ds.len() == evs.len() + 1
    &&& acts.len() == ds.len()
    &&& ds[0].next == 0
    &&& ds[0].issued(Seq::empty(), acts[0])
    &&& forall|i: int|
        0 <= i < evs.len() ==> ds[i].running && #[trigger] advanced(ds[i], evs[i], ds[i + 1], acts[i + 1])
    &&& forall|i: int| 0 <= i < evs.len() ==> !((#[trigger] evs[i]) is Failed)
}

/// After `i` events of a run, statement `i` is next and the row lists of
/// the row-producing statements among the first `i` have been collected.
pub proof fn lemma_run_state(ds: Seq<Dispatcher>, acts: Seq<Action>, evs: Seq<Event>, i: int)
    requires
        is_run(ds, acts, evs),
        0 <= i < ds.len(),
    ensures
        ds[i].stmts == ds[0].stmts,
        ds[i].next == i,
        ds[i].issued(collect(ds[0].stmts@, evs.take(i)), acts[i]),
    decreases i,
{
    if i == 0 {
        assert(evs.take(0) =~= Seq::<Event>::empty());
    } else {
        lemma_run_state(ds, acts, evs, i - 1);
        let j = i - 1;
        assert(advanced(ds[j], evs[j], ds[j + 1], acts[j + 1]));
        assert(!(evs[j] is Failed));
        assert(evs.take(i).drop_last() =~= evs.take(i - 1));
    }
}

/// A run through every statement of a script ends with the script's
/// result, made of the row lists of its row-producing statements.
pub proof fn lemma_run_result(ds: Seq<Dispatcher>, acts: Seq<Action>, evs: Seq<Event>)
    requires
        is_run(ds, acts, evs),
        evs.len() == ds[0].stmts.len(),
    ensures
        acts.last() matches Action::Finish(v) && aggregated(collect(ds[0].stmts@, evs), v),
{
    lemma_run_state(ds, acts, evs, evs.len() as int);
    assert(evs.take(evs.len() as int) =~= evs);
}

proof fn lemma_collect_one(stmts: Seq<Statement>, evs: Seq<Event>, k: int, rows: Value, i: int)
    requires
        0 <= i <= evs.len() <= stmts.len(),
        0 <= k < evs.len(),
        evs[k] == Event::Rows(rows),
        stmts[k].kind == StatementKind::RowProducing,
        forall|j: int| 0 <= j < stmts.len() && j != k ==> (#[trigger] stmts[j]).kind != StatementKind::RowProducing,
    ensures
        collect(stmts, evs.take(i)) == (if i > k { seq![rows] } else { Seq::empty() }),
    decreases i,
{
    if i == 0 {
        assert(evs.take(0) =~= Seq::<Event>::empty());
    } else {
        lemma_collect_one(stmts, evs, k, rows, i - 1);
        assert(evs.take(i).drop_last() =~= evs.take(i - 1));
        if i - 1 == k {
            assert(Seq::<Value>::empty().push(rows) =~= seq![rows]);
        }
    }
}

proof fn lemma_collect_two(
    stmts: Seq<Statement>,
    evs: Seq<Event>,
    k1: int,
    first: Value,
    k2: int,
    second: Value,
    i: int,
)
    requires
        0 <= i <= evs.len() <= stmts.len(),
        0 <= k1 < k2 < evs.len(),
        evs[k1] == Event::Rows(first),
        evs[k2] == Event::Rows(second),
        stmts[k1].kind == StatementKind::RowProducing,
        stmts[k2].kind == StatementKind::RowProducing,
        forall|j: int|
            0 <= j < stmts.len() && j != k1 && j != k2 ==> (#[trigger] stmts[j]).kind
                != StatementKind::RowProducing,
    ensures
        collect(stmts, evs.take(i)) == (if i > k2 {
            seq![first, second]
        } else if i > k1 {
            seq![first]
        } else {
            Seq::empty()
        }),
    decreases i,
{
    if i == 0 {
        assert(evs.take(0) =~= Seq::<Event>::empty());
    } else {
        lemma_collect_two(stmts, evs, k1, first, k2, second, i - 1);
        assert(evs.take(i).drop_last() =~= evs.take(i - 1));
        if i - 1 == k1 {
            assert(Seq::<Value>::empty().push(first) =~= seq![first]);
        }
        if i - 1 == k2 {
            assert(seq![first].push(second) =~= seq![first, second]);
        }
    }
}

/// A script with exactly one row-producing statement, run to its end
/// without failure, returns that statement's row list itself, not a list
/// wrapping it.
pub proof fn lemma_single_query_rows_unwrapped(
    ds: Seq<Dispatcher>,
    acts: Seq<Action>,
    evs: Seq<Event>,
    k: int,
    rows: Value,
)
    requires
        is_run(ds, acts, evs),
        evs.len() == ds[0].stmts.len(),
        0 <= k < evs.len(),
        ds[0].stmts@[k].kind == StatementKind::RowProducing,
        evs[k] == Event::Rows(rows),
        forall|j: int|
            0 <= j < ds[0].stmts.len() && j != k ==> (#[trigger] ds[0].stmts@[j]).kind
                != StatementKind::RowProducing,
    ensures
        acts.last() == Action::Finish(rows),
{
    lemma_run_result(ds, acts, evs);
    lemma_collect_one(ds[0].stmts@, evs, k, rows, evs.len() as int);
    assert(evs.take(evs.len() as int) =~= evs);
}

/// A script with exactly two row-producing statements, run to its end
/// without failure, returns the list of their two row lists, in statement
/// order.
pub proof fn lemma_two_queries_give_two_lists(
    ds: Seq<Dispatcher>,
    acts: Seq<Action>,
    evs: Seq<Event>,
    k1: int,
    first: Value,
    k2: int,
    second: Value,
)
    requires
        is_run(ds, acts, evs),
        evs.len() == ds[0].stmts.len(),
        0 <= k1 < k2 < evs.len(),
        ds[0].stmts@[k1].kind == StatementKind::RowProducing,
        ds[0].stmts@[k2].kind == StatementKind::RowProducing,
        evs[k1] == Event::Rows(first),
        evs[k2] == Event::Rows(second),
        forall|j: int|
            0 <= j < ds[0].stmts.len() && j != k1 && j != k2 ==> (#[trigger] ds[0].stmts@[j]).kind
                != StatementKind::RowProducing,
    ensures
        acts.last() matches Action::Finish(v) && (v matches Value::List(l) && l@ == seq![first, second]),
{
    lemma_run_result(ds, acts, evs);
    lemma_collect_two(ds[0].stmts@, evs, k1, first, k2, second, evs.len() as int);
    assert(evs.take(evs.len() as int) =~= evs);
}

/// A bulk copy in is handed the whole of the client's input and adds no
/// row list: what is collected when it completes is what was collected
/// before it.
pub proof fn lemma_copy_in_takes_all_input(d: Dispatcher, collected: Seq<Value>, a: Action)
    requires
        d.issued(collected, a),
        d.next < d.stmts.len(),
        d.stmts@[d.next as int].kind == StatementKind::BulkCopyIn,
    ensures
        a matches Action::CopyIn(_, data) && data@ == d.input@,
        d.running,
        d.outputs@ == collected,
{
}

/// A bulk copy out fails with the not-supported error, and nothing runs
/// after it.
pub proof fn lemma_copy_out_unsupported(d: Dispatcher, collected: Seq<Value>, a: Action)
    requires
        d.issued(collected, a),
        d.next < d.stmts.len(),
        d.stmts@[d.next as int].kind == StatementKind::BulkCopyOut,
    ensures
        a matches Action::Fail(e) && e.msg@ == copy_out_msg(),
        !d.running,
{
}

/// A copy of the bytes.
fn copy_bytes(v: &Vec<u8>) -> (r: Vec<u8>)
    ensures
        r@ == v@,
{
    let mut r: Vec<u8> = Vec::new();
    let mut i: usize = 0;
    while i < v.len()
        invariant
            i <= v.len(),
            r@ == v@.take(i as int),
        decreases v.len() - i,
    {
        r.push(v[i]);
        i = i + 1;
        assert(r@ =~= v@.take(i as int));
    }
    assert(v@.take(v.len() as int) =~= v@);
    r
}

} // verus!
