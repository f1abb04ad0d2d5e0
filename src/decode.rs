//! Type-directed decoding of result rows into records.

use vstd::prelude::*;
use vstd::string::StringExecFns;
use crate::error::PgError;
use crate::json::{converts, json_to_value, Json};
use crate::value::{first_names, last_index, lemma_insert_step, names, Instant, Record, Value};

verus! {

pub const BOOL_OID: u32 = 16;
pub const CHAR_OID: u32 = 18;
pub const NAME_OID: u32 = 19;
pub const INT8_OID: u32 = 20;
pub const INT2_OID: u32 = 21;
pub const INT4_OID: u32 = 23;
pub const TEXT_OID: u32 = 25;
pub const OID_OID: u32 = 26;
pub const JSON_OID: u32 = 114;
pub const FLOAT4_OID: u32 = 700;
pub const FLOAT8_OID: u32 = 701;
pub const BPCHAR_OID: u32 = 1042;
pub const VARCHAR_OID: u32 = 1043;
pub const TIME_OID: u32 = 1083;
pub const TIMESTAMP_OID: u32 = 1114;
pub const TIMESTAMPTZ_OID: u32 = 1184;
pub const JSONB_OID: u32 = 3802;

/// How a column of a supported wire type is read and decoded.
#[derive(PartialEq, Eq, Structural, Clone, Copy, Debug)]
pub enum WireKind {
    Text,
    Bool,
    Char,
    Int2,
    Int4,
    Int8,
    Float4,
    Float8,
    Json,
    TimestampTz,
    Timestamp,
    Time,
    Oid,
}

/// The decoding table: the kind of each supported wire type.
pub open spec fn kind_of_oid(oid: u32) -> Option<WireKind> {
    if oid == TEXT_OID || oid == VARCHAR_OID || oid == BPCHAR_OID || oid == NAME_OID {
        Some(WireKind::Text)
    } else if oid == BOOL_OID {
        Some(WireKind::Bool)
    } else if oid == CHAR_OID {
        Some(WireKind::Char)
    } else if oid == INT2_OID {
        Some(WireKind::Int2)
    } else if oid == INT4_OID {
        Some(WireKind::Int4)
    } else if oid == INT8_OID {
        Some(WireKind::Int8)
    } else if oid == FLOAT4_OID {
        Some(WireKind::Float4)
    } else if oid == FLOAT8_OID {
        Some(WireKind::Float8)
    } else if oid == JSON_OID || oid == JSONB_OID {
        Some(WireKind::Json)
    } else if oid == TIMESTAMPTZ_OID {
        Some(WireKind::TimestampTz)
    } else if oid == TIMESTAMP_OID {
        Some(WireKind::Timestamp)
    } else if oid == TIME_OID {
        Some(WireKind::Time)
    } else if oid == OID_OID {
        Some(WireKind::Oid)
    } else {
        None
    }
}

/// Looks up the decoding kind of a wire type; `None` if it is unsupported.
pub fn wire_kind(oid: u32) -> (r: Option<WireKind>)
    ensures
        r == kind_of_oid(oid),
{
    if oid == TEXT_OID || oid == VARCHAR_OID || oid == BPCHAR_OID || oid == NAME_OID {
        Some(WireKind::Text)
    } else if oid == BOOL_OID {
        Some(WireKind::Bool)
    } else if oid == CHAR_OID {
        Some(WireKind::Char)
    } else if oid == INT2_OID {
        Some(WireKind::Int2)
    } else if oid == INT4_OID {
        Some(WireKind::Int4)
    } else if oid == INT8_OID {
        Some(WireKind::Int8)
    } else if oid == FLOAT4_OID {
        Some(WireKind::Float4)
    } else if oid == FLOAT8_OID {
        Some(WireKind::Float8)
    } else if oid == JSON_OID || oid == JSONB_OID {
        Some(WireKind::Json)
    } else if oid == TIMESTAMPTZ_OID {
        Some(WireKind::TimestampTz)
    } else if oid == TIMESTAMP_OID {
        Some(WireKind::Timestamp)
    } else if oid == TIME_OID {
        Some(WireKind::Time)
    } else if oid == OID_OID {
        Some(WireKind::Oid)
    } else {
        None
    }
}

/// A calendar date and wall-clock time with no time zone.
#[derive(Debug, Clone, PartialEq, Eq)]
pub struct DateTimeParts {
    pub year: i32,
    pub month: u32,
    pub day: u32,
    pub hour: u32,
    pub minute: u32,
    pub second: u32,
    pub nanosecond: u32,
}

/// A wall-clock time of day.
#[derive(Debug, Clone, PartialEq, Eq)]
pub struct TimeParts {
    pub hour: u32,
    pub minute: u32,
    pub second: u32,
    pub nanosecond: u32,
}

/// One column value as read from a row, in the shape its wire kind gives.
#[derive(Debug, PartialEq, Eq)]
pub enum Cell {
    Null,
    Text(String),
    Bool(bool),
    Char(i8),
    Int2(i16),
    Int4(i32),
    Int8(i64),
    /// A floating-point value widened to binary64, as its bit pattern.
    Float(u64),
    Json(Json),
    Instant(Instant),
    DateTime(DateTimeParts),
    Time(TimeParts),
    Oid(u32),
}

/// A result column: its name and wire type.
#[derive(Debug, Clone, PartialEq, Eq)]
pub struct Column {
    pub name: String,
    pub type_oid: u32,
    /// The wire type's name, for messages.
    pub wire_type: String,
}

/// Why a row could not be decoded.
#[derive(Debug, Clone, PartialEq, Eq)]
pub enum DecodeError {
    /// The column's wire type has no decoding.
    UnsupportedType { column: String, wire_type: String },
    /// The value read does not have the shape of the column's wire type.
    CellMismatch { column: String },
}

/// Whether a non-null cell has the shape that `kind` reads.
pub open spec fn cell_fits(kind: WireKind, cell: Cell) -> bool {
    match kind {
        WireKind::Text => cell is Text,
        WireKind::Bool => cell is Bool,
        WireKind::Char => cell is Char,
        WireKind::Int2 => cell is Int2,
        WireKind::Int4 => cell is Int4,
        WireKind::Int8 => cell is Int8,
        WireKind::Float4 | WireKind::Float8 => cell is Float,
        WireKind::Json => cell is Json,
        WireKind::TimestampTz => cell is Instant,
        WireKind::Timestamp => cell is DateTime,
        WireKind::Time => cell is Time,
        WireKind::Oid => cell is Oid,
    }
}

/// `r` holds exactly the integer fields named by `ks` with values `vs`, in order.
pub open spec fn int_fields(r: Record, ks: Seq<Seq<char>>, vs: Seq<int>) -> bool {
    &&& r.cols.len() == ks.len()
    &&& r.vals.len() == ks.len()
    &&& forall|i: int| 0 <= i < ks.len() ==> (#[trigger] r.cols@[i])@ == ks[i]
    &&& forall|i: int| 0 <= i < ks.len() ==> (#[trigger] r.vals@[i]) == Value::Int(vs[i] as i64)
}

/// The value a cell decodes to.
pub open spec fn cell_converts(cell: Cell, v: Value) -> bool {
    match cell {
        Cell::Null => v == Value::Nothing,
        Cell::Text(s) => v matches Value::String(t) && t@ == s@,
        Cell::Bool(b) => v == Value::Bool(b),
        Cell::Char(x) => v == Value::Int(x as i64),
        Cell::Int2(x) => v == Value::Int(x as i64),
        Cell::Int4(x) => v == Value::Int(x as i64),
        Cell::Int8(x) => v == Value::Int(x),
        Cell::Float(f) => v == Value::Float(f),
        Cell::Json(j) => converts(j, v),
        Cell::Instant(t) => v == Value::Date(t),
        Cell::DateTime(d) => v matches Value::Record(r) && int_fields(
            r,
            seq![
                "year"@,
                "month"@,
                "day"@,
                "hour"@,
                "minute"@,
                "second"@,
                "nanosecond"@,
            ],
            seq![
                d.year as int,
                d.month as int,
                d.day as int,
                d.hour as int,
                d.minute as int,
                d.second as int,
                d.nanosecond as int,
            ],
        ),
        Cell::Time(t) => v matches Value::Record(r) && r.cols.len() == 4 && r.vals.len() == 4
            && r.cols@[0]@ == "hour"@ && r.vals@[0] == Value::Duration(t.hour as i64)
            && r.cols@[1]@ == "minute"@ && r.vals@[1] == Value::Int(t.minute as i64)
            && r.cols@[2]@ == "second"@ && r.vals@[2] == Value::Int(t.second as i64)
            && r.cols@[3]@ == "nanosecond"@ && r.vals@[3] == Value::Int(t.nanosecond as i64),
        Cell::Oid(x) => v == Value::Int(x as i64),
    }
}

/// Whether a cell can be decoded as `kind`: it is NULL or has its shape.
pub open spec fn cell_ok(kind: WireKind, cell: Cell) -> bool {
    cell is Null || cell_fits(kind, cell)
}

/// Decodes one cell of a column of kind `kind`; `None` if the cell does not
/// have the shape that kind reads.
pub fn decode_cell(kind: WireKind, cell: &Cell) -> (r: Option<Value>)
    ensures
        r is Some <==> cell_ok(kind, *cell),
        r matches Some(v) ==> cell_converts(*cell, v),
{
    if let Cell::Null = cell {
        return Some(Value::Nothing);
    }
    let fits = match (kind, cell) {
        (WireKind::Text, Cell::Text(_)) => true,
        (WireKind::Bool, Cell::Bool(_)) => true,
        (WireKind::Char, Cell::Char(_)) => true,
        (WireKind::Int2, Cell::Int2(_)) => true,
        (WireKind::Int4, Cell::Int4(_)) => true,
        (WireKind::Int8, Cell::Int8(_)) => true,
        (WireKind::Float4, Cell::Float(_)) => true,
        (WireKind::Float8, Cell::Float(_)) => true,
        (WireKind::Json, Cell::Json(_)) => true,
        (WireKind::TimestampTz, Cell::Instant(_)) => true,
        (WireKind::Timestamp, Cell::DateTime(_)) => true,
        (WireKind::Time, Cell::Time(_)) => true,
        (WireKind::Oid, Cell::Oid(_)) => true,
        _ => false,
    };
    if !fits {
        return None;
    }
    let v = match cell {
        Cell::Null => Value::Nothing,
        Cell::Text(s) => Value::String(s.clone()),
        Cell::Bool(b) => Value::Bool(*b),
        Cell::Char(x) => Value::Int(*x as i64),
        Cell::Int2(x) => Value::Int(*x as i64),
        Cell::Int4(x) => Value::Int(*x as i64),
        Cell::Int8(x) => Value::Int(*x),
        Cell::Float(f) => Value::Float(*f),
        Cell::Json(j) => json_to_value(j),
        Cell::Instant(t) => Value::Date(Instant { secs: t.secs, nanos: t.nanos, offset_secs: t.offset_secs }),
        Cell::DateTime(d) => {
            proof {
                reveal_strlit("year");
                reveal_strlit("month");
                reveal_strlit("day");
                reveal_strlit("hour");
                reveal_strlit("minute");
                reveal_strlit("second");
                reveal_strlit("nanosecond");
            }
            let r = Record {
                cols: vec![
                    "year".to_string(),
                    "month".to_string(),
                    "day".to_string(),
                    "hour".to_string(),
                    "minute".to_string(),
                    "second".to_string(),
                    "nanosecond".to_string(),
                ],
                vals: vec![
                    Value::Int(d.year as i64),
                    Value::Int(d.month as i64),
                    Value::Int(d.day as i64),
                    Value::Int(d.hour as i64),
                    Value::Int(d.minute as i64),
                    Value::Int(d.second as i64),
                    Value::Int(d.nanosecond as i64),
                ],
            };
            Value::Record(r)
        },
        Cell::Time(t) => {
            proof {
                reveal_strlit("hour");
                reveal_strlit("minute");
                reveal_strlit("second");
                reveal_strlit("nanosecond");
            }
            let r = Record {
                cols: vec![
                    "hour".to_string(),
                    "minute".to_string(),
                    "second".to_string(),
                    "nanosecond".to_string(),
                ],
                vals: vec![
                    Value::Duration(t.hour as i64),
                    Value::Int(t.minute as i64),
                    Value::Int(t.second as i64),
                    Value::Int(t.nanosecond as i64),
                ],
            };
            Value::Record(r)
        },
        Cell::Oid(x) => Value::Int(*x as i64),
    };
    Some(v)
}

pub open spec fn decode_error_msg(e: DecodeError) -> Seq<char> {
    match e {
        DecodeError::UnsupportedType { column, wire_type } => "column `"@ + column@
            + "` has unsupported type `"@ + wire_type@ + "`"@,
        DecodeError::CellMismatch { column } => "column `"@ + column@
            + "` holds a value of another type"@,
    }
}

impl DecodeError {
    /// The error as reported to the user.
    pub fn into_error(self) -> (r: PgError)
        ensures
            r.msg@ == decode_error_msg(self),
            r.code is None,
            r.help is None,
            r.inner@.len() == 0,
    {
        let ghost e = self;
        let msg = match self {
            DecodeError::UnsupportedType { column, wire_type } => "column `".to_string().concat(
                column.as_str(),
            ).concat("` has unsupported type `").concat(wire_type.as_str()).concat("`"),
            DecodeError::CellMismatch { column } => "column `".to_string().concat(
                column.as_str(),
            ).concat("` holds a value of another type"),
        };
        PgError::new(msg)
    }
}

/// Decoding a NULL cell gives the null node, whatever the column's kind.
pub proof fn lemma_null_decodes_to_nothing(kind: WireKind, v: Value)
    ensures
        cell_ok(kind, Cell::Null),
        cell_converts(Cell::Null, v) <==> v == Value::Nothing,
{
}

/// Whether a column's cell can be decoded: its wire type is supported and
/// the cell is NULL or has that type's shape.
pub open spec fn column_ok(c: Column, cell: Cell) -> bool {
    kind_of_oid(c.type_oid) matches Some(k) && cell_ok(k, cell)
}

/// Column `i` is the first that cannot be decoded.
pub open spec fn first_bad(columns: Seq<Column>, cells: Seq<Cell>, i: int) -> bool {
    &&& 0 <= i < columns.len()
    &&& !column_ok(columns[i], cells[i])
    &&& forall|k: int| 0 <= k < i ==> column_ok(#[trigger] columns[k], cells[k])
}

/// The names of the columns, in order.
pub open spec fn column_names(columns: Seq<Column>) -> Seq<Seq<char>> {
    columns.map_values(|c: Column| c.name@)
}

/// `e` is the error reported for column `c` holding `cell`.
pub open spec fn error_for(c: Column, cell: Cell, e: DecodeError) -> bool {
    match kind_of_oid(c.type_oid) {
        None => e matches DecodeError::UnsupportedType { column, wire_type } && column@ == c.name@
            && wire_type@ == c.wire_type@,
        Some(_) => e matches DecodeError::CellMismatch { column } && column@ == c.name@,
    }
}

/// `r` is the record form of a row: one field per distinct column name, in
/// column order, holding the decoded cell of the last column of that name.
pub open spec fn row_converts(columns: Seq<Column>, cells: Seq<Cell>, r: Record) -> bool {
    &&& r.wf()
    &&& names(r.cols@) == first_names(column_names(columns))
    &&& forall|p: int|
        0 <= p < r.cols.len() ==> {
            let m = last_index(column_names(columns), (#[trigger] r.cols@[p])@);
            0 <= m < cells.len() && cell_converts(cells[m], r.vals@[p])
        }
}

/// `r` is the outcome of decoding a row: the record when every column can
/// be decoded, else the error for the first column that cannot.
pub open spec fn decodes(columns: Seq<Column>, cells: Seq<Cell>, r: Result<Record, DecodeError>) -> bool {
    &&& r is Ok <==> forall|i: int| 0 <= i < columns.len() ==> column_ok(#[trigger] columns[i], cells[i])
    &&& r matches Ok(rec) ==> row_converts(columns, cells, rec)
    &&& r matches Err(e) ==> exists|i: int| first_bad(columns, cells, i) && error_for(columns[i], cells[i], e)
}

/// When a row has a column of an unsupported wire type and each cell of a
/// supported column has its type's shape, decoding fails with an
/// unsupported-type error that names the first such column and its type;
/// the column is never left out of a record.
pub proof fn lemma_unsupported_type_reported(
    columns: Seq<Column>,
    cells: Seq<Cell>,
    r: Result<Record, DecodeError>,
    k: int,
)
    requires
        decodes(columns, cells, r),
        cells.len() == columns.len(),
        0 <= k < columns.len(),
        kind_of_oid(columns[k].type_oid) is None,
        forall|i: int|
            0 <= i < columns.len() ==> (#[trigger] kind_of_oid(columns[i].type_oid) matches Some(kd)
                ==> cell_ok(kd, cells[i])),
    ensures
        r matches Err(DecodeError::UnsupportedType { column, wire_type }) && exists|j: int|
            0 <= j <= k && kind_of_oid(columns[j].type_oid) is None && column@ == columns[j].name@
                && wire_type@ == columns[j].wire_type@ && decode_error_msg(
                DecodeError::UnsupportedType { column, wire_type },
            ) == "column `"@ + columns[j].name@ + "` has unsupported type `"@ + columns[j].wire_type@
                + "`"@ && forall|i: int| 0 <= i < j ==> (#[trigger] kind_of_oid(columns[i].type_oid)) is Some,
{
    assert(!column_ok(columns[k], cells[k]));
    let e = r->Err_0;
    let j = choose|j: int| first_bad(columns, cells, j) && error_for(columns[j], cells[j], e);
    if j > k {
        assert(column_ok(columns[k], cells[k]));
    }
    assert(kind_of_oid(columns[j].type_oid) is None);
    assert forall|i: int| 0 <= i < j implies (#[trigger] kind_of_oid(columns[i].type_oid)) is Some by {
        assert(column_ok(columns[i], cells[i]));
    }
}

/// Decodes one row, column by column; fails on the first column whose wire
/// type is unsupported or whose cell does not have its shape.
pub fn decode_row(columns: &Vec<Column>, cells: &Vec<Cell>) -> (r: Result<Record, DecodeError>)
    requires
        cells.len() == columns.len(),
    ensures
        decodes(columns@, cells@, r),
{
    let mut rec = Record::new();
    let mut i: usize = 0;
    assert(column_names(columns@.take(0)) =~= Seq::<Seq<char>>::empty());
    assert(names(rec.cols@) =~= Seq::<Seq<char>>::empty());
    while i < columns.len()
        invariant
            i <= columns.len(),
            cells.len() == columns.len(),
            forall|k: int| 0 <= k < i ==> column_ok(#[trigger] columns@[k], cells@[k]),
            row_converts(columns@.take(i as int), cells@.take(i as int), rec),
        decreases columns.len() - i,
    {
        let col = &columns[i];
        let kind = match wire_kind(col.type_oid) {
            Some(k) => k,
            None => {
                let e = DecodeError::UnsupportedType {
                    column: col.name.clone(),
                    wire_type: col.wire_type.clone(),
                };
                assert(first_bad(columns@, cells@, i as int));
                return Err(e);
            },
        };
        let v = match decode_cell(kind, &cells[i]) {
            Some(v) => v,
            None => {
                assert(first_bad(columns@, cells@, i as int));
                return Err(DecodeError::CellMismatch { column: col.name.clone() });
            },
        };
        let k = col.name.clone();
        let ghost before = rec;
        let ghost ks = column_names(columns@.take(i as int));
        let ghost s = columns@.take(i + 1);
        let ghost cs = cells@.take(i + 1);
        rec.insert(k, v);
        proof {
            assert(column_names(s) =~= ks.push(k@));
            lemma_insert_step(before, rec, ks, k, v);
            assert forall|p: int| 0 <= p < rec.cols.len() implies {
                let m = last_index(column_names(s), (#[trigger] rec.cols@[p])@);
                0 <= m < cs.len() && cell_converts(cs[m], rec.vals@[p])
            } by {
                if rec.cols@[p]@ != k@ {
                    assert(before.cols@[p] == rec.cols@[p]);
                }
            }
        }
        i = i + 1;
    }
    assert(columns@.take(columns.len() as int) =~= columns@);
    assert(cells@.take(cells.len() as int) =~= cells@);
    Ok(rec)
}

} // verus!
