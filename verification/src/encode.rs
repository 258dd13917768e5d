//! The encoding half of the row codec: the populated cells of a row become the members
//! of one JSON object, and the members of an `attrs` document join them.

use vstd::prelude::*;
use crate::codec::{decode_cells, row_of};
use crate::json::{
    find, json_number_text, json_object, keys_distinct, lemma_position, lookup, members_view,
    number_text, parse_object, position, same_text, Field, FieldV, Member, ObjectV,
};
use crate::row::{Cell, CellV, Row, RowV};
use crate::schema::{field_type, lemma_attrs_reserved, schema_of, ColumnType, ResourceKind, SchemaV};

verus! {

/// A row that cannot be sent.
#[derive(Clone, Copy, PartialEq, Eq, Structural, Debug)]
pub enum EncodeError {
    /// A populated cell has a type that the upstream API does not take.
    UnsupportedType,
}

/// `ms` with `key` set to `value`: in place where the key is there, at the
/// end where it is not.
pub open spec fn upsert(ms: ObjectV, key: Seq<char>, value: FieldV) -> ObjectV {
    match position(ms, key) {
        Some(i) => ms.update(i, (key, value)),
        None => ms.push((key, value)),
    }
}

/// `ms` with each member of `extra` set in turn.
pub open spec fn upsert_all(ms: ObjectV, extra: ObjectV) -> ObjectV
    decreases extra.len(),
{
    if extra.len() == 0 {
        ms
    } else {
        upsert(upsert_all(ms, extra.drop_last()), extra.last().0, extra.last().1)
    }
}

/// Sets `key` to `value` among `ms`.
pub fn put(ms: &mut Vec<Member>, key: String, value: Field)
    ensures
        members_view(final(ms)@) == upsert(members_view(old(ms)@), key@, value@),
{
    let ghost before = members_view(ms@);
    match find(ms, key.as_str()) {
        Some(i) => {
            ms.set(i, Member { key, value });
            proof {
                assert(members_view(ms@) =~= before.update(i as int, (key@, value@)));
            }
        },
        None => {
            ms.push(Member { key, value });
            proof {
                assert(members_view(ms@) =~= before.push((key@, value@)));
            }
        },
    }
}

/// A copy of a JSON value.
pub fn clone_field(field: &Field) -> (r: Field)
    ensures
        r@ == field@,
{
    match field {
        Field::Null => Field::Null,
        Field::Bool(b) => Field::Bool(*b),
        Field::Number(i, t) => Field::Number(*i, t.clone()),
        Field::Str(s) => Field::Str(s.clone()),
        Field::Nested(t) => Field::Nested(t.clone()),
    }
}

/// Sets each member of `extra` among `ms`, in turn.
pub fn merge(ms: &mut Vec<Member>, extra: &Vec<Member>)
    ensures
        members_view(final(ms)@) == upsert_all(members_view(old(ms)@), members_view(extra@)),
{
    let ghost before = members_view(ms@);
    let ghost ev = members_view(extra@);
    let mut i: usize = 0;
    while i < extra.len()
        invariant
            i <= extra.len(),
            ev == members_view(extra@),
            members_view(ms@) == upsert_all(before, ev.take(i as int)),
        decreases extra.len() - i,
    {
        proof {
            let next = ev.take(i + 1);
            assert(next.drop_last() == ev.take(i as int));
            assert(next.last() == extra@[i as int]@);
        }
        put(ms, extra[i].key.clone(), clone_field(&extra[i].value));
        i += 1;
    }
    proof {
        assert(ev.take(extra.len() as int) == ev);
    }
}

/// The body after one column: a boolean, an integer or a string is set
/// under the column's name; the members of an `attrs` document are set each
/// under its own key; an empty cell, and a document elsewhere or one that
/// is no object, leave the body as it is; a cell of another type cannot be
/// sent.
pub open spec fn encode_cell(body: ObjectV, name: Seq<char>, cell: Option<CellV>) -> Option<ObjectV> {
    match cell {
        None => Some(body),
        Some(CellV::Bool(b)) => Some(upsert(body, name, FieldV::Bool(b))),
        Some(CellV::I64(i)) => Some(upsert(body, name, FieldV::Number(Some(i), json_number_text(i)))),
        Some(CellV::String(s)) => Some(upsert(body, name, FieldV::Str(s))),
        Some(CellV::Json(t)) => if name == "attrs"@ {
            match json_object(t) {
                Some(extra) => Some(upsert_all(body, extra)),
                None => Some(body),
            }
        } else {
            Some(body)
        },
        Some(CellV::Timestamp(_)) => None,
        Some(CellV::Other) => None,
    }
}

/// The body of a row: its columns encoded in order; `None` where one of
/// them cannot be sent.
pub open spec fn encode(row: RowV) -> Option<ObjectV>
    decreases row.len(),
{
    if row.len() == 0 {
        Some(seq![])
    } else {
        match encode(row.drop_last()) {
            Some(body) => encode_cell(body, row.last().0, row.last().1),
            None => None,
        }
    }
}

/// Encodes a row as the members of a request body.
pub fn row_to_body(row: &Row) -> (r: Result<Vec<Member>, EncodeError>)
    ensures
        match encode(row@) {
            Some(body) => r is Ok && members_view(r->Ok_0@) == body,
            None => r == Err::<Vec<Member>, EncodeError>(EncodeError::UnsupportedType),
        },
{
    let mut body: Vec<Member> = Vec::new();
    let mut i: usize = 0;
    proof {
        assert(members_view(body@) =~= seq![]);
        assert(row@.take(0) =~= seq![]);
    }
    while i < row.columns.len()
        invariant
            i <= row.columns.len(),
            encode(row@.take(i as int)) == Some(members_view(body@)),
        decreases row.columns.len() - i,
    {
        proof {
            let next = row@.take(i + 1);
            assert(next.drop_last() == row@.take(i as int));
            assert(next.last() == row.columns@[i as int]@);
        }
        let column = &row.columns[i];
        match &column.cell {
            None => {},
            Some(Cell::Bool(b)) => {
                put(&mut body, column.name.clone(), Field::Bool(*b));
            },
            Some(Cell::I64(v)) => {
                put(&mut body, column.name.clone(), Field::Number(Some(*v), number_text(*v)));
            },
            Some(Cell::String(s)) => {
                put(&mut body, column.name.clone(), Field::Str(s.clone()));
            },
            Some(Cell::Json(t)) => {
                if same_text(column.name.as_str(), "attrs") {
                    match parse_object(t.as_str()) {
                        Some(extra) => {
                            merge(&mut body, &extra);
                        },
                        None => {},
                    }
                }
            },
            Some(Cell::Timestamp(_)) | Some(Cell::Other) => {
                proof {
                    lemma_encode_fails_for_good(row@, i + 1);
                }
                return Err(EncodeError::UnsupportedType);
            },
        }
        i += 1;
    }
    proof {
        assert(row@.take(row.columns.len() as int) == row@);
    }
    Ok(body)
}

/// Once the first `n` columns cannot be sent, the row cannot.
pub proof fn lemma_encode_fails_for_good(row: RowV, n: int)
    requires
        0 <= n <= row.len(),
        encode(row.take(n)) is None,
    ensures
        encode(row) is None,
    decreases row.len() - n,
{
    if n < row.len() {
        assert(row.take(n + 1).drop_last() == row.take(n));
        lemma_encode_fails_for_good(row, n + 1);
    } else {
        assert(row.take(n) == row);
    }
}

/// After `key` is set to `value`, a lookup of `key` gives `value` and a
/// lookup of any other key gives what it gave before.
pub proof fn lemma_lookup_upsert(ms: ObjectV, key: Seq<char>, value: FieldV, other: Seq<char>)
    ensures
        lookup(upsert(ms, key, value), other) == if other == key {
            Some(value)
        } else {
            lookup(ms, other)
        },
{
    let after = upsert(ms, key, value);
    lemma_position(ms, key);
    lemma_position(ms, other);
    lemma_position(after, other);
    match position(ms, key) {
        Some(i) => {
            assert(forall|j: int| 0 <= j < ms.len() ==> (#[trigger] after[j]).0 == ms[j].0);
            match position(ms, other) {
                Some(p) => {
                    assert(after[p].0 == other);
                    let q = position(after, other)->Some_0;
                    assert(ms[q].0 == after[q].0);
                    assert(q == p);
                },
                None => {
                    if position(after, other) is Some {
                        let q = position(after, other)->Some_0;
                        assert(ms[q].0 == after[q].0);
                    }
                },
            }
        },
        None => {
            assert(after.drop_last() == ms);
        },
    }
}

/// Setting the members of an object with distinct keys, in turn, among no
/// members gives that object again.
pub proof fn lemma_upsert_all_distinct(ms: ObjectV)
    requires
        keys_distinct(ms),
    ensures
        upsert_all(seq![], ms) == ms,
    decreases ms.len(),
{
    if ms.len() > 0 {
        let front = ms.drop_last();
        lemma_upsert_all_distinct(front);
        lemma_position(front, ms.last().0);
        if position(front, ms.last().0) is Some {
            let i = position(front, ms.last().0)->Some_0;
            assert(front[i] == ms[i]);
            assert(ms[i].0 != ms[ms.len() - 1].0);
        }
        assert(front.push(ms.last()) =~= ms);
    } else {
        assert(ms =~= seq![]);
    }
}

/// A record decoded into the `attrs` column alone and encoded again gives
/// the record's own members as the body, each under its key.
pub proof fn lemma_attrs_round_trip(kind: ResourceKind, record: ObjectV, raw: Seq<char>)
    requires
        json_object(raw) == Some(record),
        keys_distinct(record),
    ensures
        encode(row_of(record, raw, schema_of(kind), seq!["attrs"@])) == Some(record),
{
    lemma_attrs_reserved(kind);
    let schema = schema_of(kind);
    let cols = seq!["attrs"@];
    assert(cols.drop_last() =~= seq![]);
    assert(cols.last() == "attrs"@);
    assert(decode_cells(record, schema, cols.drop_last()) =~= seq![]);
    assert(decode_cells(record, schema, cols) =~= seq![]);
    assert(cols[0] == "attrs"@);
    assert(cols.contains("attrs"@));
    let row = row_of(record, raw, schema, cols);
    assert(row =~= seq![("attrs"@, Some(CellV::Json(raw)))]);
    assert(row.drop_last() =~= seq![]);
    assert(encode(row.drop_last()) == Some(Seq::<(Seq<char>, FieldV)>::empty()));
    lemma_upsert_all_distinct(record);
}

/// The JSON value that stands for a boolean, an integer or a string cell.
pub open spec fn scalar_value(cell: CellV) -> Option<FieldV> {
    match cell {
        CellV::Bool(b) => Some(FieldV::Bool(b)),
        CellV::I64(i) => Some(FieldV::Number(Some(i), json_number_text(i))),
        CellV::String(s) => Some(FieldV::Str(s)),
        _ => None,
    }
}

/// The column type under which a scalar cell is read back.
pub open spec fn scalar_type(cell: CellV) -> ColumnType {
    match cell {
        CellV::Bool(_) => ColumnType::Bool,
        CellV::I64(_) => ColumnType::I64,
        CellV::Timestamp(_) => ColumnType::Timestamp,
        _ => ColumnType::Text,
    }
}

/// Whether every populated cell of the row is a boolean, an integer or a
/// string, and no column name comes twice.
pub open spec fn scalar_row(row: RowV) -> bool {
    &&& forall|i: int| 0 <= i < row.len() && (#[trigger] row[i]).1 is Some ==> scalar_value(row[i].1->Some_0) is Some
    &&& forall|i: int, j: int| 0 <= i < j < row.len() ==> (#[trigger] row[i]).0 != (#[trigger] row[j]).0
}

/// The body of a row of scalars holds each populated cell under its
/// column's name.
pub proof fn lemma_encode_scalars(row: RowV, i: int)
    requires
        scalar_row(row),
        0 <= i < row.len(),
        row[i].1 is Some,
    ensures
        encode(row) is Some,
        lookup(encode(row)->Some_0, row[i].0) == scalar_value(row[i].1->Some_0),
    decreases row.len(),
{
    let front = row.drop_last();
    lemma_encode_total(front);
    let body = encode(front)->Some_0;
    let last = row.last();
    assert(row[row.len() - 1] == last);
    if i < row.len() - 1 {
        assert(front[i] == row[i]);
        lemma_encode_scalars(front, i);
        if last.1 is Some {
            lemma_lookup_upsert(body, last.0, scalar_value(last.1->Some_0)->Some_0, row[i].0);
        }
    } else {
        lemma_lookup_upsert(body, last.0, scalar_value(last.1->Some_0)->Some_0, row[i].0);
    }
}

/// A row whose populated cells are scalars can be sent.
pub proof fn lemma_encode_total(row: RowV)
    requires
        forall|i: int| 0 <= i < row.len() && (#[trigger] row[i]).1 is Some ==> scalar_value(row[i].1->Some_0) is Some,
    ensures
        encode(row) is Some,
    decreases row.len(),
{
    if row.len() > 0 {
        let front = row.drop_last();
        assert forall|i: int| 0 <= i < front.len() && (#[trigger] front[i]).1 is Some implies scalar_value(front[i].1->Some_0) is Some by {
            assert(front[i] == row[i]);
        }
        lemma_encode_total(front);
        assert(row[row.len() - 1] == row.last());
    }
}

/// Round trip of scalars: where a row of booleans, integers and strings is
/// encoded and the body is decoded as a record under a schema that gives
/// the column its cell's type, the column holds its value again.
pub proof fn lemma_scalar_round_trip(row: RowV, schema: SchemaV, i: int)
    requires
        scalar_row(row),
        0 <= i < row.len(),
        row[i].1 is Some,
        field_type(schema, row[i].0) == Some(scalar_type(row[i].1->Some_0)),
    ensures
        encode(row) is Some,
        decode_cells(encode(row)->Some_0, schema, seq![row[i].0]) == seq![row[i]],
{
    lemma_encode_scalars(row, i);
    let cols = seq![row[i].0];
    let body = encode(row)->Some_0;
    assert(cols.drop_last() =~= seq![]);
    assert(cols.last() == row[i].0);
    assert(decode_cells(body, schema, cols.drop_last()) =~= seq![]);
    assert(decode_cells(body, schema, cols) =~= seq![row[i]]);
}

/// The names of the columns of a row, in order.
pub open spec fn column_names(row: RowV) -> Seq<Seq<char>> {
    Seq::new(row.len(), |i: int| row[i].0)
}

/// Round trip of a whole row: where every column of a row of scalars is
/// populated and the schema gives it its cell's type, encoding the row and
/// decoding the body as a record, for the row's own columns, gives the row.
pub proof fn lemma_scalar_row_round_trip(row: RowV, schema: SchemaV)
    requires
        scalar_row(row),
        forall|i: int| 0 <= i < row.len() ==> (#[trigger] row[i]).1 is Some && field_type(schema, row[i].0) == Some(
            scalar_type(row[i].1->Some_0),
        ),
    ensures
        encode(row) is Some,
        decode_cells(encode(row)->Some_0, schema, column_names(row)) == row,
{
    lemma_encode_total(row);
    lemma_decode_prefix(row, schema, row.len() as int);
    assert(column_names(row).take(row.len() as int) == column_names(row));
    assert(row.take(row.len() as int) == row);
}

/// The first `n` columns of such a row come back from its body.
proof fn lemma_decode_prefix(row: RowV, schema: SchemaV, n: int)
    requires
        scalar_row(row),
        forall|i: int| 0 <= i < row.len() ==> (#[trigger] row[i]).1 is Some && field_type(schema, row[i].0) == Some(
            scalar_type(row[i].1->Some_0),
        ),
        0 <= n <= row.len(),
        encode(row) is Some,
    ensures
        decode_cells(encode(row)->Some_0, schema, column_names(row).take(n)) == row.take(n),
    decreases n,
{
    let body = encode(row)->Some_0;
    let names = column_names(row).take(n);
    if n == 0 {
        assert(decode_cells(body, schema, names) =~= row.take(0));
    } else {
        lemma_decode_prefix(row, schema, n - 1);
        assert(names.drop_last() == column_names(row).take(n - 1));
        assert(names.last() == row[n - 1].0);
        lemma_encode_scalars(row, n - 1);
        assert(row.take(n) =~= row.take(n - 1).push(row[n - 1]));
    }
}

} // verus!
