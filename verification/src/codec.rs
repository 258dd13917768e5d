//! The decoding half of the row codec: response bodies to rows.

use vstd::prelude::*;
use crate::json::{
    get, has_text, json_array, json_object, lookup, members_view, parse_array, parse_object, same_text,
    strings_view, text_view, Field, FieldV, Member, ObjectV,
};
use crate::row::{cell_view, rows_view, Cell, CellV, Row, RowV};
use crate::schema::{
    field_type, find_field, record_key_of, schema_of, schema_view, ColumnType, FieldDef,
    ResourceKind, SchemaV,
};

verus! {

/// A response body that cannot be decoded.
#[derive(Clone, Copy, PartialEq, Eq, Structural, Debug)]
pub enum DecodeError {
    /// The body is not a JSON object, or a list without its array of records.
    Malformed,
}

/// One decoded page.
#[derive(Clone, Debug, PartialEq, Eq)]
pub struct Page {
    pub rows: Vec<Row>,
    /// The identifier of the last record, from which the next page starts.
    pub cursor: Option<String>,
    /// Whether the upstream API has more records; `None` where it does not say.
    pub has_more: Option<bool>,
}

/// The seconds since the Unix epoch that denote a date of the years -9999 to 9999.
pub open spec fn timestamp_valid(secs: i64) -> bool {
    -377705116800 <= secs <= 253402300799
}

/// Asks `time::OffsetDateTime::from_unix_timestamp` whether it takes `secs`.
/// Not proved: that it takes exactly the seconds from the first of the year
/// -9999 to the last of the year 9999.
#[verifier::external_body]
fn timestamp_in_range(secs: i64) -> (r: bool)
    ensures
        r == timestamp_valid(secs),
{
    time::OffsetDateTime::from_unix_timestamp(secs).is_ok()
}

/// The cell that a JSON value gives in a column of type `ty`: empty where
/// the value is absent or of another type.
pub open spec fn coerce(value: Option<FieldV>, ty: ColumnType) -> Option<CellV> {
    match (value, ty) {
        (Some(FieldV::Bool(b)), ColumnType::Bool) => Some(CellV::Bool(b)),
        (Some(FieldV::Number(Some(i), _)), ColumnType::I64) => Some(CellV::I64(i)),
        (Some(FieldV::Str(s)), ColumnType::Text) => Some(CellV::String(s)),
        (Some(FieldV::Number(Some(i), _)), ColumnType::Timestamp) => if timestamp_valid(i) {
            Some(CellV::Timestamp(i))
        } else {
            None
        },
        _ => None,
    }
}

/// Coerces a JSON value to a cell of type `ty`.
pub fn coerce_field(value: &Field, ty: ColumnType) -> (r: Option<Cell>)
    ensures
        cell_view(r) == coerce(Some(value@), ty),
{
    match ty {
        ColumnType::Bool => match value {
            Field::Bool(b) => Some(Cell::Bool(*b)),
            _ => None,
        },
        ColumnType::I64 => match value {
            Field::Number(Some(i), _) => Some(Cell::I64(*i)),
            _ => None,
        },
        ColumnType::Text => match value {
            Field::Str(s) => Some(Cell::String(s.clone())),
            _ => None,
        },
        ColumnType::Timestamp => match value {
            Field::Number(Some(i), _) => if timestamp_in_range(*i) {
                Some(Cell::Timestamp(*i))
            } else {
                None
            },
            _ => None,
        },
    }
}

/// The typed cells of a record: one for each requested column that the
/// schema knows, in the order of the request.
pub open spec fn decode_cells(record: ObjectV, schema: SchemaV, cols: Seq<Seq<char>>) -> RowV
    decreases cols.len(),
{
    if cols.len() == 0 {
        seq![]
    } else {
        let front = decode_cells(record, schema, cols.drop_last());
        match field_type(schema, cols.last()) {
            Some(ty) => front.push((cols.last(), coerce(lookup(record, cols.last()), ty))),
            None => front,
        }
    }
}

/// The row of a record: its typed cells, then the whole record as text
/// under `attrs` where that column is requested.
pub open spec fn row_of(record: ObjectV, raw: Seq<char>, schema: SchemaV, cols: Seq<Seq<char>>) -> RowV {
    let cells = decode_cells(record, schema, cols);
    if cols.contains("attrs"@) {
        cells.push(("attrs"@, Some(CellV::Json(raw))))
    } else {
        cells
    }
}

/// Decodes one record, given as its members and its text, into a row that
/// holds only requested columns.
pub fn decode_row(record: &Vec<Member>, raw: &str, schema: &Vec<FieldDef>, cols: &Vec<String>) -> (r: Row)
    ensures
        r@ == row_of(members_view(record@), raw@, schema_view(schema@), strings_view(cols@)),
{
    let ghost rec = members_view(record@);
    let ghost sch = schema_view(schema@);
    let ghost names = strings_view(cols@);
    let mut row = Row::new();
    let mut i: usize = 0;
    while i < cols.len()
        invariant
            i <= cols.len(),
            rec == members_view(record@),
            sch == schema_view(schema@),
            names == strings_view(cols@),
            row@ == decode_cells(rec, sch, names.take(i as int)),
        decreases cols.len() - i,
    {
        proof {
            let next = names.take(i + 1);
            assert(next.drop_last() == names.take(i as int));
            assert(next.last() == cols@[i as int]@);
        }
        let name = cols[i].as_str();
        match find_field(schema, name) {
            Some(ty) => {
                let cell = match get(record, name) {
                    Some(value) => coerce_field(value, ty),
                    None => None,
                };
                row.push(name, cell);
            },
            None => {},
        }
        i += 1;
    }
    proof {
        assert(names.take(cols.len() as int) == names);
    }
    if has_text(cols, "attrs") {
        row.push("attrs", Some(Cell::Json(raw.to_owned())));
    }
    row
}

/// Whether the object is a list envelope.
pub open spec fn is_list(top: ObjectV) -> bool {
    lookup(top, "object"@) == Some(FieldV::Str("list"@))
}

/// Whether the object is marked as a list.
pub fn is_list_envelope(top: &Vec<Member>) -> (r: bool)
    ensures
        r == is_list(members_view(top@)),
{
    match get(top, "object") {
        Some(Field::Str(s)) => same_text(s.as_str(), "list"),
        _ => false,
    }
}

/// What the envelope says of further records.
pub open spec fn has_more_of(top: ObjectV) -> Option<bool> {
    match lookup(top, "has_more"@) {
        Some(FieldV::Bool(b)) => Some(b),
        _ => None,
    }
}

/// Reads the continuation flag of an envelope.
pub fn has_more_flag(top: &Vec<Member>) -> (r: Option<bool>)
    ensures
        r == has_more_of(members_view(top@)),
{
    match get(top, "has_more") {
        Some(Field::Bool(b)) => Some(*b),
        _ => None,
    }
}

/// The identifier of a record: its `id`, where that is a string.
pub open spec fn id_of(record: ObjectV) -> Option<Seq<char>> {
    match lookup(record, "id"@) {
        Some(FieldV::Str(s)) => Some(s),
        _ => None,
    }
}

/// Reads the identifier of a record.
pub fn record_id(record: &Vec<Member>) -> (r: Option<String>)
    ensures
        text_view(r) == id_of(members_view(record@)),
{
    match get(record, "id") {
        Some(Field::Str(s)) => Some(s.clone()),
        _ => None,
    }
}

/// The members of the object that `text` denotes, none where it denotes no object.
pub open spec fn members_of(text: Seq<char>) -> ObjectV {
    match json_object(text) {
        Some(ms) => ms,
        None => seq![],
    }
}

/// The texts of the records of a response: the elements of the array under
/// `key` for a list, the body itself for a bare object; `None` where the
/// body cannot be decoded.
pub open spec fn record_texts(body: Seq<char>, key: Seq<char>) -> Option<Seq<Seq<char>>> {
    match json_object(body) {
        None => None,
        Some(top) => if is_list(top) {
            match lookup(top, key) {
                Some(FieldV::Nested(t)) => json_array(t),
                _ => None,
            }
        } else {
            Some(seq![body])
        },
    }
}

/// The rows of a sequence of record texts.
pub open spec fn page_rows(texts: Seq<Seq<char>>, schema: SchemaV, cols: Seq<Seq<char>>) -> Seq<RowV> {
    Seq::new(texts.len(), |i: int| row_of(members_of(texts[i]), texts[i], schema, cols))
}

/// The cursor after a page: the identifier of its last record.
pub open spec fn cursor_of(texts: Seq<Seq<char>>) -> Option<Seq<char>> {
    if texts.len() == 0 {
        None
    } else {
        id_of(members_of(texts.last()))
    }
}

/// Decodes a response body: one row for each record, the cursor and the
/// continuation flag.
pub fn body_to_rows(body: &str, obj_key: &str, schema: &Vec<FieldDef>, cols: &Vec<String>) -> (r: Result<Page, DecodeError>)
    ensures
        r is Err <==> record_texts(body@, obj_key@) is None,
        r matches Ok(page) ==> {
            let texts = record_texts(body@, obj_key@)->Some_0;
            &&& page.rows@.len() == texts.len()
            &&& rows_view(page.rows@) == page_rows(texts, schema_view(schema@), strings_view(cols@))
            &&& text_view(page.cursor) == cursor_of(texts)
            &&& page.has_more == has_more_of(json_object(body@)->Some_0)
        },
{
    let top = match parse_object(body) {
        Some(top) => top,
        None => {
            return Err(DecodeError::Malformed);
        },
    };
    let texts: Vec<String> = if is_list_envelope(&top) {
        match get(&top, obj_key) {
            Some(Field::Nested(t)) => match parse_array(t.as_str()) {
                Some(texts) => texts,
                None => {
                    return Err(DecodeError::Malformed);
                },
            },
            _ => {
                return Err(DecodeError::Malformed);
            },
        }
    } else {
        let single = vec![body.to_owned()];
        proof {
            assert(strings_view(single@) =~= seq![body@]);
        }
        single
    };
    let ghost tv = strings_view(texts@);
    let ghost sch = schema_view(schema@);
    let ghost names = strings_view(cols@);
    assert(record_texts(body@, obj_key@) == Some(tv));
    let mut rows: Vec<Row> = Vec::new();
    let mut cursor: Option<String> = None;
    let mut i: usize = 0;
    while i < texts.len()
        invariant
            i <= texts.len(),
            tv == strings_view(texts@),
            sch == schema_view(schema@),
            names == strings_view(cols@),
            rows@.len() == i,
            forall|k: int| 0 <= k < i ==> (#[trigger] rows@[k])@ == row_of(members_of(tv[k]), tv[k], sch, names),
            text_view(cursor) == cursor_of(tv.take(i as int)),
        decreases texts.len() - i,
    {
        let text = texts[i].as_str();
        let record = match parse_object(text) {
            Some(ms) => ms,
            None => Vec::new(),
        };
        proof {
            assert(members_view(record@) =~= members_of(tv[i as int]));
            assert(tv.take(i + 1).last() == tv[i as int]);
        }
        cursor = record_id(&record);
        let row = decode_row(&record, text, schema, cols);
        rows.push(row);
        i += 1;
    }
    proof {
        assert(tv.take(texts.len() as int) == tv);
        assert(rows_view(rows@) =~= page_rows(tv, sch, names));
    }
    Ok(Page { rows, cursor, has_more: has_more_flag(&top) })
}

/// A body that is a JSON object and no list is one record: itself.
pub proof fn lemma_bare_object_one_record(body: Seq<char>, key: Seq<char>, schema: SchemaV, cols: Seq<Seq<char>>)
    requires
        json_object(body) is Some,
        !is_list(json_object(body)->Some_0),
    ensures
        record_texts(body, key) == Some(seq![body]),
        page_rows(seq![body], schema, cols).len() == 1,
        page_rows(seq![body], schema, cols)[0] == row_of(json_object(body)->Some_0, body, schema, cols),
{
}

/// Every column of a decoded row was requested.
pub proof fn lemma_row_columns_requested(record: ObjectV, raw: Seq<char>, schema: SchemaV, cols: Seq<Seq<char>>, i: int)
    requires
        0 <= i < row_of(record, raw, schema, cols).len(),
    ensures
        cols.contains(row_of(record, raw, schema, cols)[i].0),
{
    lemma_cells_requested(record, schema, cols);
}

/// A page has one row for each record, and every column of every row was
/// requested.
pub proof fn lemma_page_holds_requested_columns(texts: Seq<Seq<char>>, schema: SchemaV, cols: Seq<Seq<char>>)
    ensures
        page_rows(texts, schema, cols).len() == texts.len(),
        forall|k: int, i: int|
            0 <= k < texts.len() && 0 <= i < page_rows(texts, schema, cols)[k].len() ==> cols.contains(
                (#[trigger] page_rows(texts, schema, cols)[k][i]).0,
            ),
{
    assert forall|k: int, i: int|
        0 <= k < texts.len() && 0 <= i < page_rows(texts, schema, cols)[k].len() implies cols.contains(
        (#[trigger] page_rows(texts, schema, cols)[k][i]).0,
    ) by {
        lemma_row_columns_requested(members_of(texts[k]), texts[k], schema, cols, i);
    }
}

/// Every typed cell of a record stands under a requested column.
pub proof fn lemma_cells_requested(record: ObjectV, schema: SchemaV, cols: Seq<Seq<char>>)
    ensures
        forall|i: int| 0 <= i < decode_cells(record, schema, cols).len() ==> cols.contains(
            (#[trigger] decode_cells(record, schema, cols)[i]).0,
        ),
    decreases cols.len(),
{
    if cols.len() > 0 {
        let front = cols.drop_last();
        lemma_cells_requested(record, schema, front);
        assert forall|i: int| 0 <= i < decode_cells(record, schema, cols).len() implies cols.contains(
            (#[trigger] decode_cells(record, schema, cols)[i]).0,
        ) by {
            if i < decode_cells(record, schema, front).len() {
                let name = decode_cells(record, schema, front)[i].0;
                assert(front.contains(name));
                let k = choose|k: int| 0 <= k < front.len() && front[k] == name;
                assert(cols[k] == name);
            } else {
                assert(cols[cols.len() - 1] == cols.last());
            }
        }
    }
}

/// Decodes a response body of the given kind.
pub fn resp_to_rows(kind: ResourceKind, body: &str, cols: &Vec<String>) -> (r: Result<Page, DecodeError>)
    ensures
        r is Err <==> record_texts(body@, record_key_of(kind)) is None,
        r matches Ok(page) ==> {
            let texts = record_texts(body@, record_key_of(kind))->Some_0;
            &&& page.rows@.len() == texts.len()
            &&& rows_view(page.rows@) == page_rows(texts, schema_of(kind), strings_view(cols@))
            &&& text_view(page.cursor) == cursor_of(texts)
            &&& page.has_more == has_more_of(json_object(body@)->Some_0)
        },
{
    let key = kind.record_key();
    let schema = kind.schema();
    body_to_rows(body, key.as_str(), &schema, cols)
}

} // verus!
