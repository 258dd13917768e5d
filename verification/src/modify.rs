//! The mutation dispatcher: one row to create, change or remove becomes one
//! request, and the response confirms the record's identifier.

use vstd::prelude::*;
use vstd::string::*;
use crate::codec::{id_of, record_id, DecodeError};
use crate::encode::{encode, row_to_body};
use crate::json::{json_object, members_view, parse_object, text_view, Member, ObjectV};
use crate::urls::{join_url, url_join};
use crate::row::{Cell, Row};
use crate::schema::{kind_name, kind_of_name, ConfigError, ResourceKind};

verus! {

/// The method of a write request.
#[derive(Clone, Copy, PartialEq, Eq, Structural, Debug)]
pub enum Method {
    Post,
    Delete,
}

/// A write request to send: the body's members go out as a form.
#[derive(Clone, Debug, PartialEq, Eq)]
pub struct Request {
    pub method: Method,
    pub url: String,
    pub body: Option<Vec<Member>>,
}

/// Why a row is not sent.
#[derive(Clone, Copy, PartialEq, Eq, Structural, Debug)]
pub enum WriteError {
    /// A populated cell has a type that the upstream API does not take.
    UnsupportedType,
    /// No URL comes of the base URL, the resource and the identifier.
    InvalidUrl,
}

/// The target of the mutations of one statement.
#[derive(Clone, Debug, PartialEq, Eq)]
pub struct Modify {
    pub kind: ResourceKind,
    pub rowid_column: String,
    pub base_url: String,
}

/// The view of a body that may be absent.
pub open spec fn body_view(body: Option<Vec<Member>>) -> Option<ObjectV> {
    match body {
        Some(ms) => Some(members_view(ms@)),
        None => None,
    }
}

/// The URL of one record: the identifier below the resource's path.
pub open spec fn record_url(base: Seq<char>, kind: ResourceKind, id: Seq<char>) -> Option<Seq<char>> {
    match url_join(base, kind_name(kind) + "/"@) {
        Some(dir) => url_join(dir, id),
        None => None,
    }
}

/// Whether the cell is a string, as the identifier of a record is.
pub open spec fn is_text(cell: Cell) -> bool {
    cell is String
}

/// The text of a string cell.
pub open spec fn text_of(cell: Cell) -> Seq<char> {
    match cell {
        Cell::String(s) => s@,
        _ => Seq::<char>::empty(),
    }
}

impl Modify {
    /// Begins the mutations of the resource named `object`, whose rows are
    /// identified by `rowid_column`. Both are required, and the registry
    /// must know the resource.
    pub fn begin_modify(object: Option<&str>, rowid_column: Option<&str>, base_url: &str) -> (r: Result<Modify, ConfigError>)
        ensures
            object is None || rowid_column is None ==> r is Err && r->Err_0
                == ConfigError::MissingOption,
            object is Some && rowid_column is Some && kind_of_name(object->Some_0@) is None ==> r is Err
                && r->Err_0 == ConfigError::UnsupportedResource,
            object is Some && rowid_column is Some && kind_of_name(object->Some_0@) is Some ==> {
                &&& r is Ok
                &&& r->Ok_0.kind == kind_of_name(object->Some_0@)->Some_0
                &&& r->Ok_0.rowid_column@ == rowid_column->Some_0@
                &&& r->Ok_0.base_url@ == base_url@
            },
    {
        match (object, rowid_column) {
            (Some(name), Some(column)) => match ResourceKind::from_name(name) {
                Ok(kind) => Ok(
                    Modify { kind, rowid_column: column.to_owned(), base_url: base_url.to_owned() },
                ),
                Err(e) => Err(e),
            },
            _ => Err(ConfigError::MissingOption),
        }
    }

    fn record_address(&self, id: &str) -> (r: Option<String>)
        ensures
            text_view(r) == record_url(self.base_url@, self.kind, id@),
    {
        let mut path = self.kind.name();
        path.append("/");
        match join_url(self.base_url.as_str(), path.as_str()) {
            Some(dir) => join_url(dir.as_str(), id),
            None => None,
        }
    }

    /// The request that creates `row`: its body goes to the resource's
    /// collection. A row that cannot be encoded is not sent.
    pub fn insert(&self, row: &Row) -> (r: Result<Request, WriteError>)
        ensures
            match (url_join(self.base_url@, kind_name(self.kind)), encode(row@)) {
                (None, _) => r is Err && r->Err_0 == WriteError::InvalidUrl,
                (Some(_), None) => r is Err && r->Err_0 == WriteError::UnsupportedType,
                (Some(url), Some(body)) => {
                    &&& r is Ok
                    &&& r->Ok_0.method == Method::Post
                    &&& r->Ok_0.url@ == url
                    &&& body_view(r->Ok_0.body) == Some(body)
                },
            },
    {
        let name = self.kind.name();
        let url = match join_url(self.base_url.as_str(), name.as_str()) {
            Some(url) => url,
            None => {
                return Err(WriteError::InvalidUrl);
            },
        };
        match row_to_body(row) {
            Ok(body) => Ok(Request { method: Method::Post, url, body: Some(body) }),
            Err(_) => Err(WriteError::UnsupportedType),
        }
    }

    /// The request that changes the record `rowid` to `row`: its body goes
    /// to the record's own URL. A row that cannot be encoded is not sent.
    pub fn update(&self, rowid: &Cell, row: &Row) -> (r: Result<Request, WriteError>)
        requires
            is_text(*rowid),
        ensures
            match (record_url(self.base_url@, self.kind, text_of(*rowid)), encode(row@)) {
                (None, _) => r is Err && r->Err_0 == WriteError::InvalidUrl,
                (Some(_), None) => r is Err && r->Err_0 == WriteError::UnsupportedType,
                (Some(url), Some(body)) => {
                    &&& r is Ok
                    &&& r->Ok_0.method == Method::Post
                    &&& r->Ok_0.url@ == url
                    &&& body_view(r->Ok_0.body) == Some(body)
                },
            },
    {
        let address = match rowid {
            Cell::String(id) => self.record_address(id.as_str()),
            _ => None,
        };
        let url = match address {
            Some(url) => url,
            None => {
                return Err(WriteError::InvalidUrl);
            },
        };
        match row_to_body(row) {
            Ok(body) => Ok(Request { method: Method::Post, url, body: Some(body) }),
            Err(_) => Err(WriteError::UnsupportedType),
        }
    }

    /// The request that removes the record `rowid`.
    pub fn delete(&self, rowid: &Cell) -> (r: Result<Request, WriteError>)
        requires
            is_text(*rowid),
        ensures
            match record_url(self.base_url@, self.kind, text_of(*rowid)) {
                None => r is Err && r->Err_0 == WriteError::InvalidUrl,
                Some(url) => {
                    &&& r is Ok
                    &&& r->Ok_0.method == Method::Delete
                    &&& r->Ok_0.url@ == url
                    &&& r->Ok_0.body is None
                },
            },
    {
        let address = match rowid {
            Cell::String(id) => self.record_address(id.as_str()),
            _ => None,
        };
        match address {
            Some(url) => Ok(Request { method: Method::Delete, url, body: None }),
            None => Err(WriteError::InvalidUrl),
        }
    }
}

/// Reads the identifier that a response to a write confirms: the `id` of
/// the object in the body, where it has one that is a string. A body that
/// is no JSON object is refused.
pub fn confirm(body: &str) -> (r: Result<Option<String>, DecodeError>)
    ensures
        match json_object(body@) {
            None => r is Err && r->Err_0 == DecodeError::Malformed,
            Some(record) => r is Ok && text_view(r->Ok_0) == id_of(record),
        },
{
    match parse_object(body) {
        Some(record) => Ok(record_id(&record)),
        None => Err(DecodeError::Malformed),
    }
}

} // verus!
