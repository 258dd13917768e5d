//! The scan engine: one scan from its begin to its end, as a state machine
//! that says which page to fetch and takes each response in turn.

use vstd::prelude::*;
use crate::codec::{cursor_of, has_more_of, page_rows, record_texts, resp_to_rows, Page};
use crate::json::{json_object, strings_view, text_view};
use crate::pushdown::{build_url, request_url, Qual};
use crate::row::{rows_view, Row};
use crate::schema::{kind_of_name, record_key_of, schema_of, ConfigError, ResourceKind};

verus! {

/// The number of records that one request asks for: the most that the
/// upstream API gives at once.
pub const PAGE_SIZE: i64 = 100;

/// The part of the result that the caller wants.
#[derive(Clone, Copy, PartialEq, Eq, Structural, Debug)]
pub struct Limit {
    pub offset: i64,
    pub count: i64,
}

/// Why a scan failed.
#[derive(Clone, Copy, PartialEq, Eq, Structural, Debug)]
pub enum ScanError {
    /// A request failed or was answered with an error status.
    Transport,
    /// A response could not be decoded.
    Decode,
}

/// Where a scan stands.
#[derive(Clone, Copy, PartialEq, Eq, Structural, Debug)]
pub enum Phase {
    /// Another page is to be fetched.
    Fetching,
    /// The rows are complete and are handed out.
    Done,
    /// The scan failed: no row is handed out.
    Failed(ScanError),
}

/// The state of one scan.
#[derive(Clone, Debug, PartialEq, Eq)]
pub struct Scan {
    pub kind: ResourceKind,
    pub base_url: String,
    pub quals: Vec<Qual>,
    pub columns: Vec<String>,
    /// The number of pages that may be fetched.
    pub budget: i64,
    /// The number of pages that were fetched and asked for more.
    pub page: i64,
    pub cursor: Option<String>,
    /// The rows of the pages fetched so far, in order.
    pub rows: Vec<Row>,
    pub phase: Phase,
}

/// The number of pages that hold `records` records.
pub open spec fn pages_for(records: int) -> int {
    if records <= 0 {
        0
    } else {
        (records + PAGE_SIZE - 1) / (PAGE_SIZE as int)
    }
}

/// The number of pages a scan may fetch: those that hold the offset and
/// the count together, none for a count of zero, and without a limit as
/// many as can be counted.
pub open spec fn budget_of(limit: Option<Limit>) -> int {
    match limit {
        None => i64::MAX as int,
        Some(l) => if l.count == 0 {
            0
        } else {
            pages_for(l.offset + l.count)
        },
    }
}

/// Computes the number of pages a scan may fetch.
pub fn page_budget(limit: Option<Limit>) -> (r: i64)
    ensures
        r == budget_of(limit),
{
    match limit {
        None => i64::MAX,
        Some(l) => {
            if l.count == 0 {
                0
            } else {
                let records: i128 = l.offset as i128 + l.count as i128;
                if records <= 0 {
                    0
                } else {
                    let pages: i128 = (records + 99) / 100;
                    pages as i64
                }
            }
        },
    }
}

impl Scan {
    /// A scan that fetches is short of its budget.
    pub open spec fn wf(&self) -> bool {
        self.phase is Fetching ==> 0 <= self.page < self.budget
    }

    /// Whether the state is well formed.
    pub fn is_wf(&self) -> (r: bool)
        ensures
            r == self.wf(),
    {
        match self.phase {
            Phase::Fetching => 0 <= self.page && self.page < self.budget,
            _ => true,
        }
    }

    /// The URL of the next request, where there is one.
    pub open spec fn next_url(&self) -> Option<Seq<char>> {
        request_url(self.base_url@, self.kind, self.quals@, PAGE_SIZE, text_view(self.cursor))
    }

    /// Whether the two states have the same request parameters.
    pub open spec fn same_request(&self, other: &Scan) -> bool {
        &&& self.kind == other.kind
        &&& self.base_url == other.base_url
        &&& self.quals == other.quals
        &&& self.columns == other.columns
        &&& self.budget == other.budget
    }

    /// Begins a scan of the resource named `object`. Without a name, or with
    /// one that the registry does not know, there is no scan. A budget of no
    /// page ends the scan at once, with no rows.
    pub fn begin_scan(object: Option<&str>, base_url: &str, quals: Vec<Qual>, columns: Vec<String>, limit: Option<Limit>) -> (r: Result<Scan, ConfigError>)
        ensures
            object is None ==> r is Err && r->Err_0 == ConfigError::MissingOption,
            object is Some && kind_of_name(object->Some_0@) is None ==> r is Err && r->Err_0
                == ConfigError::UnsupportedResource,
            object is Some && kind_of_name(object->Some_0@) is Some ==> {
                &&& r is Ok
                &&& r->Ok_0.kind == kind_of_name(object->Some_0@)->Some_0
                &&& r->Ok_0.base_url@ == base_url@
                &&& r->Ok_0.quals == quals
                &&& r->Ok_0.columns == columns
                &&& r->Ok_0.budget == budget_of(limit)
                &&& r->Ok_0.page == 0
                &&& r->Ok_0.cursor is None
                &&& r->Ok_0.rows@.len() == 0
                &&& r->Ok_0.phase == if budget_of(limit) > 0 {
                    Phase::Fetching
                } else {
                    Phase::Done
                }
                &&& r->Ok_0.wf()
            },
    {
        let name = match object {
            Some(name) => name,
            None => {
                return Err(ConfigError::MissingOption);
            },
        };
        let kind = match ResourceKind::from_name(name) {
            Ok(kind) => kind,
            Err(e) => {
                return Err(e);
            },
        };
        let budget = page_budget(limit);
        let phase = if budget > 0 {
            Phase::Fetching
        } else {
            Phase::Done
        };
        Ok(
            Scan {
                kind,
                base_url: base_url.to_owned(),
                quals,
                columns,
                budget,
                page: 0,
                cursor: None,
                rows: Vec::new(),
                phase,
            },
        )
    }

    /// The URL to fetch next, or `None` where nothing is to be fetched. A
    /// scan that is to fetch and has no URL to fetch ends with no rows.
    pub fn next_request(&mut self) -> (r: Option<String>)
        requires
            old(self).wf(),
        ensures
            final(self).wf(),
            final(self).same_request(old(self)),
            final(self).page == old(self).page,
            final(self).cursor == old(self).cursor,
            !(old(self).phase is Fetching) ==> r is None && final(self).phase == old(self).phase
                && final(self).rows == old(self).rows,
            old(self).phase is Fetching ==> text_view(r) == old(self).next_url(),
            old(self).phase is Fetching && old(self).next_url() is Some ==> final(self).phase
                is Fetching && final(self).rows == old(self).rows,
            old(self).phase is Fetching && old(self).next_url() is None ==> final(self).phase
                is Done && final(self).rows@.len() == 0,
    {
        match self.phase {
            Phase::Fetching => {
                let url = build_url(self.base_url.as_str(), self.kind, &self.quals, PAGE_SIZE, &self.cursor);
                if url.is_none() {
                    self.phase = Phase::Done;
                    self.rows.clear();
                }
                url
            },
            _ => None,
        }
    }

    /// Takes the body of the response to the last request. A body that
    /// cannot be decoded fails the scan. A page without records ends it.
    /// Else the page's rows join the others at the end, and the scan goes on
    /// from the page's last record if the page says that there is more and
    /// the budget allows another page; if not, it ends.
    pub fn on_response(&mut self, body: &str)
        requires
            old(self).wf(),
        ensures
            final(self).wf(),
            final(self).same_request(old(self)),
            !(old(self).phase is Fetching) ==> *final(self) == *old(self),
            old(self).phase is Fetching ==> match record_texts(body@, record_key_of(old(self).kind)) {
                None => {
                    &&& final(self).phase == Phase::Failed(ScanError::Decode)
                    &&& final(self).rows == old(self).rows
                    &&& final(self).page == old(self).page
                    &&& final(self).cursor == old(self).cursor
                },
                Some(texts) => if texts.len() == 0 {
                    &&& final(self).phase == Phase::Done
                    &&& final(self).rows == old(self).rows
                    &&& final(self).page == old(self).page
                    &&& final(self).cursor == old(self).cursor
                } else {
                    &&& rows_view(final(self).rows@) == rows_view(old(self).rows@) + page_rows(
                        texts,
                        schema_of(old(self).kind),
                        strings_view(old(self).columns@),
                    )
                    &&& if has_more_of(json_object(body@)->Some_0) == Some(true) {
                        &&& text_view(final(self).cursor) == cursor_of(texts)
                        &&& final(self).page == old(self).page + 1
                        &&& final(self).phase == if old(self).page + 1 < old(self).budget {
                            Phase::Fetching
                        } else {
                            Phase::Done
                        }
                    } else {
                        &&& final(self).phase == Phase::Done
                        &&& final(self).page == old(self).page
                        &&& final(self).cursor == old(self).cursor
                    }
                },
            },
    {
        match self.phase {
            Phase::Fetching => {},
            _ => {
                return ;
            },
        }
        match resp_to_rows(self.kind, body, &self.columns) {
            Ok(page) => {
                let ghost before = self.rows@;
                let ghost added = page.rows@;
                self.accept(page);
                proof {
                    assert(rows_view(before + added) =~= rows_view(before) + rows_view(added));
                }
            },
            Err(_) => {
                self.phase = Phase::Failed(ScanError::Decode);
            },
        }
    }

    /// Takes one decoded page. A page without rows ends the scan. Else its
    /// rows join the others at the end, and the scan goes on from the page's
    /// cursor if the page says that there is more and the budget allows
    /// another page; if not, it ends. A scan that is not fetching takes
    /// nothing.
    pub fn accept(&mut self, page: Page)
        requires
            old(self).wf(),
        ensures
            final(self).wf(),
            final(self).same_request(old(self)),
            !(old(self).phase is Fetching) ==> *final(self) == *old(self),
            old(self).phase is Fetching && page.rows@.len() == 0 ==> {
                &&& final(self).phase == Phase::Done
                &&& final(self).rows == old(self).rows
                &&& final(self).page == old(self).page
                &&& final(self).cursor == old(self).cursor
            },
            old(self).phase is Fetching && page.rows@.len() > 0 ==> final(self).rows@ == old(self).rows@
                + page.rows@,
            old(self).phase is Fetching && page.rows@.len() > 0 && page.has_more == Some(true) ==> {
                &&& final(self).cursor == page.cursor
                &&& final(self).page == old(self).page + 1
                &&& final(self).phase == if old(self).page + 1 < old(self).budget {
                    Phase::Fetching
                } else {
                    Phase::Done
                }
            },
            old(self).phase is Fetching && page.rows@.len() > 0 && page.has_more != Some(true) ==> {
                &&& final(self).phase == Phase::Done
                &&& final(self).page == old(self).page
                &&& final(self).cursor == old(self).cursor
            },
    {
        match self.phase {
            Phase::Fetching => {},
            _ => {
                return ;
            },
        }
        let mut page = page;
        if page.rows.len() == 0 {
            self.phase = Phase::Done;
            return ;
        }
        self.rows.append(&mut page.rows);
        match page.has_more {
            Some(true) => {
                self.cursor = page.cursor;
                self.page = self.page + 1;
                if self.page >= self.budget {
                    self.phase = Phase::Done;
                }
            },
            _ => {
                self.phase = Phase::Done;
            },
        }
    }

    /// Takes the failure of the last request: the scan fails. The rows
    /// fetched so far stay where they are, and none is handed out.
    pub fn on_failure(&mut self)
        ensures
            final(self).same_request(old(self)),
            final(self).rows == old(self).rows,
            final(self).page == old(self).page,
            final(self).cursor == old(self).cursor,
            final(self).phase == if old(self).phase is Fetching {
                Phase::Failed(ScanError::Transport)
            } else {
                old(self).phase
            },
            final(self).wf(),
    {
        match self.phase {
            Phase::Fetching => {
                self.phase = Phase::Failed(ScanError::Transport);
            },
            _ => {},
        }
    }

    /// Hands out the first row that was not handed out yet, once the scan
    /// is complete; `None` at the end of the rows, and for a scan that is
    /// not complete or has failed.
    pub fn iter_scan(&mut self) -> (r: Option<Row>)
        ensures
            final(self).same_request(old(self)),
            final(self).phase == old(self).phase,
            final(self).page == old(self).page,
            final(self).cursor == old(self).cursor,
            old(self).phase is Done && old(self).rows@.len() > 0 ==> r == Some(old(self).rows@[0])
                && final(self).rows@ == old(self).rows@.subrange(1, old(self).rows@.len() as int),
            !(old(self).phase is Done && old(self).rows@.len() > 0) ==> r is None && final(self).rows
                == old(self).rows,
    {
        match self.phase {
            Phase::Done => {
                if self.rows.len() > 0 {
                    let ghost before = self.rows@;
                    let row = self.rows.remove(0);
                    proof {
                        assert(self.rows@ =~= before.subrange(1, before.len() as int));
                    }
                    Some(row)
                } else {
                    None
                }
            },
            _ => None,
        }
    }

    /// Ends the scan: what it held is dropped.
    pub fn end_scan(&mut self)
        ensures
            final(self).same_request(old(self)),
            final(self).rows@.len() == 0,
            final(self).cursor is None,
            final(self).page == old(self).page,
            final(self).phase == if old(self).phase is Fetching {
                Phase::Done
            } else {
                old(self).phase
            },
            final(self).wf(),
    {
        self.rows.clear();
        self.cursor = None;
        match self.phase {
            Phase::Fetching => {
                self.phase = Phase::Done;
            },
            _ => {},
        }
    }
}

/// A limit that asks for no record allows no page: the scan begins
/// complete, asks for no request and hands out no row.
pub proof fn lemma_zero_count_no_fetch(limit: Limit)
    requires
        limit.count == 0,
    ensures
        budget_of(Some(limit)) == 0,
{
}

/// The budget is the least number of pages that hold the offset and the
/// count together.
pub proof fn lemma_budget_is_ceiling(limit: Limit)
    requires
        limit.count != 0,
        limit.offset + limit.count > 0,
    ensures
        (budget_of(Some(limit)) - 1) * PAGE_SIZE < limit.offset + limit.count <= budget_of(Some(limit))
            * PAGE_SIZE,
{
}

} // verus!
