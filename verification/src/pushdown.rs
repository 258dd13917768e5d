//! The pushdown translator: equality filters become query parameters of the
//! request, and a filter on the identifier becomes a request for one record.

use vstd::prelude::*;
use vstd::string::*;
use crate::json::{has_text, same_text, strings_view, text_view};
use crate::row::Cell;
use crate::urls::{
    append_pair, decimal, decimal_text, join_url, parse_url, url_join, url_parse, url_with_pair,
};
use crate::schema::{
    direct_lookup_of, envelope_of, kind_name, pushdown_fields_of, Envelope, ResourceKind,
};

verus! {

/// The right-hand side of a filter.
#[derive(Clone, Debug, PartialEq, Eq)]
pub enum Value {
    Cell(Cell),
    Array(Vec<Cell>),
}

/// One comparison of a field with a value.
#[derive(Clone, Debug, PartialEq, Eq)]
pub struct Qual {
    pub field: String,
    pub operator: String,
    pub value: Value,
    /// Whether the comparison is one branch of a disjunction.
    pub use_or: bool,
}

/// One parameter of a query.
#[derive(Clone, Debug, PartialEq, Eq)]
pub struct Pair {
    pub name: String,
    pub value: String,
}

impl View for Pair {
    type V = (Seq<char>, Seq<char>);

    open spec fn view(&self) -> (Seq<char>, Seq<char>) {
        (self.name@, self.value@)
    }
}

/// Parameters as names and values.
pub type PairsV = Seq<(Seq<char>, Seq<char>)>;

/// The view of a list of parameters.
pub open spec fn pairs_view(pairs: Seq<Pair>) -> PairsV {
    pairs.map_values(|p: Pair| p@)
}

/// The text under which a filter's value is sent: a boolean as `true` or
/// `false`, a string as it is; other values are not sent.
pub open spec fn pushed_text(qual: Qual) -> Option<Seq<char>> {
    match qual.value {
        Value::Cell(Cell::Bool(b)) => Some(if b { "true"@ } else { "false"@ }),
        Value::Cell(Cell::String(s)) => Some(s@),
        _ => None,
    }
}

/// Whether a filter is sent upstream: an equality outside any disjunction,
/// on one of `fields`, with a boolean or a string.
pub open spec fn eligible(qual: Qual, fields: Seq<Seq<char>>) -> bool {
    &&& fields.contains(qual.field@)
    &&& qual.operator@ == "="@
    &&& !qual.use_or
    &&& pushed_text(qual) is Some
}

/// The parameters that the filters add: one pair for each eligible filter,
/// in order, and none for the others.
pub open spec fn pairs_of(quals: Seq<Qual>, fields: Seq<Seq<char>>) -> PairsV
    decreases quals.len(),
{
    if quals.len() == 0 {
        seq![]
    } else {
        let front = pairs_of(quals.drop_last(), fields);
        let qual = quals.last();
        if eligible(qual, fields) {
            front.push((qual.field@, pushed_text(qual)->Some_0))
        } else {
            front
        }
    }
}

/// The URL with each pair added to its query, in order.
pub open spec fn with_pairs(url: Option<Seq<char>>, pairs: PairsV) -> Option<Seq<char>>
    decreases pairs.len(),
{
    if pairs.len() == 0 {
        url
    } else {
        match with_pairs(url, pairs.drop_last()) {
            Some(u) => url_with_pair(u, pairs.last().0, pairs.last().1),
            None => None,
        }
    }
}

/// The URL after the filters: the eligible ones add their pairs.
pub open spec fn pushdown(url: Option<Seq<char>>, quals: Seq<Qual>, fields: Seq<Seq<char>>) -> Option<Seq<char>> {
    with_pairs(url, pairs_of(quals, fields))
}

/// The URL of the one record that the filters ask for: there is exactly one
/// filter, an equality of `id` with a string, outside any disjunction.
pub open spec fn single_id(url: Seq<char>, quals: Seq<Qual>) -> Option<Seq<char>> {
    if quals.len() == 1 && quals[0].field@ == "id"@ && quals[0].operator@ == "="@ && !quals[0].use_or {
        match quals[0].value {
            Value::Cell(Cell::String(s)) => url_parse(url + "/"@ + s@),
            _ => None,
        }
    } else {
        None
    }
}

/// The URL of a request without its pagination: the direct URL of one
/// record where the kind offers it and the filters ask for one, else the
/// collection's URL with the eligible filters.
pub open spec fn filtered_url(url: Seq<char>, kind: ResourceKind, quals: Seq<Qual>) -> (Option<Seq<char>>, bool) {
    if direct_lookup_of(kind) && single_id(url, quals) is Some {
        (single_id(url, quals), true)
    } else {
        (pushdown(Some(url), quals, pushdown_fields_of(kind)), false)
    }
}

/// A URL with the parameters of a page: its size, and the cursor where
/// there is one.
pub open spec fn paginated(url: Option<Seq<char>>, page_size: i64, cursor: Option<Seq<char>>) -> Option<Seq<char>> {
    match url {
        None => None,
        Some(u) => match url_with_pair(u, "limit"@, decimal_text(page_size)) {
            None => None,
            Some(sized) => match cursor {
                Some(c) => url_with_pair(sized, "starting_after"@, c),
                None => Some(sized),
            },
        },
    }
}

/// The URL of a request for one page of `kind`: the direct URL of a record
/// and the URL of a singleton carry no pagination; `None` where no URL comes
/// of the parts.
pub open spec fn request_url(base: Seq<char>, kind: ResourceKind, quals: Seq<Qual>, page_size: i64, cursor: Option<Seq<char>>) -> Option<Seq<char>> {
    match url_join(base, kind_name(kind)) {
        None => None,
        Some(url) => {
            let (filtered, direct) = filtered_url(url, kind, quals);
            if direct || envelope_of(kind) == Envelope::Object {
                filtered
            } else {
                paginated(filtered, page_size, cursor)
            }
        },
    }
}

/// The value of a filter as it is sent, where it is sent.
pub fn qual_text(qual: &Qual) -> (r: Option<String>)
    ensures
        text_view(r) == pushed_text(*qual),
{
    match &qual.value {
        Value::Cell(Cell::Bool(b)) => if *b {
            Some("true".to_owned())
        } else {
            Some("false".to_owned())
        },
        Value::Cell(Cell::String(s)) => Some(s.clone()),
        _ => None,
    }
}

/// Whether a filter is sent upstream.
pub fn is_eligible(qual: &Qual, fields: &Vec<String>) -> (r: bool)
    ensures
        r == eligible(*qual, strings_view(fields@)),
{
    has_text(fields, qual.field.as_str()) && same_text(qual.operator.as_str(), "=") && !qual.use_or
        && qual_text(qual).is_some()
}

/// The parameters that the filters add to a request.
pub fn pushed_pairs(quals: &Vec<Qual>, fields: &Vec<String>) -> (r: Vec<Pair>)
    ensures
        pairs_view(r@) == pairs_of(quals@, strings_view(fields@)),
{
    let mut pairs: Vec<Pair> = Vec::new();
    let mut i: usize = 0;
    proof {
        assert(quals@.take(0) =~= Seq::<Qual>::empty());
        assert(pairs_view(pairs@) =~= Seq::<(Seq<char>, Seq<char>)>::empty());
    }
    while i < quals.len()
        invariant
            i <= quals.len(),
            pairs_view(pairs@) == pairs_of(quals@.take(i as int), strings_view(fields@)),
        decreases quals.len() - i,
    {
        proof {
            assert(quals@.take(i + 1).drop_last() == quals@.take(i as int));
        }
        let qual = &quals[i];
        if is_eligible(qual, fields) {
            match qual_text(qual) {
                Some(value) => {
                    let ghost before = pairs_view(pairs@);
                    pairs.push(Pair { name: qual.field.clone(), value });
                    proof {
                        assert(pairs_view(pairs@) =~= before.push((qual.field@, value@)));
                    }
                },
                None => {},
            }
        }
        i += 1;
    }
    proof {
        assert(quals@.take(quals.len() as int) == quals@);
    }
    pairs
}

/// Adds each pair to the query of `url`, in order.
pub fn append_pairs(url: String, pairs: &Vec<Pair>) -> (r: Option<String>)
    ensures
        text_view(r) == with_pairs(Some(url@), pairs_view(pairs@)),
{
    let ghost start = url@;
    let ghost pv = pairs_view(pairs@);
    let mut current: Option<String> = Some(url);
    let mut i: usize = 0;
    proof {
        assert(pv.take(0) =~= Seq::<(Seq<char>, Seq<char>)>::empty());
    }
    while i < pairs.len()
        invariant
            i <= pairs.len(),
            pv == pairs_view(pairs@),
            text_view(current) == with_pairs(Some(start), pv.take(i as int)),
        decreases pairs.len() - i,
    {
        proof {
            assert(pv.take(i + 1).drop_last() == pv.take(i as int));
            assert(pv.take(i + 1).last() == pairs@[i as int]@);
        }
        current = match current {
            Some(u) => append_pair(u.as_str(), pairs[i].name.as_str(), pairs[i].value.as_str()),
            None => None,
        };
        i += 1;
    }
    proof {
        assert(pv.take(pairs.len() as int) == pv);
    }
    current
}

/// Adds the eligible filters to the query of `url`.
pub fn pushdown_quals(url: String, quals: &Vec<Qual>, fields: &Vec<String>) -> (r: Option<String>)
    ensures
        text_view(r) == pushdown(Some(url@), quals@, strings_view(fields@)),
{
    let pairs = pushed_pairs(quals, fields);
    append_pairs(url, &pairs)
}

/// The direct URL of the one record that the filters ask for, if they do.
pub fn pushdown_single_id(url: &str, quals: &Vec<Qual>) -> (r: Option<String>)
    ensures
        text_view(r) == single_id(url@, quals@),
{
    if quals.len() != 1 {
        return None;
    }
    let qual = &quals[0];
    if same_text(qual.field.as_str(), "id") && same_text(qual.operator.as_str(), "=") && !qual.use_or {
        match &qual.value {
            Value::Cell(Cell::String(s)) => {
                let mut text = url.to_owned();
                text.append("/");
                text.append(s.as_str());
                parse_url(text.as_str())
            },
            _ => None,
        }
    } else {
        None
    }
}

/// Builds the URL of the request for one page of `kind`.
pub fn build_url(base_url: &str, kind: ResourceKind, quals: &Vec<Qual>, page_size: i64, cursor: &Option<String>) -> (r: Option<String>)
    ensures
        text_view(r) == request_url(base_url@, kind, quals@, page_size, text_view(*cursor)),
{
    let name = kind.name();
    let url = match join_url(base_url, name.as_str()) {
        Some(url) => url,
        None => {
            return None;
        },
    };
    if kind.direct_lookup() {
        let direct = pushdown_single_id(url.as_str(), quals);
        if direct.is_some() {
            return direct;
        }
    }
    let fields = kind.pushdown_fields();
    let filtered = pushdown_quals(url, quals, &fields);
    if kind.envelope() == Envelope::Object {
        return filtered;
    }
    let sized = match filtered {
        Some(u) => {
            let size = decimal(page_size);
            append_pair(u.as_str(), "limit", size.as_str())
        },
        None => None,
    };
    match sized {
        Some(u) => match cursor {
            Some(c) => append_pair(u.as_str(), "starting_after", c.as_str()),
            None => Some(u),
        },
        None => None,
    }
}

/// Filters that are not sent change nothing: the parameters are those that
/// the eligible filters alone give, so no parameter of an eligible filter
/// is lost to the others, and the URL is the same.
pub proof fn lemma_dropped_filters_change_nothing(url: Option<Seq<char>>, quals: Seq<Qual>, fields: Seq<Seq<char>>)
    ensures
        pairs_of(quals, fields) == pairs_of(quals.filter(|q: Qual| eligible(q, fields)), fields),
        pushdown(url, quals, fields) == pushdown(url, quals.filter(|q: Qual| eligible(q, fields)), fields),
    decreases quals.len(),
{
    reveal(Seq::filter);
    let keep = |q: Qual| eligible(q, fields);
    if quals.len() > 0 {
        let front = quals.drop_last();
        lemma_dropped_filters_change_nothing(url, front, fields);
        if eligible(quals.last(), fields) {
            let kept = front.filter(keep).push(quals.last());
            assert(kept.drop_last() == front.filter(keep));
            assert(kept.last() == quals.last());
        }
    }
}

/// One filter that is not sent, at any place among the others, changes
/// nothing of the parameters nor of the URL.
pub proof fn lemma_dropped_filter_changes_nothing(url: Option<Seq<char>>, quals: Seq<Qual>, fields: Seq<Seq<char>>, i: int)
    requires
        0 <= i < quals.len(),
        !eligible(quals[i], fields),
    ensures
        pairs_of(quals, fields) == pairs_of(quals.remove(i), fields),
        pushdown(url, quals, fields) == pushdown(url, quals.remove(i), fields),
    decreases quals.len(),
{
    let front = quals.drop_last();
    if i == quals.len() - 1 {
        assert(quals.remove(i) == front);
    } else {
        lemma_dropped_filter_changes_nothing(url, front, fields, i);
        let rest = quals.remove(i);
        assert(rest.drop_last() == front.remove(i));
        assert(rest.last() == quals.last());
    }
}

/// Every eligible filter has its parameter among those that the filters
/// add, whatever other filters stand beside it.
pub proof fn lemma_eligible_filter_keeps_its_pair(quals: Seq<Qual>, fields: Seq<Seq<char>>, i: int)
    requires
        0 <= i < quals.len(),
        eligible(quals[i], fields),
    ensures
        pairs_of(quals, fields).contains((quals[i].field@, pushed_text(quals[i])->Some_0)),
    decreases quals.len(),
{
    let front = quals.drop_last();
    let pair = (quals[i].field@, pushed_text(quals[i])->Some_0);
    if i == quals.len() - 1 {
        let all = pairs_of(quals, fields);
        assert(all[all.len() - 1] == pair);
    } else {
        assert(front[i] == quals[i]);
        lemma_eligible_filter_keeps_its_pair(front, fields, i);
        let k = choose|k: int| 0 <= k < pairs_of(front, fields).len() && pairs_of(front, fields)[k] == pair;
        assert(pairs_of(quals, fields)[k] == pair);
    }
}

/// Every parameter that the filters add comes of an eligible filter.
pub proof fn lemma_pairs_come_of_eligible_filters(quals: Seq<Qual>, fields: Seq<Seq<char>>, k: int)
    requires
        0 <= k < pairs_of(quals, fields).len(),
    ensures
        exists|i: int| 0 <= i < quals.len() && eligible(#[trigger] quals[i], fields) && pairs_of(quals, fields)[k]
            == (quals[i].field@, pushed_text(quals[i])->Some_0),
    decreases quals.len(),
{
    let front = quals.drop_last();
    if k < pairs_of(front, fields).len() {
        lemma_pairs_come_of_eligible_filters(front, fields, k);
        let i = choose|i: int| 0 <= i < front.len() && eligible(#[trigger] front[i], fields) && pairs_of(front, fields)[k]
            == (front[i].field@, pushed_text(front[i])->Some_0);
        assert(quals[i] == front[i]);
    } else {
        assert(quals[quals.len() - 1] == quals.last());
    }
}

/// For a kind that offers the lookup, one equality of `id` with a string
/// gives the URL of that record, without filters and without pagination.
pub proof fn lemma_single_id_direct(base: Seq<char>, kind: ResourceKind, quals: Seq<Qual>, page_size: i64, cursor: Option<Seq<char>>)
    requires
        direct_lookup_of(kind),
        url_join(base, kind_name(kind)) is Some,
        single_id(url_join(base, kind_name(kind))->Some_0, quals) is Some,
    ensures
        request_url(base, kind, quals, page_size, cursor) == single_id(url_join(base, kind_name(kind))->Some_0, quals),
{
}

} // verus!
