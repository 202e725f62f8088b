//! The query builder: an immutable, chainable description of a search
//! request that lowers to an ordered list of URL parameters.

use vstd::prelude::*;
use crate::text::{decimal, join, join_strings, u64_to_decimal, views};

verus! {

/// Offset used when none is set; it is left out of the parameters.
pub const DEFAULT_START: u64 = 0;

/// Page size used when none is set; it is left out of the parameters.
pub const DEFAULT_ROWS: u32 = 10;

/// A value that renders as a URL parameter value.
pub trait ToUrlParam {
    /// The text that `to_url_param` returns.
    spec fn url_param(&self) -> Seq<char>;

    fn to_url_param(&self) -> (r: String)
        ensures
            r@ == self.url_param(),
    ;
}

/// Sort direction of a field.
#[derive(Clone, Copy, PartialEq, Eq, Structural, Debug)]
pub enum SortOrder {
    Ascending,
    Descending,
}

impl ToUrlParam for SortOrder {
    open spec fn url_param(&self) -> Seq<char> {
        match *self {
            SortOrder::Ascending => "asc"@,
            SortOrder::Descending => "desc"@,
        }
    }

    fn to_url_param(&self) -> (r: String) {
        match *self {
            SortOrder::Ascending => String::from_str("asc"),
            SortOrder::Descending => String::from_str("desc"),
        }
    }
}

/// A field together with its sort direction.
#[derive(Clone, Debug)]
pub struct SortClause {
    pub field: String,
    pub order: SortOrder,
}

impl View for SortClause {
    type V = (Seq<char>, SortOrder);

    open spec fn view(&self) -> (Seq<char>, SortOrder) {
        (self.field@, self.order)
    }
}

/// A sort clause as it stands in the `sort` parameter: `"<field> <asc|desc>"`.
pub open spec fn clause_text(c: (Seq<char>, SortOrder)) -> Seq<char> {
    c.0 + " "@ + c.1.url_param()
}

impl ToUrlParam for SortClause {
    open spec fn url_param(&self) -> Seq<char> {
        clause_text(self@)
    }

    fn to_url_param(&self) -> (r: String) {
        let mut r = self.field.clone();
        r.append(" ");
        let order = self.order.to_url_param();
        r.append(order.as_str());
        r
    }
}

impl SortClause {
    /// A copy that keeps field and direction.
    pub fn copy(&self) -> (r: SortClause)
        ensures
            r@ == self@,
    {
        SortClause { field: self.field.clone(), order: self.order }
    }
}

/// What a query holds, as mathematical values.
pub struct QueryView {
    pub term: Seq<char>,
    pub fields: Option<Seq<Seq<char>>>,
    pub filters: Option<Seq<Seq<char>>>,
    pub sorts: Option<Seq<(Seq<char>, SortOrder)>>,
    pub start: u64,
    pub rows: u32,
}

/// `x` appended to a list that may not exist yet.
pub open spec fn appended<A>(list: Option<Seq<A>>, x: A) -> Seq<A> {
    match list {
        Some(s) => s.push(x),
        None => seq![x],
    }
}

pub open spec fn sort_views(v: Seq<SortClause>) -> Seq<(Seq<char>, SortOrder)> {
    v.map_values(|c: SortClause| c@)
}

pub open spec fn str_views(v: Seq<&str>) -> Seq<Seq<char>> {
    v.map_values(|s: &str| s@)
}

pub open spec fn pair_views(v: Seq<(String, String)>) -> Seq<(Seq<char>, Seq<char>)> {
    v.map_values(|p: (String, String)| (p.0@, p.1@))
}

/// The `fl` pair, when fields are set.
pub open spec fn field_pairs(q: QueryView) -> Seq<(Seq<char>, Seq<char>)> {
    match q.fields {
        Some(f) => seq![("fl"@, join(f, ", "@))],
        None => Seq::empty(),
    }
}

/// One `fq` pair per filter, in order.
pub open spec fn filter_pairs(q: QueryView) -> Seq<(Seq<char>, Seq<char>)> {
    match q.filters {
        Some(f) => f.map_values(|x: Seq<char>| ("fq"@, x)),
        None => Seq::empty(),
    }
}

/// The `sort` pair, when sorts are set.
pub open spec fn sort_pairs(q: QueryView) -> Seq<(Seq<char>, Seq<char>)> {
    match q.sorts {
        Some(s) => seq![("sort"@, join(s.map_values(|c: (Seq<char>, SortOrder)| clause_text(c)), ", "@))],
        None => Seq::empty(),
    }
}

/// The pagination pairs, each only when it differs from its default.
pub open spec fn page_pairs(q: QueryView) -> Seq<(Seq<char>, Seq<char>)> {
    (if q.start != DEFAULT_START {
        seq![("start"@, decimal(q.start as nat))]
    } else {
        Seq::empty()
    }) + (if q.rows != DEFAULT_ROWS {
        seq![("rows"@, decimal(q.rows as nat))]
    } else {
        Seq::empty()
    })
}

/// The URL parameters of a query, in wire order.
pub open spec fn query_pairs(q: QueryView) -> Seq<(Seq<char>, Seq<char>)> {
    seq![("wt"@, "json"@), ("q"@, q.term)] + field_pairs(q) + filter_pairs(q) + sort_pairs(q)
        + page_pairs(q)
}

/// A search request. Every builder method returns a new query and leaves
/// the receiver as it was.
#[derive(Clone, Debug)]
pub struct SolrQuery {
    query: String,
    fields: Option<Vec<String>>,
    filters: Option<Vec<String>>,
    sorts: Option<Vec<SortClause>>,
    start: u64,
    rows: u32,
}

impl View for SolrQuery {
    type V = QueryView;

    closed spec fn view(&self) -> QueryView {
        QueryView {
            term: self.query@,
            fields: match self.fields {
                Some(f) => Some(views(f@)),
                None => None,
            },
            filters: match self.filters {
                Some(f) => Some(views(f@)),
                None => None,
            },
            sorts: match self.sorts {
                Some(s) => Some(sort_views(s@)),
                None => None,
            },
            start: self.start,
            rows: self.rows,
        }
    }
}

fn copy_strings(v: &Vec<String>) -> (r: Vec<String>)
    ensures
        views(r@) == views(v@),
{
    let mut r: Vec<String> = Vec::new();
    let mut i: usize = 0;
    while i < v.len()
        invariant
            0 <= i <= v.len(),
            r@.len() == i,
            forall|j: int| 0 <= j < i ==> r@[j]@ == v@[j]@,
        decreases v.len() - i,
    {
        r.push(v[i].clone());
        i = i + 1;
    }
    assert(views(r@) =~= views(v@));
    r
}

fn copy_opt_strings(v: &Option<Vec<String>>) -> (r: Option<Vec<String>>)
    ensures
        match (r, *v) {
            (Some(a), Some(b)) => views(a@) == views(b@),
            (None, None) => true,
            _ => false,
        },
{
    match v {
        Some(s) => Some(copy_strings(s)),
        None => None,
    }
}

fn strs_to_strings(v: &[&str]) -> (r: Vec<String>)
    ensures
        views(r@) == str_views(v@),
{
    let mut r: Vec<String> = Vec::new();
    let mut i: usize = 0;
    while i < v.len()
        invariant
            0 <= i <= v.len(),
            r@.len() == i,
            forall|j: int| 0 <= j < i ==> r@[j]@ == v@[j]@,
        decreases v.len() - i,
    {
        r.push(v[i].to_string());
        i = i + 1;
    }
    assert(views(r@) =~= str_views(v@));
    r
}

fn copy_sorts(v: &[SortClause]) -> (r: Vec<SortClause>)
    ensures
        sort_views(r@) == sort_views(v@),
{
    let mut r: Vec<SortClause> = Vec::new();
    let mut i: usize = 0;
    while i < v.len()
        invariant
            0 <= i <= v.len(),
            r@.len() == i,
            forall|j: int| 0 <= j < i ==> r@[j]@ == v@[j]@,
        decreases v.len() - i,
    {
        r.push(v[i].copy());
        i = i + 1;
    }
    assert(sort_views(r@) =~= sort_views(v@));
    r
}

fn copy_opt_sorts(v: &Option<Vec<SortClause>>) -> (r: Option<Vec<SortClause>>)
    ensures
        match (r, *v) {
            (Some(a), Some(b)) => sort_views(a@) == sort_views(b@),
            (None, None) => true,
            _ => false,
        },
{
    match v {
        Some(s) => Some(copy_sorts(s.as_slice())),
        None => None,
    }
}

/// `x` appended to a copy of a list that may not exist yet.
fn appended_strings(v: &Option<Vec<String>>, x: &str) -> (r: Vec<String>)
    ensures
        views(r@) == appended(
            match *v {
                Some(s) => Some(views(s@)),
                None => None,
            },
            x@,
        ),
{
    let mut r = match v {
        Some(s) => copy_strings(s),
        None => Vec::new(),
    };
    let ghost before = views(r@);
    r.push(x.to_string());
    assert(views(r@) =~= before.push(x@));
    proof {
        if v.is_none() {
            assert(before =~= Seq::<Seq<char>>::empty());
            assert(before.push(x@) =~= seq![x@]);
        }
    }
    r
}

impl SolrQuery {
    /// A query holding only its term.
    pub fn new(query: &str) -> (r: SolrQuery)
        ensures
            r@ == (QueryView {
                term: query@,
                fields: None,
                filters: None,
                sorts: None,
                start: DEFAULT_START,
                rows: DEFAULT_ROWS,
            }),
    {
        SolrQuery {
            query: query.to_string(),
            fields: None,
            filters: None,
            sorts: None,
            start: DEFAULT_START,
            rows: DEFAULT_ROWS,
        }
    }

    /// This query with `field` appended to the returned fields (`fl`).
    pub fn add_field(&self, field: &str) -> (r: SolrQuery)
        ensures
            r@ == (QueryView { fields: Some(appended(self@.fields, field@)), ..self@ }),
    {
        SolrQuery {
            query: self.query.clone(),
            fields: Some(appended_strings(&self.fields, field)),
            filters: copy_opt_strings(&self.filters),
            sorts: copy_opt_sorts(&self.sorts),
            start: self.start,
            rows: self.rows,
        }
    }

    /// This query with its returned fields (`fl`) replaced by `fields`.
    pub fn set_fields(&self, fields: &[&str]) -> (r: SolrQuery)
        ensures
            r@ == (QueryView { fields: Some(str_views(fields@)), ..self@ }),
    {
        SolrQuery {
            query: self.query.clone(),
            fields: Some(strs_to_strings(fields)),
            filters: copy_opt_strings(&self.filters),
            sorts: copy_opt_sorts(&self.sorts),
            start: self.start,
            rows: self.rows,
        }
    }

    /// This query with the filter query `fq` appended to its filters.
    pub fn add_filter_query(&self, fq: &str) -> (r: SolrQuery)
        ensures
            r@ == (QueryView { filters: Some(appended(self@.filters, fq@)), ..self@ }),
    {
        SolrQuery {
            query: self.query.clone(),
            fields: copy_opt_strings(&self.fields),
            filters: Some(appended_strings(&self.filters, fq)),
            sorts: copy_opt_sorts(&self.sorts),
            start: self.start,
            rows: self.rows,
        }
    }

    /// The same as `add_filter_query`.
    pub fn add_filter(&self, fq: &str) -> (r: SolrQuery)
        ensures
            r@ == (QueryView { filters: Some(appended(self@.filters, fq@)), ..self@ }),
    {
        self.add_filter_query(fq)
    }

    /// This query with its filters replaced by `fq`.
    pub fn set_filters(&self, fq: &[&str]) -> (r: SolrQuery)
        ensures
            r@ == (QueryView { filters: Some(str_views(fq@)), ..self@ }),
    {
        SolrQuery {
            query: self.query.clone(),
            fields: copy_opt_strings(&self.fields),
            filters: Some(strs_to_strings(fq)),
            sorts: copy_opt_sorts(&self.sorts),
            start: self.start,
            rows: self.rows,
        }
    }

    /// This query with a sort on `field` in direction `order` appended.
    pub fn add_sort(&self, field: &str, order: SortOrder) -> (r: SolrQuery)
        ensures
            r@ == (QueryView { sorts: Some(appended(self@.sorts, (field@, order))), ..self@ }),
    {
        let mut sorts = match &self.sorts {
            Some(s) => copy_sorts(s.as_slice()),
            None => Vec::new(),
        };
        let ghost before = sort_views(sorts@);
        sorts.push(SortClause { field: field.to_string(), order: order });
        assert(sort_views(sorts@) =~= before.push((field@, order)));
        proof {
            if self.sorts.is_none() {
                assert(before.push((field@, order)) =~= seq![(field@, order)]);
            }
        }
        SolrQuery {
            query: self.query.clone(),
            fields: copy_opt_strings(&self.fields),
            filters: copy_opt_strings(&self.filters),
            sorts: Some(sorts),
            start: self.start,
            rows: self.rows,
        }
    }

    /// This query with its sorts replaced by `sorts`.
    pub fn set_sorts(&self, sorts: &[SortClause]) -> (r: SolrQuery)
        ensures
            r@ == (QueryView { sorts: Some(sort_views(sorts@)), ..self@ }),
    {
        SolrQuery {
            query: self.query.clone(),
            fields: copy_opt_strings(&self.fields),
            filters: copy_opt_strings(&self.filters),
            sorts: Some(copy_sorts(sorts)),
            start: self.start,
            rows: self.rows,
        }
    }

    /// This query with offset `start` (zero based).
    pub fn start(&self, start: u64) -> (r: SolrQuery)
        ensures
            r@ == (QueryView { start: start, ..self@ }),
    {
        SolrQuery {
            query: self.query.clone(),
            fields: copy_opt_strings(&self.fields),
            filters: copy_opt_strings(&self.filters),
            sorts: copy_opt_sorts(&self.sorts),
            start: start,
            rows: self.rows,
        }
    }

    /// This query with page size `rows`.
    pub fn rows(&self, rows: u32) -> (r: SolrQuery)
        ensures
            r@ == (QueryView { rows: rows, ..self@ }),
    {
        SolrQuery {
            query: self.query.clone(),
            fields: copy_opt_strings(&self.fields),
            filters: copy_opt_strings(&self.filters),
            sorts: copy_opt_sorts(&self.sorts),
            start: self.start,
            rows: rows,
        }
    }

    /// The URL parameters of this query, in wire order.
    pub fn to_pairs(&self) -> (r: Vec<(String, String)>)
        ensures
            pair_views(r@) == query_pairs(self@),
    {
        let ghost q = self@;
        let mut pairs: Vec<(String, String)> = Vec::new();
        pairs.push((String::from_str("wt"), String::from_str("json")));
        pairs.push((String::from_str("q"), self.query.clone()));
        let ghost head = seq![("wt"@, "json"@), ("q"@, q.term)];
        assert(pair_views(pairs@) =~= head);
        match &self.fields {
            Some(f) => {
                let joined = join_strings(f, ", ");
                pairs.push((String::from_str("fl"), joined));
            },
            None => {},
        }
        assert(pair_views(pairs@) =~= head + field_pairs(q));
        let ghost with_fields = pair_views(pairs@);
        match &self.filters {
            Some(f) => {
                let mut i: usize = 0;
                while i < f.len()
                    invariant
                        0 <= i <= f.len(),
                        self.filters == Some(*f),
                        q == self@,
                        pairs@.len() == with_fields.len() + i,
                        forall|j: int| 0 <= j < with_fields.len() ==> pair_views(pairs@)[j] == with_fields[j],
                        forall|j: int| 0 <= j < i ==> pair_views(pairs@)[with_fields.len() + j] == ("fq"@, f@[j]@),
                    decreases f.len() - i,
                {
                    pairs.push((String::from_str("fq"), f[i].clone()));
                    i = i + 1;
                }
            },
            None => {},
        }
        assert(pair_views(pairs@) =~= with_fields + filter_pairs(q));
        let ghost with_filters = pair_views(pairs@);
        match &self.sorts {
            Some(s) => {
                let mut rendered: Vec<String> = Vec::new();
                let mut i: usize = 0;
                while i < s.len()
                    invariant
                        0 <= i <= s.len(),
                        rendered@.len() == i,
                        forall|j: int| 0 <= j < i ==> rendered@[j]@ == clause_text(s@[j]@),
                    decreases s.len() - i,
                {
                    rendered.push(s[i].to_url_param());
                    i = i + 1;
                }
                let joined = join_strings(&rendered, ", ");
                assert(views(rendered@) =~= sort_views(s@).map_values(
                    |c: (Seq<char>, SortOrder)| clause_text(c),
                ));
                pairs.push((String::from_str("sort"), joined));
            },
            None => {},
        }
        assert(pair_views(pairs@) =~= with_filters + sort_pairs(q));
        let ghost with_sorts = pair_views(pairs@);
        if self.start != DEFAULT_START {
            pairs.push((String::from_str("start"), u64_to_decimal(self.start)));
        }
        if self.rows != DEFAULT_ROWS {
            pairs.push((String::from_str("rows"), u64_to_decimal(self.rows as u64)));
        }
        assert(pair_views(pairs@) =~= with_sorts + page_pairs(q));
        pairs
    }
}

/// Whether some pair of `pairs` has the key `k`.
pub open spec fn has_key(pairs: Seq<(Seq<char>, Seq<char>)>, k: Seq<char>) -> bool {
    exists|i: int| 0 <= i < pairs.len() && pairs[i].0 == k
}

proof fn lemma_has_key_concat(a: Seq<(Seq<char>, Seq<char>)>, b: Seq<(Seq<char>, Seq<char>)>, k: Seq<char>)
    ensures
        has_key(a + b, k) == (has_key(a, k) || has_key(b, k)),
{
    if has_key(a + b, k) {
        let i = choose|i: int| 0 <= i < (a + b).len() && (a + b)[i].0 == k;
        if i >= a.len() {
            assert(b[i - a.len()].0 == k);
        }
    }
    if has_key(a, k) {
        let i = choose|i: int| 0 <= i < a.len() && a[i].0 == k;
        assert((a + b)[i].0 == k);
    }
    if has_key(b, k) {
        let i = choose|i: int| 0 <= i < b.len() && b[i].0 == k;
        assert((a + b)[a.len() + i].0 == k);
    }
}

/// Which of the parameter names a query can hold a given name stands among.
proof fn lemma_segment_keys(q: QueryView)
    ensures
        has_key(query_pairs(q), "fl"@) == has_key(field_pairs(q), "fl"@),
        has_key(query_pairs(q), "start"@) == has_key(page_pairs(q), "start"@),
        has_key(query_pairs(q), "rows"@) == has_key(page_pairs(q), "rows"@),
        has_key(field_pairs(q), "fl"@) == q.fields is Some,
        has_key(page_pairs(q), "start"@) == (q.start != DEFAULT_START),
        has_key(page_pairs(q), "rows"@) == (q.rows != DEFAULT_ROWS),
{
    reveal_strlit("wt");
    reveal_strlit("q");
    reveal_strlit("fl");
    reveal_strlit("fq");
    reveal_strlit("sort");
    reveal_strlit("start");
    reveal_strlit("rows");
    let head = seq![("wt"@, "json"@), ("q"@, q.term)];
    let f = field_pairs(q);
    let fi = filter_pairs(q);
    let so = sort_pairs(q);
    let pg = page_pairs(q);
    let st: Seq<(Seq<char>, Seq<char>)> = if q.start != DEFAULT_START {
        seq![("start"@, decimal(q.start as nat))]
    } else {
        Seq::empty()
    };
    let rw: Seq<(Seq<char>, Seq<char>)> = if q.rows != DEFAULT_ROWS {
        seq![("rows"@, decimal(q.rows as nat))]
    } else {
        Seq::empty()
    };
    assert(pg == st + rw);
    lemma_has_key_concat(head, f, "fl"@);
    lemma_has_key_concat(head + f, fi, "fl"@);
    lemma_has_key_concat(head + f + fi, so, "fl"@);
    lemma_has_key_concat(head + f + fi + so, pg, "fl"@);
    lemma_has_key_concat(head, f, "start"@);
    lemma_has_key_concat(head + f, fi, "start"@);
    lemma_has_key_concat(head + f + fi, so, "start"@);
    lemma_has_key_concat(head + f + fi + so, pg, "start"@);
    lemma_has_key_concat(head, f, "rows"@);
    lemma_has_key_concat(head + f, fi, "rows"@);
    lemma_has_key_concat(head + f + fi, so, "rows"@);
    lemma_has_key_concat(head + f + fi + so, pg, "rows"@);
    lemma_has_key_concat(st, rw, "start"@);
    lemma_has_key_concat(st, rw, "rows"@);
    assert("wt"@[0] != "fl"@[0] && "wt"@[0] != "start"@[0] && "wt"@[0] != "rows"@[0]);
    assert("q"@[0] != "fl"@[0] && "q"@[0] != "start"@[0] && "q"@[0] != "rows"@[0]);
    assert("fq"@[1] != "fl"@[1] && "fq"@[0] != "start"@[0] && "fq"@[0] != "rows"@[0]);
    assert("sort"@[0] != "fl"@[0] && "sort"@[1] != "start"@[1] && "sort"@[0] != "rows"@[0]);
    assert("start"@[0] != "fl"@[0] && "start"@[0] != "rows"@[0] && "rows"@[0] != "fl"@[0]);
    assert(!has_key(head, "fl"@) && !has_key(head, "start"@) && !has_key(head, "rows"@)) by {
        assert(head[0].0 == "wt"@ && head[1].0 == "q"@);
    }
    assert(!has_key(fi, "fl"@) && !has_key(fi, "start"@) && !has_key(fi, "rows"@)) by {
        assert(forall|i: int| 0 <= i < fi.len() ==> #[trigger] fi[i].0 == "fq"@);
    }
    if q.fields is Some {
        assert(f[0].0 == "fl"@);
    }
    if q.start != DEFAULT_START {
        assert(st[0].0 == "start"@);
    }
    if q.rows != DEFAULT_ROWS {
        assert(rw[0].0 == "rows"@);
    }
}

/// Every query's parameters begin with the response format and then the
/// query term.
pub proof fn lemma_pairs_begin_with_format_and_term(q: QueryView)
    ensures
        query_pairs(q).len() >= 2,
        query_pairs(q)[0] == ("wt"@, "json"@),
        query_pairs(q)[1] == ("q"@, q.term),
{
}

/// The `start` parameter is there exactly when the offset differs from its
/// default, and the `rows` parameter exactly when the page size does; each
/// holds its number in base ten.
pub proof fn lemma_page_pairs_iff_not_default(q: QueryView)
    ensures
        has_key(query_pairs(q), "start"@) <==> q.start != DEFAULT_START,
        has_key(query_pairs(q), "rows"@) <==> q.rows != DEFAULT_ROWS,
        q.start != DEFAULT_START ==> page_pairs(q)[0] == ("start"@, decimal(q.start as nat)),
        q.rows != DEFAULT_ROWS ==> page_pairs(q).last() == ("rows"@, decimal(q.rows as nat)),
{
    lemma_segment_keys(q);
}

/// The `fl` parameter is there exactly when a field list is set; so a query
/// that never had a field added or set has none.
pub proof fn lemma_fl_pair_iff_fields(q: QueryView)
    ensures
        has_key(query_pairs(q), "fl"@) <==> q.fields is Some,
{
    lemma_segment_keys(q);
}

/// Adding a field extends the `fl` value by `", "` and the field, so the
/// fields stand in the order in which they were added.
pub proof fn lemma_add_field_extends_fl(q: QueryView, field: Seq<char>)
    ensures
        field_pairs(QueryView { fields: Some(appended(q.fields, field)), ..q }) == seq![
            (
                "fl"@,
                match q.fields {
                    Some(f) => if f.len() > 0 {
                        join(f, ", "@) + ", "@ + field
                    } else {
                        field
                    },
                    None => field,
                },
            ),
        ],
{
    match q.fields {
        Some(f) => {
            assert(f.push(field).drop_last() =~= f);
        },
        None => {},
    }
}

/// Adding a sort extends the `sort` value by `", "` and the new clause, so
/// the clauses stand in the order in which they were added.
pub proof fn lemma_add_sort_extends_sort(q: QueryView, field: Seq<char>, order: SortOrder)
    ensures
        sort_pairs(QueryView { sorts: Some(appended(q.sorts, (field, order))), ..q }) == seq![
            (
                "sort"@,
                match q.sorts {
                    Some(s) => if s.len() > 0 {
                        join(s.map_values(|c: (Seq<char>, SortOrder)| clause_text(c)), ", "@) + ", "@
                            + clause_text((field, order))
                    } else {
                        clause_text((field, order))
                    },
                    None => clause_text((field, order)),
                },
            ),
        ],
{
    let c = (field, order);
    match q.sorts {
        Some(s) => {
            let texts = s.push(c).map_values(|c: (Seq<char>, SortOrder)| clause_text(c));
            assert(texts.drop_last() =~= s.map_values(|c: (Seq<char>, SortOrder)| clause_text(c)));
        },
        None => {
            assert(seq![c].map_values(|c: (Seq<char>, SortOrder)| clause_text(c)) =~= seq![clause_text(c)]);
        },
    }
}

} // verus!
