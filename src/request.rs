//! Delete requests and their JSON bodies.

use vstd::prelude::*;
use crate::json::{json_string_text, quote_json_string};
use crate::text::{join, join_strings, views};

verus! {

/// What a delete request removes.
#[derive(Debug)]
enum DeleteTarget {
    Ids(Vec<String>),
    Query(String),
}

/// A delete request as a mathematical value.
pub enum DeleteView {
    Ids(Seq<Seq<char>>),
    Query(Seq<char>),
}

/// A request that deletes documents either by their ids or by a query.
#[derive(Debug)]
pub struct SolrDeleteRequest {
    target: DeleteTarget,
}

impl View for SolrDeleteRequest {
    type V = DeleteView;

    closed spec fn view(&self) -> DeleteView {
        match self.target {
            DeleteTarget::Ids(ids) => DeleteView::Ids(views(ids@)),
            DeleteTarget::Query(q) => DeleteView::Query(q@),
        }
    }
}

/// `{"id":<id>}`
pub open spec fn id_object_text(id: Seq<char>) -> Seq<char> {
    "{\"id\":"@ + json_string_text(id) + "}"@
}

/// The JSON body of a delete request.
pub open spec fn delete_text(d: DeleteView) -> Seq<char> {
    match d {
        DeleteView::Ids(ids) => "{\"delete\":["@ + join(ids.map_values(|id: Seq<char>| id_object_text(id)), ","@)
            + "]}"@,
        DeleteView::Query(q) => "{\"delete\":{\"query\":"@ + json_string_text(q) + "}}"@,
    }
}

impl SolrDeleteRequest {
    /// A request that deletes the document with id `id`.
    pub fn from_id(id: &str) -> (r: SolrDeleteRequest)
        ensures
            r@ == DeleteView::Ids(seq![id@]),
    {
        let mut ids: Vec<String> = Vec::new();
        ids.push(id.to_string());
        let r = SolrDeleteRequest { target: DeleteTarget::Ids(ids) };
        assert(views(ids@) =~= seq![id@]);
        r
    }

    /// A request that deletes the documents with the given ids; an empty
    /// list gives a request that deletes nothing.
    pub fn from_ids(ids: &Vec<String>) -> (r: SolrDeleteRequest)
        ensures
            r@ == DeleteView::Ids(views(ids@)),
    {
        let mut copy: Vec<String> = Vec::new();
        let mut i: usize = 0;
        while i < ids.len()
            invariant
                0 <= i <= ids.len(),
                copy@.len() == i,
                forall|j: int| 0 <= j < i ==> copy@[j]@ == ids@[j]@,
            decreases ids.len() - i,
        {
            copy.push(ids[i].clone());
            i = i + 1;
        }
        assert(views(copy@) =~= views(ids@));
        SolrDeleteRequest { target: DeleteTarget::Ids(copy) }
    }

    /// A request that deletes the documents matching `query`.
    pub fn from_query(query: &str) -> (r: SolrDeleteRequest)
        ensures
            r@ == DeleteView::Query(query@),
    {
        SolrDeleteRequest { target: DeleteTarget::Query(query.to_string()) }
    }

    /// The JSON body of this request.
    pub fn to_json(&self) -> (r: String)
        ensures
            r@ == delete_text(self@),
    {
        match &self.target {
            DeleteTarget::Ids(ids) => {
                let mut parts: Vec<String> = Vec::new();
                let mut i: usize = 0;
                while i < ids.len()
                    invariant
                        0 <= i <= ids.len(),
                        parts@.len() == i,
                        forall|j: int| 0 <= j < i ==> parts@[j]@ == id_object_text(ids@[j]@),
                    decreases ids.len() - i,
                {
                    let mut p = String::from_str("{\"id\":");
                    let quoted = quote_json_string(ids[i].as_str());
                    p.append(quoted.as_str());
                    p.append("}");
                    parts.push(p);
                    i = i + 1;
                }
                assert(views(parts@) =~= views(ids@).map_values(|id: Seq<char>| id_object_text(id)));
                let mut r = String::from_str("{\"delete\":[");
                let body = join_strings(&parts, ",");
                r.append(body.as_str());
                r.append("]}");
                r
            },
            DeleteTarget::Query(q) => {
                let mut r = String::from_str("{\"delete\":{\"query\":");
                let quoted = quote_json_string(q.as_str());
                r.append(quoted.as_str());
                r.append("}}");
                r
            },
        }
    }
}

} // verus!
