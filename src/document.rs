//! Documents: ordered lists of named scalar values, their JSON encoding,
//! and their reconstruction from a decoded JSON object.

use vstd::prelude::*;
use crate::json::{JsonValue, json_string_text, quote_json_string};
use crate::text::{decimal, i64_to_decimal, is_json_number, is_number_text, join, join_strings, signed_decimal, u64_to_decimal, views};

verus! {

/// The value of a document field.
#[derive(Clone, Debug, PartialEq)]
pub enum SolrValue {
    I64(i64),
    U64(u64),
    /// A floating-point number, held as its JSON text. Text that is not a
    /// JSON number stands for a number that JSON cannot write, and is
    /// written as `null`.
    F64(String),
    String(String),
    Boolean(bool),
    Null,
}

/// A field value as a mathematical value.
pub enum ValueView {
    I64(i64),
    U64(u64),
    F64(Seq<char>),
    Str(Seq<char>),
    Boolean(bool),
    Null,
}

impl View for SolrValue {
    type V = ValueView;

    open spec fn view(&self) -> ValueView {
        match self {
            SolrValue::I64(v) => ValueView::I64(*v),
            SolrValue::U64(v) => ValueView::U64(*v),
            SolrValue::F64(t) => ValueView::F64(t@),
            SolrValue::String(s) => ValueView::Str(s@),
            SolrValue::Boolean(b) => ValueView::Boolean(*b),
            SolrValue::Null => ValueView::Null,
        }
    }
}

/// A named field of a document.
#[derive(Clone, Debug)]
pub struct SolrField {
    pub name: String,
    pub value: SolrValue,
}

impl View for SolrField {
    type V = (Seq<char>, ValueView);

    open spec fn view(&self) -> (Seq<char>, ValueView) {
        (self.name@, self.value@)
    }
}

/// A document: its fields in insertion order. Names need not be unique.
#[derive(Clone, Debug)]
pub struct SolrDocument {
    pub fields: Vec<SolrField>,
}

pub open spec fn field_views(fields: Seq<SolrField>) -> Seq<(Seq<char>, ValueView)> {
    fields.map_values(|f: SolrField| f@)
}

impl View for SolrDocument {
    type V = Seq<(Seq<char>, ValueView)>;

    open spec fn view(&self) -> Seq<(Seq<char>, ValueView)> {
        field_views(self.fields@)
    }
}

/// The JSON text of a value.
pub open spec fn value_text(v: ValueView) -> Seq<char> {
    match v {
        ValueView::I64(n) => signed_decimal(n as int),
        ValueView::U64(n) => decimal(n as nat),
        ValueView::F64(t) => if is_json_number(t) {
            t
        } else {
            "null"@
        },
        ValueView::Str(s) => json_string_text(s),
        ValueView::Boolean(b) => if b {
            "true"@
        } else {
            "false"@
        },
        ValueView::Null => "null"@,
    }
}

/// One member of a document's JSON object: `"<name>":<value>`.
pub open spec fn member_text(f: (Seq<char>, ValueView)) -> Seq<char> {
    json_string_text(f.0) + ":"@ + value_text(f.1)
}

/// The JSON object of a document: one member per field, in order.
pub open spec fn document_text(d: Seq<(Seq<char>, ValueView)>) -> Seq<char> {
    "{"@ + join(d.map_values(|f: (Seq<char>, ValueView)| member_text(f)), ","@) + "}"@
}

/// The JSON array of several documents, in order.
pub open spec fn documents_text(ds: Seq<Seq<(Seq<char>, ValueView)>>) -> Seq<char> {
    "["@ + join(ds.map_values(|d: Seq<(Seq<char>, ValueView)>| document_text(d)), ","@) + "]"@
}

/// The field value that a decoded JSON value becomes: an integral number
/// is signed where it fits; a float whose text is no JSON number (one out
/// of range) and anything but a scalar become `Null`.
pub open spec fn value_of_json(j: JsonValue) -> ValueView {
    match j {
        JsonValue::I64(v) => ValueView::I64(v),
        JsonValue::U64(v) => if v <= i64::MAX as u64 {
            ValueView::I64(v as i64)
        } else {
            ValueView::U64(v)
        },
        JsonValue::F64(t) => if is_json_number(t@) {
            ValueView::F64(t@)
        } else {
            ValueView::Null
        },
        JsonValue::Str(s) => ValueView::Str(s@),
        JsonValue::Bool(b) => ValueView::Boolean(b),
        _ => ValueView::Null,
    }
}

/// The document that a decoded JSON object's members become, in order.
pub open spec fn document_of_members(entries: Seq<(String, JsonValue)>) -> Seq<(Seq<char>, ValueView)> {
    entries.map_values(|e: (String, JsonValue)| (e.0@, value_of_json(e.1)))
}

impl SolrValue {
    /// The JSON text of this value.
    pub fn to_json(&self) -> (r: String)
        ensures
            r@ == value_text(self@),
    {
        match self {
            SolrValue::I64(n) => i64_to_decimal(*n),
            SolrValue::U64(n) => u64_to_decimal(*n),
            SolrValue::F64(t) => if is_number_text(t.as_str()) {
                t.clone()
            } else {
                String::from_str("null")
            },
            SolrValue::String(s) => quote_json_string(s.as_str()),
            SolrValue::Boolean(b) => if *b {
                String::from_str("true")
            } else {
                String::from_str("false")
            },
            SolrValue::Null => String::from_str("null"),
        }
    }

    /// The field value that a decoded JSON value becomes.
    pub fn from_json(j: &JsonValue) -> (r: SolrValue)
        ensures
            r@ == value_of_json(*j),
    {
        match j {
            JsonValue::I64(v) => SolrValue::I64(*v),
            JsonValue::U64(v) => if *v <= i64::MAX as u64 {
                SolrValue::I64(*v as i64)
            } else {
                SolrValue::U64(*v)
            },
            JsonValue::F64(t) => if is_number_text(t.as_str()) {
                SolrValue::F64(t.clone())
            } else {
                SolrValue::Null
            },
            JsonValue::Str(s) => SolrValue::String(s.clone()),
            JsonValue::Bool(b) => SolrValue::Boolean(*b),
            _ => SolrValue::Null,
        }
    }
}

impl SolrDocument {
    /// An empty document.
    pub fn new() -> (r: SolrDocument)
        ensures
            r@ == Seq::<(Seq<char>, ValueView)>::empty(),
    {
        let fields: Vec<SolrField> = Vec::new();
        let r = SolrDocument { fields: fields };
        assert(r@ =~= Seq::<(Seq<char>, ValueView)>::empty());
        r
    }

    /// Appends a field holding the string `value`.
    pub fn add_field(&mut self, name: &str, value: &str)
        ensures
            final(self)@ == old(self)@.push((name@, ValueView::Str(value@))),
    {
        self.fields.push(SolrField { name: name.to_string(), value: SolrValue::String(value.to_string()) });
        assert(final(self)@ =~= old(self)@.push((name@, ValueView::Str(value@))));
    }

    /// The JSON object of this document: one member per field, in order.
    pub fn to_json(&self) -> (r: String)
        ensures
            r@ == document_text(self@),
    {
        let mut members: Vec<String> = Vec::new();
        let mut i: usize = 0;
        while i < self.fields.len()
            invariant
                0 <= i <= self.fields.len(),
                members@.len() == i,
                forall|j: int| 0 <= j < i ==> members@[j]@ == member_text(self.fields@[j]@),
            decreases self.fields.len() - i,
        {
            let field = &self.fields[i];
            let mut m = quote_json_string(field.name.as_str());
            m.append(":");
            let v = field.value.to_json();
            m.append(v.as_str());
            members.push(m);
            i = i + 1;
        }
        assert(views(members@) =~= self@.map_values(|f: (Seq<char>, ValueView)| member_text(f)));
        let mut r = String::from_str("{");
        let body = join_strings(&members, ",");
        r.append(body.as_str());
        r.append("}");
        r
    }

    /// The document that a decoded JSON object becomes; `None` when `j` is
    /// not an object.
    pub fn from_json(j: &JsonValue) -> (r: Option<SolrDocument>)
        ensures
            match *j {
                JsonValue::Object(entries) => r is Some && r->Some_0@ == document_of_members(entries@),
                _ => r is None,
            },
    {
        match j {
            JsonValue::Object(entries) => {
                let mut fields: Vec<SolrField> = Vec::new();
                let mut i: usize = 0;
                while i < entries.len()
                    invariant
                        0 <= i <= entries.len(),
                        fields@.len() == i,
                        forall|k: int| 0 <= k < i ==> fields@[k]@ == (entries@[k].0@, value_of_json(entries@[k].1)),
                    decreases entries.len() - i,
                {
                    let e = &entries[i];
                    fields.push(SolrField { name: e.0.clone(), value: SolrValue::from_json(&e.1) });
                    i = i + 1;
                }
                let d = SolrDocument { fields: fields };
                assert(d@ =~= document_of_members(entries@));
                Some(d)
            },
            _ => None,
        }
    }
}

/// The JSON array of `documents`, in order.
pub fn encode_documents(documents: &[&SolrDocument]) -> (r: String)
    ensures
        r@ == documents_text(documents@.map_values(|d: &SolrDocument| d@)),
{
    let mut parts: Vec<String> = Vec::new();
    let mut i: usize = 0;
    while i < documents.len()
        invariant
            0 <= i <= documents.len(),
            parts@.len() == i,
            forall|j: int| 0 <= j < i ==> parts@[j]@ == document_text(documents@[j]@),
        decreases documents.len() - i,
    {
        parts.push(documents[i].to_json());
        i = i + 1;
    }
    assert(views(parts@) =~= documents@.map_values(|d: &SolrDocument| d@).map_values(
        |d: Seq<(Seq<char>, ValueView)>| document_text(d),
    ));
    let mut r = String::from_str("[");
    let body = join_strings(&parts, ",");
    r.append(body.as_str());
    r.append("]");
    r
}

pub open spec fn member_texts(d: Seq<(Seq<char>, ValueView)>) -> Seq<Seq<char>> {
    d.map_values(|f: (Seq<char>, ValueView)| member_text(f))
}

/// A document without fields encodes as `{}`.
pub proof fn lemma_empty_document_text()
    ensures
        document_text(Seq::empty()) == "{}"@,
{
    reveal_strlit("{");
    reveal_strlit("}");
    reveal_strlit("{}");
    let empty = Seq::<(Seq<char>, ValueView)>::empty();
    assert(member_texts(empty) =~= Seq::<Seq<char>>::empty());
    assert("{"@ + join(member_texts(empty), ","@) + "}"@ =~= "{}"@);
}

/// Adding a field to a document adds its member after the members already
/// there, so members stand in the order in which fields were added.
pub proof fn lemma_add_field_appends_member(d: Seq<(Seq<char>, ValueView)>, f: (Seq<char>, ValueView))
    ensures
        document_text(d.push(f)) == "{"@ + (if d.len() == 0 {
            member_text(f)
        } else {
            join(member_texts(d), ","@) + ","@ + member_text(f)
        }) + "}"@,
{
    assert(member_texts(d.push(f)) =~= member_texts(d).push(member_text(f)));
    assert(member_texts(d).push(member_text(f)).drop_last() =~= member_texts(d));
}

} // verus!
