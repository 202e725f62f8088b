//! Decoding of the server's JSON replies: update, query and ping responses
//! and server-reported errors.
//!
//! Every decoder reads the tree in a fixed order and stops at the first
//! member that is missing or has an unexpected value, with an error that
//! names that member by its path.

use vstd::prelude::*;
use crate::document::{SolrDocument, ValueView, document_of_members};
use crate::json::{JsonValue, get_int, get_member, int_of, json_text_ok, json_text_within_limits, member, parse_json, parsed_json};
use vstd::string::StringSliceAdditionalSpecFns;
use crate::text::{decimal, u64_to_decimal};

verus! {

/// Where an error comes from.
#[derive(Clone, Copy, Debug, PartialEq, Eq, Structural)]
pub enum SolrErrorKind {
    /// The server could not be reached.
    Transport,
    /// The reply could not be decoded; no server status is known.
    Decode,
    /// The server reported the error.
    Server,
}

/// An error of a request.
#[derive(Clone, Debug)]
pub struct SolrError {
    pub kind: SolrErrorKind,
    /// Status reported by the server; 0 unless `kind` is `Server`.
    pub status: i32,
    /// Time it took to execute the request in milliseconds; always 0.
    pub time: i32,
    /// Detailed error message.
    pub message: String,
}

/// An error as a mathematical value.
pub struct ErrorView {
    pub kind: SolrErrorKind,
    pub status: i32,
    pub time: i32,
    pub message: Seq<char>,
}

impl View for SolrError {
    type V = ErrorView;

    open spec fn view(&self) -> ErrorView {
        ErrorView { kind: self.kind, status: self.status, time: self.time, message: self.message@ }
    }
}

/// Reply to an update, commit, rollback, optimize or delete request.
#[derive(Debug, Copy, Clone, PartialEq, Eq, Structural)]
pub struct SolrUpdateResponse {
    pub status: i32,
    /// Time it took to execute the request in milliseconds.
    pub time: i32,
}

impl View for SolrUpdateResponse {
    type V = SolrUpdateResponse;

    open spec fn view(&self) -> SolrUpdateResponse {
        *self
    }
}

/// Reply to a query.
#[derive(Debug)]
pub struct SolrQueryResponse {
    pub status: u32,
    /// Time it took to execute the request in milliseconds.
    pub time: u32,
    /// Number of documents found; the page in `items` may hold fewer.
    pub total: u64,
    /// Offset of the page (zero based).
    pub start: u64,
    /// The page of documents found.
    pub items: Vec<SolrDocument>,
}

/// A query reply as a mathematical value.
pub struct QueryResponseView {
    pub status: u32,
    pub time: u32,
    pub total: u64,
    pub start: u64,
    pub items: Seq<Seq<(Seq<char>, ValueView)>>,
}

impl View for SolrQueryResponse {
    type V = QueryResponseView;

    open spec fn view(&self) -> QueryResponseView {
        QueryResponseView {
            status: self.status,
            time: self.time,
            total: self.total,
            start: self.start,
            items: self.items@.map_values(|d: SolrDocument| d@),
        }
    }
}

/// Reply to a ping.
#[derive(Debug)]
pub struct SolrPingResponse {
    pub status: u32,
    /// Time it took to execute the request in milliseconds.
    pub time: u32,
    /// The server's own status word.
    pub ping_status: String,
}

/// A ping reply as a mathematical value.
pub struct PingResponseView {
    pub status: u32,
    pub time: u32,
    pub ping_status: Seq<char>,
}

impl View for SolrPingResponse {
    type V = PingResponseView;

    open spec fn view(&self) -> PingResponseView {
        PingResponseView { status: self.status, time: self.time, ping_status: self.ping_status@ }
    }
}

pub type SolrUpdateResult = Result<SolrUpdateResponse, SolrError>;

pub type SolrQueryResult = Result<SolrQueryResponse, SolrError>;

pub type SolrPingResult = Result<SolrPingResponse, SolrError>;

/// A decoding error with `message`.
pub open spec fn decode_failure(message: Seq<char>) -> ErrorView {
    ErrorView { kind: SolrErrorKind::Decode, status: 0, time: 0, message: message }
}

/// The message for a body that is not JSON.
pub open spec fn parse_failure(what: Seq<char>) -> Seq<char> {
    what + " JSON parsing error"@
}

/// The message for a problem at `path`.
pub open spec fn path_message(what: Seq<char>, path: Seq<char>, tail: Seq<char>) -> Seq<char> {
    what + " JSON parsing error: "@ + path + tail
}

pub open spec fn not_found(what: Seq<char>, path: Seq<char>) -> Seq<char> {
    path_message(what, path, " not found"@)
}

pub open spec fn bad_value(what: Seq<char>, path: Seq<char>) -> Seq<char> {
    path_message(what, path, " has an unexpected value"@)
}

/// The message for a body that is JSON but not an object.
pub open spec fn not_object(what: Seq<char>) -> Seq<char> {
    path_message(what, "the reply"@, " is not a JSON object"@)
}

/// The integral member `key` of `parent`, which must lie in `lo..=hi`.
pub open spec fn read_int(
    parent: JsonValue,
    key: Seq<char>,
    what: Seq<char>,
    path: Seq<char>,
    lo: int,
    hi: int,
) -> Result<int, ErrorView> {
    match member(parent, key) {
        None => Err(decode_failure(not_found(what, path))),
        Some(v) => match int_of(v) {
            Some(n) => if lo <= n <= hi {
                Ok(n)
            } else {
                Err(decode_failure(bad_value(what, path)))
            },
            None => Err(decode_failure(bad_value(what, path))),
        },
    }
}

/// The string member `key` of `parent`.
pub open spec fn read_text(parent: JsonValue, key: Seq<char>, what: Seq<char>, path: Seq<char>) -> Result<
    Seq<char>,
    ErrorView,
> {
    match member(parent, key) {
        None => Err(decode_failure(not_found(what, path))),
        Some(v) => match v {
            JsonValue::Str(s) => Ok(s@),
            _ => Err(decode_failure(bad_value(what, path))),
        },
    }
}

/// The member `key` of `parent`, which must be present.
pub open spec fn read_member(parent: JsonValue, key: Seq<char>, what: Seq<char>, path: Seq<char>) -> Result<
    JsonValue,
    ErrorView,
> {
    match member(parent, key) {
        None => Err(decode_failure(not_found(what, path))),
        Some(v) => Ok(v),
    }
}

/// `status` and `QTime` of the header `responseHeader` of a reply, as
/// non-negative 32-bit numbers.
pub open spec fn header_of(root: JsonValue, what: Seq<char>) -> Result<(u32, u32), ErrorView> {
    match read_member(root, "responseHeader"@, what, "responseHeader"@) {
        Err(e) => Err(e),
        Ok(rh) => match read_int(rh, "QTime"@, what, "responseHeader.QTime"@, 0, u32::MAX as int) {
            Err(e) => Err(e),
            Ok(time) => match read_int(rh, "status"@, what, "responseHeader.status"@, 0, u32::MAX as int) {
                Err(e) => Err(e),
                Ok(status) => Ok((status as u32, time as u32)),
            },
        },
    }
}

pub open spec fn all_objects(docs: Seq<JsonValue>) -> bool {
    forall|i: int| 0 <= i < docs.len() ==> docs[i] is Object
}

/// The documents of a list of JSON objects, in order.
pub open spec fn documents_of(docs: Seq<JsonValue>) -> Seq<Seq<(Seq<char>, ValueView)>> {
    docs.map_values(
        |d: JsonValue|
            match d {
                JsonValue::Object(entries) => document_of_members(entries@),
                _ => Seq::empty(),
            },
    )
}

/// The page of documents under `response.docs`.
pub open spec fn docs_of(rs: JsonValue, what: Seq<char>) -> Result<Seq<Seq<(Seq<char>, ValueView)>>, ErrorView> {
    match read_member(rs, "docs"@, what, "response.docs"@) {
        Err(e) => Err(e),
        Ok(d) => match d {
            JsonValue::Array(docs) => if all_objects(docs@) {
                Ok(documents_of(docs@))
            } else {
                Err(decode_failure(path_message(what, "response.docs"@, " holds an element that is not a JSON object"@)))
            },
            _ => Err(decode_failure(path_message(what, "response.docs"@, " is not a JSON list"@))),
        },
    }
}

/// The query reply that a JSON tree holds.
pub open spec fn query_outcome(root: JsonValue) -> Result<QueryResponseView, ErrorView> {
    let what = "SolrQueryResponse"@;
    if !(root is Object) {
        Err(decode_failure(not_object(what)))
    } else {
        match header_of(root, what) {
            Err(e) => Err(e),
            Ok((status, time)) => match read_member(root, "response"@, what, "response"@) {
                Err(e) => Err(e),
                Ok(rs) => match read_int(rs, "numFound"@, what, "response.numFound"@, 0, u64::MAX as int) {
                    Err(e) => Err(e),
                    Ok(total) => match read_int(rs, "start"@, what, "response.start"@, 0, u64::MAX as int) {
                        Err(e) => Err(e),
                        Ok(start) => match docs_of(rs, what) {
                            Err(e) => Err(e),
                            Ok(items) => Ok(
                                QueryResponseView {
                                    status: status,
                                    time: time,
                                    total: total as u64,
                                    start: start as u64,
                                    items: items,
                                },
                            ),
                        },
                    },
                },
            },
        }
    }
}

/// The ping reply that a JSON tree holds.
pub open spec fn ping_outcome(root: JsonValue) -> Result<PingResponseView, ErrorView> {
    let what = "SolrPingResponse"@;
    if !(root is Object) {
        Err(decode_failure(not_object(what)))
    } else {
        match read_text(root, "status"@, what, "status"@) {
            Err(e) => Err(e),
            Ok(ping_status) => match header_of(root, what) {
                Err(e) => Err(e),
                Ok((status, time)) => Ok(
                    PingResponseView { status: status, time: time, ping_status: ping_status },
                ),
            },
        }
    }
}

/// The update reply that a JSON tree holds.
pub open spec fn update_outcome(root: JsonValue) -> Result<SolrUpdateResponse, ErrorView> {
    let what = "SolrUpdateResponse"@;
    if !(root is Object) {
        Err(decode_failure(not_object(what)))
    } else {
        match read_member(root, "responseHeader"@, what, "responseHeader"@) {
            Err(e) => Err(e),
            Ok(rh) => match read_int(rh, "status"@, what, "responseHeader.status"@, i32::MIN as int, i32::MAX as int) {
                Err(e) => Err(e),
                Ok(status) => match read_int(rh, "QTime"@, what, "responseHeader.QTime"@, i32::MIN as int, i32::MAX as int) {
                    Err(e) => Err(e),
                    Ok(time) => Ok(SolrUpdateResponse { status: status as i32, time: time as i32 }),
                },
            },
        }
    }
}

/// The error that a server's error reply holds: `error.code` and
/// `error.msg`, or a decoding error where those are not there.
pub open spec fn server_error_of(root: JsonValue) -> ErrorView {
    let what = "SolrError"@;
    match read_member(root, "error"@, what, "error"@) {
        Err(e) => e,
        Ok(err) => match read_text(err, "msg"@, what, "error.msg"@) {
            Err(e) => e,
            Ok(msg) => match read_int(err, "code"@, what, "error.code"@, i32::MIN as int, i32::MAX as int) {
                Err(e) => e,
                Ok(code) => ErrorView { kind: SolrErrorKind::Server, status: code as i32, time: 0, message: msg },
            },
        },
    }
}

/// The message for a text that `json_text_ok` turns away.
pub open spec fn limits_failure(what: Seq<char>) -> Seq<char> {
    path_message(what, "the reply"@, " is not fit for the parser (too deep, too long a key or exponent, or a comma before a closing brace)"@)
}

/// The tree that `text` parses to, or the decoding error: a text that
/// `json_text_ok` turns away is not given to the parser, and a text that is
/// not JSON fails.
pub open spec fn parsed_reply(text: &str, what: Seq<char>) -> Result<JsonValue, ErrorView> {
    if !json_text_ok(text.spec_bytes()) {
        Err(decode_failure(limits_failure(what)))
    } else {
        match parsed_json(text@) {
            None => Err(decode_failure(parse_failure(what))),
            Some(j) => Ok(j),
        }
    }
}

/// The tree of a parse that succeeded.
pub open spec fn ok_tree(p: Result<JsonValue, ErrorView>) -> Option<JsonValue> {
    match p {
        Ok(j) => Some(j),
        Err(_) => None,
    }
}

/// Decoding of `text` with `outcome`, after parsing.
pub open spec fn text_outcome<T>(
    text: &str,
    what: Seq<char>,
    outcome: spec_fn(JsonValue) -> Result<T, ErrorView>,
) -> Result<T, ErrorView> {
    match parsed_reply(text, what) {
        Err(e) => Err(e),
        Ok(j) => outcome(j),
    }
}

/// The error that an HTTP reply stands for before its body is decoded as
/// a success: a body with an `error` member, or a status other than 200.
pub open spec fn reply_error(http_status: u16, parsed: Option<JsonValue>) -> Option<ErrorView> {
    match parsed {
        Some(j) if member(j, "error"@) is Some => Some(server_error_of(j)),
        _ => if http_status != 200 {
            Some(
                ErrorView {
                    kind: SolrErrorKind::Server,
                    status: http_status as i32,
                    time: 0,
                    message: "HTTP status "@ + decimal(http_status as nat),
                },
            )
        } else {
            None
        },
    }
}

/// `r` is the outcome `o`, viewed.
pub open spec fn result_is<T: View>(r: Result<T, SolrError>, o: Result<T::V, ErrorView>) -> bool {
    match (r, o) {
        (Ok(a), Ok(b)) => a@ == b,
        (Err(a), Err(b)) => a@ == b,
        _ => false,
    }
}

fn message_at(what: &str, path: &str, tail: &str) -> (r: String)
    ensures
        r@ == path_message(what@, path@, tail@),
{
    let mut r = String::from_str(what);
    r.append(" JSON parsing error: ");
    r.append(path);
    r.append(tail);
    r
}

fn decode_error(message: String) -> (e: SolrError)
    ensures
        e@ == decode_failure(message@),
{
    SolrError { kind: SolrErrorKind::Decode, status: 0, time: 0, message: message }
}

fn parse_error(what: &str) -> (e: SolrError)
    ensures
        e@ == decode_failure(parse_failure(what@)),
{
    let mut m = String::from_str(what);
    m.append(" JSON parsing error");
    decode_error(m)
}

/// Parses `text` where `json_text_ok` admits it.
fn parse_reply(text: &str, what: &str) -> (r: Result<JsonValue, SolrError>)
    ensures
        match (r, parsed_reply(text, what@)) {
            (Ok(a), Ok(b)) => a == b,
            (Err(a), Err(b)) => a@ == b,
            _ => false,
        },
{
    if !json_text_within_limits(text.as_bytes()) {
        return Err(decode_error(message_at(what, "the reply", " is not fit for the parser (too deep, too long a key or exponent, or a comma before a closing brace)")));
    }
    match parse_json(text) {
        None => Err(parse_error(what)),
        Some(j) => Ok(j),
    }
}

fn read_member_at<'a>(parent: &'a JsonValue, key: &str, what: &str, path: &str) -> (r: Result<&'a JsonValue, SolrError>)
    ensures
        match (r, read_member(*parent, key@, what@, path@)) {
            (Ok(a), Ok(b)) => *a == b,
            (Err(a), Err(b)) => a@ == b,
            _ => false,
        },
{
    match get_member(parent, key) {
        Some(v) => Ok(v),
        None => Err(decode_error(message_at(what, path, " not found"))),
    }
}

fn read_int_at(parent: &JsonValue, key: &str, what: &str, path: &str, lo: i128, hi: i128) -> (r: Result<i128, SolrError>)
    ensures
        match (r, read_int(*parent, key@, what@, path@, lo as int, hi as int)) {
            (Ok(a), Ok(b)) => a as int == b,
            (Err(a), Err(b)) => a@ == b,
            _ => false,
        },
{
    match get_member(parent, key) {
        None => Err(decode_error(message_at(what, path, " not found"))),
        Some(v) => match get_int(v) {
            Some(n) => if lo <= n && n <= hi {
                Ok(n)
            } else {
                Err(decode_error(message_at(what, path, " has an unexpected value")))
            },
            None => Err(decode_error(message_at(what, path, " has an unexpected value"))),
        },
    }
}

fn read_text_at(parent: &JsonValue, key: &str, what: &str, path: &str) -> (r: Result<String, SolrError>)
    ensures
        match (r, read_text(*parent, key@, what@, path@)) {
            (Ok(a), Ok(b)) => a@ == b,
            (Err(a), Err(b)) => a@ == b,
            _ => false,
        },
{
    match get_member(parent, key) {
        None => Err(decode_error(message_at(what, path, " not found"))),
        Some(v) => match v {
            JsonValue::Str(s) => Ok(s.clone()),
            _ => Err(decode_error(message_at(what, path, " has an unexpected value"))),
        },
    }
}

fn header_at(root: &JsonValue, what: &str) -> (r: Result<(u32, u32), SolrError>)
    ensures
        match (r, header_of(*root, what@)) {
            (Ok(a), Ok(b)) => a == b,
            (Err(a), Err(b)) => a@ == b,
            _ => false,
        },
{
    let rh = match read_member_at(root, "responseHeader", what, "responseHeader") {
        Ok(rh) => rh,
        Err(e) => return Err(e),
    };
    let time = match read_int_at(rh, "QTime", what, "responseHeader.QTime", 0, 0xffff_ffff) {
        Ok(t) => t,
        Err(e) => return Err(e),
    };
    let status = match read_int_at(rh, "status", what, "responseHeader.status", 0, 0xffff_ffff) {
        Ok(s) => s,
        Err(e) => return Err(e),
    };
    Ok((status as u32, time as u32))
}

fn docs_at(rs: &JsonValue, what: &str) -> (r: Result<Vec<SolrDocument>, SolrError>)
    ensures
        match (r, docs_of(*rs, what@)) {
            (Ok(a), Ok(b)) => a@.map_values(|d: SolrDocument| d@) == b,
            (Err(a), Err(b)) => a@ == b,
            _ => false,
        },
{
    let d = match read_member_at(rs, "docs", what, "response.docs") {
        Ok(d) => d,
        Err(e) => return Err(e),
    };
    match d {
        JsonValue::Array(docs) => {
            let mut items: Vec<SolrDocument> = Vec::new();
            let mut i: usize = 0;
            while i < docs.len()
                invariant
                    0 <= i <= docs.len(),
                    items@.len() == i,
                    read_member(*rs, "docs"@, what@, "response.docs"@) == Ok::<JsonValue, ErrorView>(*d),
                    *d == JsonValue::Array(*docs),
                    forall|k: int| 0 <= k < i ==> docs@[k] is Object,
                    forall|k: int| 0 <= k < i ==> items@[k]@ == documents_of(docs@)[k],
                decreases docs.len() - i,
            {
                match SolrDocument::from_json(&docs[i]) {
                    Some(doc) => items.push(doc),
                    None => {
                        assert(!all_objects(docs@));
                        return Err(
                            decode_error(
                                message_at(what, "response.docs", " holds an element that is not a JSON object"),
                            ),
                        );
                    },
                }
                i = i + 1;
            }
            assert(items@.map_values(|d: SolrDocument| d@) =~= documents_of(docs@));
            Ok(items)
        },
        _ => Err(decode_error(message_at(what, "response.docs", " is not a JSON list"))),
    }
}

impl SolrError {
    /// An error for a server that could not be reached.
    pub fn transport(message: &str) -> (e: SolrError)
        ensures
            e@ == (ErrorView { kind: SolrErrorKind::Transport, status: 0, time: 0, message: message@ }),
    {
        SolrError { kind: SolrErrorKind::Transport, status: 0, time: 0, message: message.to_string() }
    }

    /// The error that a server's error reply holds.
    pub fn from_json(root: &JsonValue) -> (e: SolrError)
        ensures
            e@ == server_error_of(*root),
    {
        let what = "SolrError";
        let err = match read_member_at(root, "error", what, "error") {
            Ok(err) => err,
            Err(e) => return e,
        };
        let msg = match read_text_at(err, "msg", what, "error.msg") {
            Ok(m) => m,
            Err(e) => return e,
        };
        match read_int_at(err, "code", what, "error.code", -0x8000_0000, 0x7fff_ffff) {
            Ok(code) => SolrError { kind: SolrErrorKind::Server, status: code as i32, time: 0, message: msg },
            Err(e) => e,
        }
    }

    /// The error that the text of a server's error reply holds.
    pub fn from_json_str(text: &str) -> (e: SolrError)
        ensures
            e@ == match parsed_reply(text, "SolrError"@) {
                Err(e) => e,
                Ok(j) => server_error_of(j),
            },
    {
        match parse_reply(text, "SolrError") {
            Err(e) => e,
            Ok(j) => SolrError::from_json(&j),
        }
    }
}

impl SolrUpdateResponse {
    /// The update reply that a JSON tree holds.
    pub fn from_json(root: &JsonValue) -> (r: SolrUpdateResult)
        ensures
            result_is(r, update_outcome(*root)),
    {
        let what = "SolrUpdateResponse";
        match root {
            JsonValue::Object(_) => {},
            _ => return Err(decode_error(message_at(what, "the reply", " is not a JSON object"))),
        }
        let rh = match read_member_at(root, "responseHeader", what, "responseHeader") {
            Ok(rh) => rh,
            Err(e) => return Err(e),
        };
        let status = match read_int_at(rh, "status", what, "responseHeader.status", -0x8000_0000, 0x7fff_ffff) {
            Ok(s) => s,
            Err(e) => return Err(e),
        };
        let time = match read_int_at(rh, "QTime", what, "responseHeader.QTime", -0x8000_0000, 0x7fff_ffff) {
            Ok(t) => t,
            Err(e) => return Err(e),
        };
        Ok(SolrUpdateResponse { status: status as i32, time: time as i32 })
    }

    /// The update reply that a JSON text holds.
    pub fn from_json_str(text: &str) -> (r: SolrUpdateResult)
        ensures
            result_is(r, text_outcome(text, "SolrUpdateResponse"@, |j: JsonValue| update_outcome(j))),
    {
        match parse_reply(text, "SolrUpdateResponse") {
            Err(e) => Err(e),
            Ok(j) => SolrUpdateResponse::from_json(&j),
        }
    }
}

impl SolrQueryResponse {
    /// The query reply that a JSON tree holds.
    pub fn from_json(root: &JsonValue) -> (r: SolrQueryResult)
        ensures
            result_is(r, query_outcome(*root)),
    {
        let what = "SolrQueryResponse";
        match root {
            JsonValue::Object(_) => {},
            _ => return Err(decode_error(message_at(what, "the reply", " is not a JSON object"))),
        }
        let (status, time) = match header_at(root, what) {
            Ok(h) => h,
            Err(e) => return Err(e),
        };
        let rs = match read_member_at(root, "response", what, "response") {
            Ok(rs) => rs,
            Err(e) => return Err(e),
        };
        let total = match read_int_at(rs, "numFound", what, "response.numFound", 0, 0xffff_ffff_ffff_ffff) {
            Ok(t) => t,
            Err(e) => return Err(e),
        };
        let start = match read_int_at(rs, "start", what, "response.start", 0, 0xffff_ffff_ffff_ffff) {
            Ok(s) => s,
            Err(e) => return Err(e),
        };
        let items = match docs_at(rs, what) {
            Ok(items) => items,
            Err(e) => return Err(e),
        };
        Ok(SolrQueryResponse { status: status, time: time, total: total as u64, start: start as u64, items: items })
    }

    /// The query reply that a JSON text holds.
    pub fn from_json_str(json_str: &str) -> (r: SolrQueryResult)
        ensures
            result_is(r, text_outcome(json_str, "SolrQueryResponse"@, |j: JsonValue| query_outcome(j))),
    {
        match parse_reply(json_str, "SolrQueryResponse") {
            Err(e) => Err(e),
            Ok(j) => SolrQueryResponse::from_json(&j),
        }
    }
}

impl SolrPingResponse {
    /// The ping reply that a JSON tree holds.
    pub fn from_json(root: &JsonValue) -> (r: SolrPingResult)
        ensures
            result_is(r, ping_outcome(*root)),
    {
        let what = "SolrPingResponse";
        match root {
            JsonValue::Object(_) => {},
            _ => return Err(decode_error(message_at(what, "the reply", " is not a JSON object"))),
        }
        let ping_status = match read_text_at(root, "status", what, "status") {
            Ok(s) => s,
            Err(e) => return Err(e),
        };
        let (status, time) = match header_at(root, what) {
            Ok(h) => h,
            Err(e) => return Err(e),
        };
        Ok(SolrPingResponse { status: status, time: time, ping_status: ping_status })
    }

    /// The ping reply that a JSON text holds.
    pub fn from_json_str(json_str: &str) -> (r: SolrPingResult)
        ensures
            result_is(r, text_outcome(json_str, "SolrPingResponse"@, |j: JsonValue| ping_outcome(j))),
    {
        match parse_reply(json_str, "SolrPingResponse") {
            Err(e) => Err(e),
            Ok(j) => SolrPingResponse::from_json(&j),
        }
    }
}

/// The error that an HTTP reply stands for before its body is decoded as
/// a success.
fn check_reply(http_status: u16, parsed: Option<&JsonValue>) -> (r: Option<SolrError>)
    ensures
        match (
            r,
            reply_error(
                http_status,
                match parsed {
                    Some(j) => Some(*j),
                    None => None,
                },
            ),
        ) {
            (Some(a), Some(b)) => a@ == b,
            (None, None) => true,
            _ => false,
        },
{
    if let Some(j) = parsed {
        if get_member(j, "error").is_some() {
            return Some(SolrError::from_json(j));
        }
    }
    if http_status != 200 {
        let mut m = String::from_str("HTTP status ");
        let digits = u64_to_decimal(http_status as u64);
        m.append(digits.as_str());
        Some(SolrError { kind: SolrErrorKind::Server, status: http_status as i32, time: 0, message: m })
    } else {
        None
    }
}

/// The result of an update request from the HTTP status and body of its
/// reply: a server error where the reply reports one, else the decoded body.
pub fn handle_http_update_result(http_status: u16, body: &str) -> (r: SolrUpdateResult)
    ensures
        match reply_error(http_status, ok_tree(parsed_reply(body, "SolrUpdateResponse"@))) {
            Some(e) => r is Err && r->Err_0@ == e,
            None => result_is(r, text_outcome(body, "SolrUpdateResponse"@, |j: JsonValue| update_outcome(j))),
        },
{
    let parsed = parse_reply(body, "SolrUpdateResponse");
    let found = match &parsed {
        Ok(j) => Some(j),
        Err(_) => None,
    };
    match check_reply(http_status, found) {
        Some(e) => Err(e),
        None => match parsed {
            Err(e) => Err(e),
            Ok(j) => SolrUpdateResponse::from_json(&j),
        },
    }
}

/// The result of a query from the HTTP status and body of its reply: a
/// server error where the reply reports one, else the decoded body.
pub fn handle_http_query_result(http_status: u16, body: &str) -> (r: SolrQueryResult)
    ensures
        match reply_error(http_status, ok_tree(parsed_reply(body, "SolrQueryResponse"@))) {
            Some(e) => r is Err && r->Err_0@ == e,
            None => result_is(r, text_outcome(body, "SolrQueryResponse"@, |j: JsonValue| query_outcome(j))),
        },
{
    let parsed = parse_reply(body, "SolrQueryResponse");
    let found = match &parsed {
        Ok(j) => Some(j),
        Err(_) => None,
    };
    match check_reply(http_status, found) {
        Some(e) => Err(e),
        None => match parsed {
            Err(e) => Err(e),
            Ok(j) => SolrQueryResponse::from_json(&j),
        },
    }
}

/// The result of a ping from the HTTP status and body of its reply: a
/// server error where the reply reports one, else the decoded body.
pub fn handle_http_ping_result(http_status: u16, body: &str) -> (r: SolrPingResult)
    ensures
        match reply_error(http_status, ok_tree(parsed_reply(body, "SolrPingResponse"@))) {
            Some(e) => r is Err && r->Err_0@ == e,
            None => result_is(r, text_outcome(body, "SolrPingResponse"@, |j: JsonValue| ping_outcome(j))),
        },
{
    let parsed = parse_reply(body, "SolrPingResponse");
    let found = match &parsed {
        Ok(j) => Some(j),
        Err(_) => None,
    };
    match check_reply(http_status, found) {
        Some(e) => Err(e),
        None => match parsed {
            Err(e) => Err(e),
            Ok(j) => SolrPingResponse::from_json(&j),
        },
    }
}

/// A query reply without `response.docs` decodes to an error, never to an
/// empty page; where everything read before it is well formed, the error
/// names that member.
pub proof fn lemma_missing_docs_is_error(root: JsonValue, rs: JsonValue)
    requires
        member(root, "response"@) == Some(rs),
        member(rs, "docs"@) is None,
    ensures
        query_outcome(root) is Err,
        root is Object && header_of(root, "SolrQueryResponse"@) is Ok
            && read_int(rs, "numFound"@, "SolrQueryResponse"@, "response.numFound"@, 0, u64::MAX as int) is Ok
            && read_int(rs, "start"@, "SolrQueryResponse"@, "response.start"@, 0, u64::MAX as int) is Ok
            ==> query_outcome(root) == Err::<QueryResponseView, ErrorView>(
            decode_failure(not_found("SolrQueryResponse"@, "response.docs"@)),
        ),
{
}

} // verus!
