//! A client library for a document-search server: an immutable query builder
//! that lowers to URL parameters, JSON encoders for documents and delete
//! requests, and tolerant decoders for the server's JSON replies.

pub mod document;
pub mod json;
pub mod query;
pub mod request;
pub mod response;
pub mod text;

pub use document::{SolrDocument, SolrField, SolrValue};
pub use query::{SolrQuery, SortClause, SortOrder, ToUrlParam};
pub use request::SolrDeleteRequest;
pub use response::{SolrError, SolrErrorKind, SolrPingResponse, SolrQueryResponse, SolrUpdateResponse};
