//! The records the service stores and the errors it reports.
use vstd::prelude::*;
use vstd::string::*;
use crate::time::Timestamp;

verus! {

/// One stored satellite position report.
#[derive(Debug, Clone)]
pub struct IssFetchLog {
    pub id: i64,
    pub fetched_at: Timestamp,
    pub source_url: String,
    pub payload: serde_json::Value,
}

/// One catalog dataset, kept once per natural key.
#[derive(Debug, Clone)]
pub struct OsdrItem {
    pub id: i64,
    pub dataset_id: Option<String>,
    pub title: Option<String>,
    pub status: Option<String>,
    pub updated_at: Option<Timestamp>,
    pub inserted_at: Timestamp,
    pub raw: serde_json::Value,
}

/// One stored report of a space-science feed.
#[derive(Debug, Clone)]
pub struct SpaceCache {
    pub id: i64,
    pub source: String,
    pub fetched_at: Timestamp,
    pub payload: serde_json::Value,
}

/// The characters of an optional text.
pub open spec fn opt_view(s: Option<String>) -> Option<Seq<char>> {
    match s {
        Some(t) => Some(t@),
        None => None,
    }
}

/// The characters of an optional borrowed text.
pub open spec fn opt_str_view(s: Option<&str>) -> Option<Seq<char>> {
    match s {
        Some(t) => Some(t@),
        None => None,
    }
}

/// A copy of an optional text that owns its characters.
pub fn owned_text(s: Option<&str>) -> (r: Option<String>)
    ensures
        opt_view(r) == opt_str_view(s),
{
    match s {
        Some(t) => Some(String::from_str(t)),
        None => None,
    }
}

/// An optional text, borrowed.
pub fn borrowed_text(s: &Option<String>) -> (r: Option<&str>)
    ensures
        opt_str_view(r) == opt_view(*s),
{
    match s {
        Some(t) => Some(t.as_str()),
        None => None,
    }
}

pub struct IssFetchLogView {
    pub id: i64,
    pub fetched_at: Timestamp,
    pub source_url: Seq<char>,
    pub payload: serde_json::Value,
}

pub struct OsdrItemView {
    pub id: i64,
    pub dataset_id: Option<Seq<char>>,
    pub title: Option<Seq<char>>,
    pub status: Option<Seq<char>>,
    pub updated_at: Option<Timestamp>,
    pub inserted_at: Timestamp,
    pub raw: serde_json::Value,
}

pub struct SpaceCacheView {
    pub id: i64,
    pub source: Seq<char>,
    pub fetched_at: Timestamp,
    pub payload: serde_json::Value,
}

impl View for IssFetchLog {
    type V = IssFetchLogView;

    open spec fn view(&self) -> IssFetchLogView {
        IssFetchLogView {
            id: self.id,
            fetched_at: self.fetched_at,
            source_url: self.source_url@,
            payload: self.payload,
        }
    }
}

impl View for OsdrItem {
    type V = OsdrItemView;

    open spec fn view(&self) -> OsdrItemView {
        OsdrItemView {
            id: self.id,
            dataset_id: opt_view(self.dataset_id),
            title: opt_view(self.title),
            status: opt_view(self.status),
            updated_at: self.updated_at,
            inserted_at: self.inserted_at,
            raw: self.raw,
        }
    }
}

impl View for SpaceCache {
    type V = SpaceCacheView;

    open spec fn view(&self) -> SpaceCacheView {
        SpaceCacheView {
            id: self.id,
            source: self.source@,
            fetched_at: self.fetched_at,
            payload: self.payload,
        }
    }
}

/// What can go wrong while serving a request or running an ingestion cycle.
#[derive(Debug)]
pub enum ApiError {
    /// The backing store failed; the text is its report.
    Database(String),
    /// A feed could not be fetched; the text is the transport's report.
    Http(String),
    /// The client sent a malformed parameter.
    Validation(String),
    NotFound,
    Internal(String),
}

pub enum ApiErrorView {
    Database(Seq<char>),
    Http(Seq<char>),
    Validation(Seq<char>),
    NotFound,
    Internal(Seq<char>),
}

impl View for ApiError {
    type V = ApiErrorView;

    open spec fn view(&self) -> ApiErrorView {
        match self {
            ApiError::Database(m) => ApiErrorView::Database(m@),
            ApiError::Http(m) => ApiErrorView::Http(m@),
            ApiError::Validation(m) => ApiErrorView::Validation(m@),
            ApiError::NotFound => ApiErrorView::NotFound,
            ApiError::Internal(m) => ApiErrorView::Internal(m@),
        }
    }
}

/// The HTTP status that answers each error.
pub open spec fn status_of(e: ApiErrorView) -> u16 {
    match e {
        ApiErrorView::Database(_) => 500,
        ApiErrorView::Http(_) => 502,
        ApiErrorView::Validation(_) => 400,
        ApiErrorView::NotFound => 404,
        ApiErrorView::Internal(_) => 500,
    }
}

/// The text placed in the `error` field of the response body.
pub open spec fn body_message_of(e: ApiErrorView) -> Seq<char> {
    match e {
        ApiErrorView::Database(m) => "Database error: "@ + m,
        ApiErrorView::Http(m) => "HTTP error: "@ + m,
        ApiErrorView::Validation(m) => "Validation error: "@ + m,
        ApiErrorView::NotFound => "Resource not found"@,
        ApiErrorView::Internal(m) => m,
    }
}

/// The one-line description of an error, as written to the log.
pub open spec fn description_of(e: ApiErrorView) -> Seq<char> {
    match e {
        ApiErrorView::Database(m) => "Database error: "@ + m,
        ApiErrorView::Http(m) => "HTTP client error: "@ + m,
        ApiErrorView::Validation(m) => "Validation error: "@ + m,
        ApiErrorView::NotFound => "Not found"@,
        ApiErrorView::Internal(m) => "Internal error: "@ + m,
    }
}

impl ApiError {
    pub fn status_code(&self) -> (code: u16)
        ensures
            code == status_of(self@),
    {
        match self {
            ApiError::Database(_) => 500,
            ApiError::Http(_) => 502,
            ApiError::Validation(_) => 400,
            ApiError::NotFound => 404,
            ApiError::Internal(_) => 500,
        }
    }

    pub fn body_message(&self) -> (msg: String)
        ensures
            msg@ == body_message_of(self@),
    {
        match self {
            ApiError::Database(m) => String::from_str("Database error: ").concat(m.as_str()),
            ApiError::Http(m) => String::from_str("HTTP error: ").concat(m.as_str()),
            ApiError::Validation(m) => String::from_str("Validation error: ").concat(m.as_str()),
            ApiError::NotFound => String::from_str("Resource not found"),
            ApiError::Internal(m) => m.clone(),
        }
    }

    pub fn description(&self) -> (msg: String)
        ensures
            msg@ == description_of(self@),
    {
        match self {
            ApiError::Database(m) => String::from_str("Database error: ").concat(m.as_str()),
            ApiError::Http(m) => String::from_str("HTTP client error: ").concat(m.as_str()),
            ApiError::Validation(m) => String::from_str("Validation error: ").concat(m.as_str()),
            ApiError::NotFound => String::from_str("Not found"),
            ApiError::Internal(m) => String::from_str("Internal error: ").concat(m.as_str()),
        }
    }
}

} // verus!
