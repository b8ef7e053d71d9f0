//! Checks on what a client may ask for.
use vstd::prelude::*;
use vstd::string::*;
use crate::domain::{ApiError, ApiErrorView};
use crate::json::{json_elements, json_is_object};
use crate::text::{lowercased, same_text};

verus! {

/// Smallest page size a listing request may ask for.
pub const MIN_LIMIT: i64 = 1;

/// Largest page size a listing request may ask for.
pub const MAX_LIMIT: i64 = 1000;

/// Page size used when the request names none.
pub const DEFAULT_LIMIT: i64 = 20;

/// The space-science feeds whose latest report can be asked for.
#[derive(Clone, Copy, Debug, PartialEq, Eq, Structural)]
pub enum SpaceSource {
    Apod,
    Neo,
    Flr,
    Cme,
    Spacex,
}

/// The feed that a lowercase name stands for.
pub open spec fn source_named(name: Seq<char>) -> Option<SpaceSource> {
    if name == "apod"@ {
        Some(SpaceSource::Apod)
    } else if name == "neo"@ {
        Some(SpaceSource::Neo)
    } else if name == "flr"@ {
        Some(SpaceSource::Flr)
    } else if name == "cme"@ {
        Some(SpaceSource::Cme)
    } else if name == "spacex"@ {
        Some(SpaceSource::Spacex)
    } else {
        None
    }
}

impl SpaceSource {
    /// The name under which the feed's reports are stored.
    pub open spec fn spec_name(self) -> Seq<char> {
        match self {
            SpaceSource::Apod => "apod"@,
            SpaceSource::Neo => "neo"@,
            SpaceSource::Flr => "flr"@,
            SpaceSource::Cme => "cme"@,
            SpaceSource::Spacex => "spacex"@,
        }
    }

    pub fn name(self) -> (r: &'static str)
        ensures
            r@ == self.spec_name(),
    {
        match self {
            SpaceSource::Apod => "apod",
            SpaceSource::Neo => "neo",
            SpaceSource::Flr => "flr",
            SpaceSource::Cme => "cme",
            SpaceSource::Spacex => "spacex",
        }
    }

    /// Looks a feed up by its exact, lowercase name.
    pub fn from_name(name: &str) -> (r: Option<SpaceSource>)
        ensures
            r == source_named(name@),
    {
        if same_text(name, "apod") {
            Some(SpaceSource::Apod)
        } else if same_text(name, "neo") {
            Some(SpaceSource::Neo)
        } else if same_text(name, "flr") {
            Some(SpaceSource::Flr)
        } else if same_text(name, "cme") {
            Some(SpaceSource::Cme)
        } else if same_text(name, "spacex") {
            Some(SpaceSource::Spacex)
        } else {
            None
        }
    }
}

pub open spec fn limit_or_default(limit: Option<i64>) -> i64 {
    match limit {
        Some(n) => n,
        None => DEFAULT_LIMIT,
    }
}

pub open spec fn limit_in_range(n: i64) -> bool {
    MIN_LIMIT <= n <= MAX_LIMIT
}

/// A source is accepted when its name, whatever its case, is one of the feeds.
pub open spec fn source_allowed(source: Seq<char>) -> bool {
    source_named(lowercased(source)).is_some()
}

pub struct Validator;

impl Validator {
    /// Accepts a page size from 1 to 1000 and hands it back; a request
    /// without one gets 20. Anything else is a validation error.
    pub fn validate_limit(limit: Option<i64>) -> (res: Result<i64, ApiError>)
        ensures
            limit_in_range(limit_or_default(limit)) ==> res == Ok::<i64, ApiError>(
                limit_or_default(limit),
            ),
            !limit_in_range(limit_or_default(limit)) ==> (res matches Err(e) && e@
                == ApiErrorView::Validation("limit must be between 1 and 1000"@)),
    {
        let n: i64 = match limit {
            Some(n) => n,
            None => DEFAULT_LIMIT,
        };
        if n < MIN_LIMIT || n > MAX_LIMIT {
            return Err(ApiError::Validation(String::from_str("limit must be between 1 and 1000")));
        }
        Ok(n)
    }

    /// Accepts the name of a space-science feed in any case; any other name
    /// is a validation error whose message lists the names allowed.
    pub fn validate_source(source: &str) -> (res: Result<(), ApiError>)
        ensures
            source_allowed(source@) ==> res.is_ok(),
            !source_allowed(source@) ==> (res matches Err(e) && e@ == ApiErrorView::Validation(
                "source must be one of: apod, neo, flr, cme, spacex"@,
            )),
    {
        let lower = crate::text::lowercase(source);
        match SpaceSource::from_name(lower.as_str()) {
            Some(_) => Ok(()),
            None => Err(
                ApiError::Validation(
                    String::from_str("source must be one of: apod, neo, flr, cme, spacex"),
                ),
            ),
        }
    }

    /// Accepts a payload that is a JSON object or a JSON array.
    pub fn validate_json_payload(payload: &serde_json::Value) -> (res: Result<(), ApiError>)
        ensures
            (json_is_object(*payload) || json_elements(*payload).is_some()) ==> res.is_ok(),
            !(json_is_object(*payload) || json_elements(*payload).is_some()) ==> (res matches Err(
                e,
            ) && e@ == ApiErrorView::Validation("payload must be a JSON object or array"@)),
    {
        if !crate::json::is_object(payload) && crate::json::elements(payload).is_none() {
            return Err(
                ApiError::Validation(String::from_str("payload must be a JSON object or array")),
            );
        }
        Ok(())
    }
}

} // verus!
