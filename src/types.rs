//! Envelopes of Polygon.io responses.
use vstd::prelude::*;

verus! {

/// A response envelope: metadata around the payload `data`.
#[derive(Debug, Clone)]
pub struct ApiResponse<T> {
    pub status: Option<String>,
    pub request_id: Option<String>,
    pub data: T,
    pub next_url: Option<String>,
    pub count: Option<i64>,
}

/// The body of an error response.
#[derive(Debug, Clone)]
pub struct ErrorResponse {
    pub status: Option<String>,
    pub request_id: Option<String>,
    pub error: Option<String>,
    pub message: Option<String>,
}

/// A payload holding a list of results.
#[derive(Debug, Clone)]
pub struct ResultsWrapper<T> {
    pub results: Vec<T>,
}

/// A payload holding one result.
#[derive(Debug, Clone)]
pub struct SingleResult<T> {
    pub result: T,
}

/// The text an error body reports: `error`, else `message`, else "Unknown error".
pub open spec fn error_text(e: ErrorResponse) -> Seq<char> {
    match e.error {
        Some(s) => s@,
        None => match e.message {
            Some(m) => m@,
            None => "Unknown error"@,
        },
    }
}

impl ErrorResponse {
    /// The error's text: `error`, else `message`, else "Unknown error".
    pub fn message(&self) -> (r: String)
        ensures
            r@ == error_text(*self),
    {
        match &self.error {
            Some(s) => s.clone(),
            None => match &self.message {
                Some(m) => m.clone(),
                None => "Unknown error".to_owned(),
            },
        }
    }
}

/// The bar size of an aggregate query.
#[derive(Debug, Clone, Copy, PartialEq, Eq)]
pub enum Timespan {
    Second,
    Minute,
    Hour,
    Day,
    Week,
    Month,
    Quarter,
    Year,
}

/// The name of a timespan in API paths.
pub open spec fn timespan_name(t: Timespan) -> Seq<char> {
    match t {
        Timespan::Second => "second"@,
        Timespan::Minute => "minute"@,
        Timespan::Hour => "hour"@,
        Timespan::Day => "day"@,
        Timespan::Week => "week"@,
        Timespan::Month => "month"@,
        Timespan::Quarter => "quarter"@,
        Timespan::Year => "year"@,
    }
}

impl Timespan {
    /// The name used in API paths.
    pub fn as_str(&self) -> (r: &'static str)
        ensures
            r@ == timespan_name(*self),
    {
        match self {
            Timespan::Second => "second",
            Timespan::Minute => "minute",
            Timespan::Hour => "hour",
            Timespan::Day => "day",
            Timespan::Week => "week",
            Timespan::Month => "month",
            Timespan::Quarter => "quarter",
            Timespan::Year => "year",
        }
    }
}

} // verus!
