use vstd::prelude::*;

verus! {

/// The unit size of one aggregation window.
#[derive(Clone, Copy, Debug, PartialEq, Eq, Structural)]
pub enum Timespan {
    Second,
    Minute,
    Hour,
    Day,
    Week,
    Month,
    Quarter,
    Year,
}

impl Timespan {
    /// The word the endpoint expects for this unit, in lower case.
    pub open spec fn text(self) -> Seq<char> {
        match self {
            Timespan::Second => "second"@,
            Timespan::Minute => "minute"@,
            Timespan::Hour => "hour"@,
            Timespan::Day => "day"@,
            Timespan::Week => "week"@,
            Timespan::Month => "month"@,
            Timespan::Quarter => "quarter"@,
            Timespan::Year => "year"@,
        }
    }

    pub fn as_str(&self) -> (r: &'static str)
        ensures
            r@ == self.text(),
    {
        match self {
            Timespan::Second => "second",
            Timespan::Minute => "minute",
            Timespan::Hour => "hour",
            Timespan::Day => "day",
            Timespan::Week => "week",
            Timespan::Month => "month",
            Timespan::Quarter => "quarter",
            Timespan::Year => "year",
        }
    }
}

/// The order in which the server returns the bars.
#[derive(Clone, Copy, Debug, PartialEq, Eq, Structural)]
pub enum Sort {
    Asc,
    Desc,
}

impl Sort {
    pub open spec fn text(self) -> Seq<char> {
        match self {
            Sort::Asc => "asc"@,
            Sort::Desc => "desc"@,
        }
    }

    pub fn as_str(&self) -> (r: &'static str)
        ensures
            r@ == self.text(),
    {
        match self {
            Sort::Asc => "asc",
            Sort::Desc => "desc",
        }
    }
}

/// How the secret reaches the server: inside the URL as `apiKey`, or in an
/// `Authorization: Bearer` header.
#[derive(Clone, Copy, Debug, PartialEq, Eq, Structural)]
pub enum AuthMode {
    InlineKey,
    HeaderBearer,
}

/// Input that cannot make a request.
#[derive(Clone, Copy, Debug, PartialEq, Eq, Structural)]
pub enum ConfigError {
    EmptyTicker,
    ZeroMultiplier,
    EmptySecret,
}

/// One query of the aggregates endpoint. `from` and `to` are `YYYY-MM-DD`
/// dates, passed through as given.
#[derive(Clone, Debug)]
pub struct QueryParams {
    pub ticker: String,
    pub multiplier: u32,
    pub timespan: Timespan,
    pub from: String,
    pub to: String,
    pub adjusted: bool,
    pub sort: Sort,
}

/// The first rule that the query and the secret break, checked in the order
/// ticker, multiplier, secret; `None` when they make a request.
pub open spec fn config_problem(q: QueryParams, secret: Seq<char>) -> Option<ConfigError> {
    if q.ticker@.len() == 0 {
        Some(ConfigError::EmptyTicker)
    } else if q.multiplier == 0 {
        Some(ConfigError::ZeroMultiplier)
    } else if secret.len() == 0 {
        Some(ConfigError::EmptySecret)
    } else {
        None
    }
}

/// Checks the query and the secret before anything is built from them.
pub fn validate(q: &QueryParams, secret: &str) -> (r: Result<(), ConfigError>)
    ensures
        r is Ok <==> config_problem(*q, secret@) is None,
        r is Err ==> config_problem(*q, secret@) == Some(r->Err_0),
{
    if q.ticker.as_str().is_empty() {
        Err(ConfigError::EmptyTicker)
    } else if q.multiplier == 0 {
        Err(ConfigError::ZeroMultiplier)
    } else if secret.is_empty() {
        Err(ConfigError::EmptySecret)
    } else {
        Ok(())
    }
}

} // verus!
