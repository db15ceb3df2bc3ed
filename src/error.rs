use vstd::prelude::*;

verus! {

/// Failures that the library itself detects.
#[derive(Debug, Clone, Copy, PartialEq, Eq, Structural)]
pub enum AppError {
    /// A reply to a read request carried no `data` value.
    MissingData,
    /// The configured UTC offset cannot form a fixed time zone.
    TimezoneConstruct,
    /// Local midday of the current day has no representable instant.
    MiddayConstruct,
    /// A sunrise or sunset timestamp lies outside the representable range.
    TimestampParse,
}

impl AppError {
    /// The human-readable description of the failure.
    pub fn message(&self) -> (r: String)
        ensures
            r@ == self.message_spec(),
    {
        match self {
            AppError::MissingData => "Missing data key in json response".to_owned(),
            AppError::TimezoneConstruct => "Cannot construct FixedOffset timezone".to_owned(),
            AppError::MiddayConstruct => "Cannot construct midday DateTime".to_owned(),
            AppError::TimestampParse => "Cannot construct NaiveDateTime from timestamp".to_owned(),
        }
    }

    pub open spec fn message_spec(&self) -> Seq<char> {
        match self {
            AppError::MissingData => "Missing data key in json response"@,
            AppError::TimezoneConstruct => "Cannot construct FixedOffset timezone"@,
            AppError::MiddayConstruct => "Cannot construct midday DateTime"@,
            AppError::TimestampParse => "Cannot construct NaiveDateTime from timestamp"@,
        }
    }
}

/// Every failure that the library reports.
#[derive(Debug)]
pub enum Error {
    /// A failure detected by the library's own logic.
    App(AppError),
    /// The server address is not a valid URL.
    Url(url::ParseError),
}

impl From<AppError> for Error {
    fn from(error: AppError) -> (r: Error)
        ensures
            r == Error::App(error),
    {
        Error::App(error)
    }
}

impl vstd::std_specs::convert::FromSpecImpl<AppError> for Error {
    open spec fn obeys_from_spec() -> bool {
        true
    }

    open spec fn from_spec(v: AppError) -> Error {
        Error::App(v)
    }
}

} // verus!
