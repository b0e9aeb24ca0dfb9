//! Errors that carry an HTTP status.

use vstd::prelude::*;

verus! {

/// `eyre::Report`, carried as it comes.
#[verifier::external_type_specification]
#[verifier::external_body]
pub struct ExReport(eyre::Report);

/// An HTTP status code: a number from 100 to 999.
#[derive(Clone, Copy, Debug, PartialEq, Eq, Structural)]
pub struct StatusCode {
    code: u16,
}

impl StatusCode {
    /// Every status is a number from 100 to 999.
    #[verifier::type_invariant]
    spec fn in_range(self) -> bool {
        100 <= self.code <= 999
    }

    /// The number of the status.
    pub closed spec fn number(self) -> u16 {
        self.code
    }

    /// The status with the number `code`, if that is a number from 100 to
    /// 999.
    pub fn from_u16(code: u16) -> (status: Option<StatusCode>)
        ensures
            100 <= code <= 999 ==> status is Some && status->0.number() == code,
            !(100 <= code <= 999) ==> status is None,
    {
        if 100 <= code && code <= 999 {
            Some(StatusCode { code })
        } else {
            None
        }
    }

    /// The number of the status.
    pub fn as_u16(&self) -> (code: u16)
        ensures
            code == self.number(),
            100 <= code <= 999,
    {
        proof {
            use_type_invariant(self);
        }
        self.code
    }

    /// 500 Internal Server Error.
    pub fn internal_server_error() -> (status: StatusCode)
        ensures
            status.number() == 500,
    {
        StatusCode { code: 500 }
    }
}

/// An error with an HTTP status, as handlers and middleware report it.
pub trait HttpError {
    /// The status that belongs to the error; 500 unless the error says
    /// otherwise.
    fn status(&self) -> (status: StatusCode)
        default_ensures
            status.number() == 500,
    {
        StatusCode::internal_server_error()
    }

    /// The report in words.
    fn to_string(&self) -> String;
}

/// `eyre::Report::msg`: a report made from the message. Nothing is claimed
/// of the report: how a report displays is up to the handler that the
/// process has installed.
#[verifier::external_body]
fn report_msg(message: String) -> eyre::Report {
    eyre::Report::msg(message)
}

/// An error report together with the HTTP status to answer with.
#[derive(Debug)]
pub struct HttpFailure {
    inner: eyre::Report,
    status: StatusCode,
}

impl HttpFailure {
    /// The report that is carried.
    pub closed spec fn report(&self) -> eyre::Report {
        self.inner
    }

    /// The status to answer with.
    pub closed spec fn status_spec(&self) -> StatusCode {
        self.status
    }

    /// A failure with a message of its own, answered with 500.
    pub fn msg(message: &str) -> (failure: HttpFailure)
        ensures
            failure.status_spec().number() == 500,
    {
        HttpFailure { inner: report_msg(message.to_owned()), status: StatusCode::internal_server_error() }
    }

    /// A failure that carries `report`, answered with 500.
    pub fn new(report: eyre::Report) -> (failure: HttpFailure)
        ensures
            failure.report() == report,
            failure.status_spec().number() == 500,
    {
        HttpFailure { inner: report, status: StatusCode::internal_server_error() }
    }

    /// The report that was carried.
    pub fn into_inner(self) -> (report: eyre::Report)
        ensures
            report == self.report(),
    {
        self.inner
    }

    /// Sets the status to answer with.
    pub fn set_status(self, status: StatusCode) -> (failure: HttpFailure)
        ensures
            failure.report() == self.report(),
            failure.status_spec() == status,
    {
        let mut failure = self;
        failure.status = status;
        failure
    }

    /// The status to answer with.
    pub fn status(&self) -> (status: StatusCode)
        ensures
            status == self.status_spec(),
    {
        self.status
    }

    /// The report in words: what the carried report displays.
    pub fn to_string(&self) -> (text: String)
        ensures
            vstd::string::to_string_from_display_ensures::<eyre::Report>(&self.report(), text),
    {
        self.inner.to_string()
    }
}

/// Turns what may have failed into a result whose error carries a status.
pub trait ResultExt<T> {
    /// Keeps a success, and gives a failure the status `status`.
    fn status(self, status: StatusCode) -> Result<T, HttpFailure>;
}

impl<T, E: Into<eyre::Report>> ResultExt<T> for Result<T, E> {
    fn status(self, status: StatusCode) -> (out: Result<T, HttpFailure>)
        ensures
            match self {
                Ok(value) => out is Ok && out->Ok_0 == value,
                Err(error) => out is Err && out->Err_0.status_spec() == status && call_ensures(
                    E::into,
                    (error,),
                    out->Err_0.report(),
                ),
            },
    {
        match self {
            Ok(value) => Ok(value),
            Err(error) => Err(HttpFailure::new(error.into()).set_status(status)),
        }
    }
}

impl<T> ResultExt<T> for Option<T> {
    fn status(self, status: StatusCode) -> (out: Result<T, HttpFailure>)
        ensures
            match self {
                Some(value) => out is Ok && out->Ok_0 == value,
                None => out is Err && out->Err_0.status_spec() == status,
            },
    {
        match self {
            Some(value) => Ok(value),
            None => Err(HttpFailure::msg("None value").set_status(status)),
        }
    }
}

} // verus!
