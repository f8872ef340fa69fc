//! What can go wrong between the gateway and upstream, and how it is reported.

use crate::triton::ServingStatus;
use vstd::prelude::*;

verus! {

/// A failure of the gateway. Failures met while serving a request become an
/// error response; the same failures met while starting stop the process.
#[derive(Clone, Debug, PartialEq, Eq)]
pub enum AppError {
    /// Upstream could not be reached: no channel could be established, or a
    /// call failed in transport. `cause` is what the transport reported.
    UpstreamUnreachable { cause: String },
    /// Upstream answered with a status number outside the enumeration.
    UpstreamProtocolError { code: i32 },
    /// Upstream answered with a known status other than `Serving`.
    UpstreamUnhealthy { status: ServingStatus },
    /// The history collaborator could not render the conversation.
    RenderError { cause: String },
    /// The configuration names no usable upstream address.
    ConfigurationFatal { cause: String },
}

/// An [`AppError`] with its texts as sequences of characters.
pub enum AppErrorView {
    UpstreamUnreachable { cause: Seq<char> },
    UpstreamProtocolError { code: int },
    UpstreamUnhealthy { status: ServingStatus },
    RenderError { cause: Seq<char> },
    ConfigurationFatal { cause: Seq<char> },
}

impl View for AppError {
    type V = AppErrorView;

    open spec fn view(&self) -> AppErrorView {
        match *self {
            AppError::UpstreamUnreachable { cause } => AppErrorView::UpstreamUnreachable {
                cause: cause@,
            },
            AppError::UpstreamProtocolError { code } => AppErrorView::UpstreamProtocolError {
                code: code as int,
            },
            AppError::UpstreamUnhealthy { status } => AppErrorView::UpstreamUnhealthy { status },
            AppError::RenderError { cause } => AppErrorView::RenderError { cause: cause@ },
            AppError::ConfigurationFatal { cause } => AppErrorView::ConfigurationFatal {
                cause: cause@,
            },
        }
    }
}

impl AppErrorView {
    /// The diagnostic that a client reads for this failure.
    pub open spec fn reason(self) -> Seq<char> {
        match self {
            AppErrorView::UpstreamUnreachable { cause } => cause,
            AppErrorView::UpstreamProtocolError { code } => "invalid status code"@,
            AppErrorView::UpstreamUnhealthy { status } => "unhealthy upstream. health status: "@
                + status.wire_name() + "["@ + status.variant_name() + "]"@,
            AppErrorView::RenderError { cause } => cause,
            AppErrorView::ConfigurationFatal { cause } => cause,
        }
    }
}

impl AppError {
    /// The diagnostic that a client reads for this failure.
    pub fn reason(&self) -> (text: String)
        ensures
            text@ == self@.reason(),
    {
        match self {
            AppError::UpstreamUnreachable { cause } => cause.clone(),
            AppError::UpstreamProtocolError { code: _ } => String::from_str("invalid status code"),
            AppError::UpstreamUnhealthy { status } => {
                let mut text = String::from_str("unhealthy upstream. health status: ");
                text.append(status.as_str_name());
                text.append("[");
                text.append(status.as_variant_name());
                text.append("]");
                text
            },
            AppError::RenderError { cause } => cause.clone(),
            AppError::ConfigurationFatal { cause } => cause.clone(),
        }
    }
}

/// The HTTP status of a response that reports success.
pub const STATUS_OK: u16 = 200;

/// The HTTP status of a response that reports a failure of the gateway.
pub const STATUS_INTERNAL_SERVER_ERROR: u16 = 500;

/// What the HTTP reply to a request without a payload consists of, as status
/// and body: success is `200` with an empty body, a failure is `500` with the
/// diagnostic as the body.
pub open spec fn reply_of(outcome: Result<(), AppErrorView>) -> (int, Seq<char>) {
    match outcome {
        Ok(_) => (STATUS_OK as int, Seq::empty()),
        Err(error) => (STATUS_INTERNAL_SERVER_ERROR as int, error.reason()),
    }
}

/// The outcome of a check, with the error as its view.
pub open spec fn outcome_view(outcome: Result<(), AppError>) -> Result<(), AppErrorView> {
    match outcome {
        Ok(_) => Ok(()),
        Err(error) => Err(error@),
    }
}

/// Status and body of the HTTP reply that reports `outcome`.
pub fn into_reply(outcome: &Result<(), AppError>) -> (reply: (u16, String))
    ensures
        (reply.0 as int, reply.1@) == reply_of(outcome_view(*outcome)),
{
    match outcome {
        Ok(_) => (STATUS_OK, String::new()),
        Err(error) => (STATUS_INTERNAL_SERVER_ERROR, error.reason()),
    }
}

/// A failure that upstream itself reported, by an unknown status number or by
/// a status other than `Serving`, always comes with a diagnostic that is not
/// empty.
pub proof fn lemma_reported_failure_has_reason(error: AppErrorView)
    requires
        error is UpstreamProtocolError || error is UpstreamUnhealthy,
    ensures
        error.reason().len() > 0,
{
    reveal_strlit("invalid status code");
    reveal_strlit("]");
}

} // verus!
