//! The health route: is upstream fit to serve?
//!
//! A check runs in two steps around one call to upstream. [`health_check`]
//! decides whether upstream is asked at all and, if so, what is sent;
//! [`upstream_health_check`] reads what came back.

use crate::error::AppError;
use crate::error::AppErrorView;
use crate::error::lemma_reported_failure_has_reason;
use crate::error::outcome_view;
use crate::state::AppState;
use crate::triton::HealthCheckRequest;
use crate::triton::HealthCheckResponse;
use crate::triton::ServingStatus;
use crate::triton::UpstreamCall;
use crate::triton::telemetry::carried;
use crate::triton::telemetry::header_fields;
use crate::triton::telemetry::propagate_context;
use axum::http::HeaderMap;
use vstd::prelude::*;

verus! {

/// The request that asks upstream for the health of the server as a whole:
/// the service name is empty.
pub fn build_health_check_request() -> (request: HealthCheckRequest)
    ensures
        request.service@ == Seq::<char>::empty(),
{
    HealthCheckRequest { service: String::new() }
}

/// The call that probes upstream: the health request, with the trace context
/// of the inbound request as its metadata.
pub fn upstream_health_request(headers: &HeaderMap, keys: &Vec<String>) -> (call: UpstreamCall<
    HealthCheckRequest,
>)
    ensures
        call.message.service@ == Seq::<char>::empty(),
        call.metadata.deep_view() == carried(header_fields(*headers), keys.deep_view()),
{
    let mut call = UpstreamCall::new(build_health_check_request());
    propagate_context(&mut call, headers, keys);
    call
}

/// What a probe says about upstream. `outcome` is the status number that
/// upstream answered with, or the cause for which the call failed.
///
/// Only `Serving` is healthy. A failed call, a number outside the enumeration
/// and every other status are each their own failure.
pub open spec fn upstream_verdict(outcome: Result<int, Seq<char>>) -> Result<(), AppErrorView> {
    match outcome {
        Err(cause) => Err(AppErrorView::UpstreamUnreachable { cause }),
        Ok(number) => match ServingStatus::decode(number) {
            None => Err(AppErrorView::UpstreamProtocolError { code: number }),
            Some(ServingStatus::Serving) => Ok(()),
            Some(status) => Err(AppErrorView::UpstreamUnhealthy { status }),
        },
    }
}

/// The outcome of a probe as plain values.
pub open spec fn probe_view(outcome: Result<HealthCheckResponse, String>) -> Result<
    int,
    Seq<char>,
> {
    match outcome {
        Ok(response) => Ok(response.status as int),
        Err(cause) => Err(cause@),
    }
}

/// Reads the outcome of the probe: the reply of upstream, or the cause for
/// which the call failed.
pub fn upstream_health_check(outcome: Result<HealthCheckResponse, String>) -> (verdict: Result<
    (),
    AppError,
>)
    ensures
        outcome_view(verdict) == upstream_verdict(probe_view(outcome)),
{
    match outcome {
        Err(cause) => Err(AppError::UpstreamUnreachable { cause }),
        Ok(response) => match ServingStatus::from_i32(response.status) {
            None => Err(AppError::UpstreamProtocolError { code: response.status }),
            Some(status) => {
                if status.is_serving() {
                    Ok(())
                } else {
                    Err(AppError::UpstreamUnhealthy { status })
                }
            },
        },
    }
}

/// The check that asks nobody: always healthy.
pub fn no_op_health_check() -> (verdict: Result<(), AppError>)
    ensures
        verdict is Ok,
{
    Ok(())
}

/// The first step of a health check: an answer, or a call to make.
#[derive(Debug, PartialEq, Eq)]
pub enum HealthCheckStep {
    /// Answer now. No call to upstream is made.
    Respond(Result<(), AppError>),
    /// Send this call on the health channel and hand what comes back to
    /// [`upstream_health_check`].
    Probe(UpstreamCall<HealthCheckRequest>),
}

/// Begins a health check.
///
/// Where the operator has set `ignore_upstream_health`, the answer is healthy
/// at once and upstream is not called. Otherwise the step is the probe to
/// send, with the trace context of the inbound request.
pub fn health_check<GrpcClient, HealthClient, HistoryBuilder>(
    headers: &HeaderMap,
    state: &AppState<GrpcClient, HealthClient, HistoryBuilder>,
    keys: &Vec<String>,
) -> (step: HealthCheckStep)
    ensures
        state.ignore_upstream_health ==> step matches HealthCheckStep::Respond(Ok(_)),
        !state.ignore_upstream_health ==> (step matches HealthCheckStep::Probe(call)
            && call.message.service@ == Seq::<char>::empty() && call.metadata.deep_view()
            == carried(header_fields(*headers), keys.deep_view())),
{
    if state.ignore_upstream_health {
        HealthCheckStep::Respond(no_op_health_check())
    } else {
        HealthCheckStep::Probe(upstream_health_request(headers, keys))
    }
}

/// Upstream is healthy exactly when the probe was answered, and with the
/// number that stands for `Serving`.
pub proof fn lemma_healthy_iff_serving(outcome: Result<int, Seq<char>>)
    ensures
        upstream_verdict(outcome) is Ok <==> (outcome matches Ok(number) && ServingStatus::decode(
            number,
        ) == Some(ServingStatus::Serving)),
{
}

/// Whatever upstream answers other than `Serving`, be it another status or a
/// number outside the enumeration, the verdict is a failure whose diagnostic
/// is not empty.
pub proof fn lemma_unhealthy_answer_has_reason(number: int)
    requires
        ServingStatus::decode(number) != Some(ServingStatus::Serving),
    ensures
        upstream_verdict(Ok(number)) matches Err(error) && error.reason().len() > 0,
{
    match upstream_verdict(Ok(number)) {
        Err(error) => lemma_reported_failure_has_reason(error),
        Ok(_) => {},
    }
}

/// A call that fails in transport makes the check fail, with what the
/// transport reported as the diagnostic.
pub proof fn lemma_transport_failure_is_unhealthy(cause: Seq<char>)
    ensures
        upstream_verdict(Err(cause)) == Err::<(), AppErrorView>(
            AppErrorView::UpstreamUnreachable { cause },
        ),
        upstream_verdict(Err(cause)).unwrap_err().reason() == cause,
{
}

} // verus!
