//! How a templating error is answered over gRPC: user mistakes are invalid
//! arguments, absent objects are not found, unusable objects and templates
//! are failed preconditions, and API failures are internal errors.
use vstd::prelude::*;

use tonic::Status;

use crate::user_data::{error_message, RenderError, RenderErrorView};

verus! {

/// `tonic::Status`, a gRPC status.
#[verifier::external_type_specification]
#[verifier::external_body]
pub struct ExGrpcStatus(tonic::Status);

/// The status that `Status::invalid_argument` makes of a message.
pub uninterp spec fn grpc_invalid_argument(message: Seq<char>) -> Status;

/// The status that `Status::not_found` makes of a message.
pub uninterp spec fn grpc_not_found(message: Seq<char>) -> Status;

/// The status that `Status::failed_precondition` makes of a message.
pub uninterp spec fn grpc_failed_precondition(message: Seq<char>) -> Status;

/// The status that `Status::internal` makes of a message.
pub uninterp spec fn grpc_internal(message: Seq<char>) -> Status;

/// Calls `tonic::Status::invalid_argument`; the contract claims only that
/// the result is the status named by [`grpc_invalid_argument`].
#[verifier::external_body]
fn invalid_argument(message: String) -> (s: Status)
    ensures
        s == grpc_invalid_argument(message@),
{
    Status::invalid_argument(message)
}

/// Calls `tonic::Status::not_found`; the contract claims only that the
/// result is the status named by [`grpc_not_found`].
#[verifier::external_body]
fn not_found(message: String) -> (s: Status)
    ensures
        s == grpc_not_found(message@),
{
    Status::not_found(message)
}

/// Calls `tonic::Status::failed_precondition`; the contract claims only that
/// the result is the status named by [`grpc_failed_precondition`].
#[verifier::external_body]
fn failed_precondition(message: String) -> (s: Status)
    ensures
        s == grpc_failed_precondition(message@),
{
    Status::failed_precondition(message)
}

/// Calls `tonic::Status::internal`; the contract claims only that the result
/// is the status named by [`grpc_internal`].
#[verifier::external_body]
fn internal(message: String) -> (s: Status)
    ensures
        s == grpc_internal(message@),
{
    Status::internal(message)
}

/// The gRPC code an error is answered with.
#[derive(Debug, Clone, Copy, PartialEq, Eq, Structural)]
pub enum StatusClass {
    InvalidArgument,
    NotFound,
    FailedPrecondition,
    Internal,
}

/// Which code answers which error.
pub open spec fn status_class(e: RenderErrorView) -> StatusClass {
    match e {
        RenderErrorView::ReservedName(_)
        | RenderErrorView::AmbiguousSource(_)
        | RenderErrorView::MissingSource(_)
        | RenderErrorView::AmbiguousValueFrom(_)
        | RenderErrorView::EmptyValueFrom(_) => StatusClass::InvalidArgument,
        RenderErrorView::SecretNotFound { .. }
        | RenderErrorView::ConfigMapNotFound { .. } => StatusClass::NotFound,
        RenderErrorView::SecretMissingKey { .. }
        | RenderErrorView::ConfigMapMissingKey { .. }
        | RenderErrorView::SecretNotUtf8 { .. }
        | RenderErrorView::Template(_) => StatusClass::FailedPrecondition,
        RenderErrorView::Kube(_) => StatusClass::Internal,
    }
}

/// The status an error is answered with: its code, and its message.
pub open spec fn status_for(e: RenderErrorView) -> Status {
    let m = error_message(e);
    match status_class(e) {
        StatusClass::InvalidArgument => grpc_invalid_argument(m),
        StatusClass::NotFound => grpc_not_found(m),
        StatusClass::FailedPrecondition => grpc_failed_precondition(m),
        StatusClass::Internal => grpc_internal(m),
    }
}

impl RenderError {
    /// The gRPC code this error is answered with.
    pub fn status_class(&self) -> (c: StatusClass)
        ensures
            c == status_class(self@),
    {
        match self {
            RenderError::ReservedName(_)
            | RenderError::AmbiguousSource(_)
            | RenderError::MissingSource(_)
            | RenderError::AmbiguousValueFrom(_)
            | RenderError::EmptyValueFrom(_) => StatusClass::InvalidArgument,
            RenderError::SecretNotFound { .. }
            | RenderError::ConfigMapNotFound { .. } => StatusClass::NotFound,
            RenderError::SecretMissingKey { .. }
            | RenderError::ConfigMapMissingKey { .. }
            | RenderError::SecretNotUtf8 { .. }
            | RenderError::Template(_) => StatusClass::FailedPrecondition,
            RenderError::Kube(_) => StatusClass::Internal,
        }
    }
}

impl From<RenderError> for Status {
    fn from(e: RenderError) -> (s: Status) {
        let m = e.message();
        match e.status_class() {
            StatusClass::InvalidArgument => invalid_argument(m),
            StatusClass::NotFound => not_found(m),
            StatusClass::FailedPrecondition => failed_precondition(m),
            StatusClass::Internal => internal(m),
        }
    }
}

impl vstd::std_specs::convert::FromSpecImpl<RenderError> for Status {
    open spec fn obeys_from_spec() -> bool {
        true
    }

    open spec fn from_spec(v: RenderError) -> Status {
        status_for(v@)
    }
}

/// Faulty template variables are the user's mistakes, answered as invalid
/// arguments.
pub proof fn law_variable_faults_are_invalid_arguments(v: crate::crd::TemplateVariable)
    requires
        crate::user_data::variable_fault(v) is Some,
    ensures
        status_class(crate::user_data::variable_fault(v).unwrap()) == StatusClass::InvalidArgument,
{
}

/// Absent objects are not found, API failures are internal errors, and
/// unusable objects and templates are failed preconditions; every status
/// carries the error's own message.
pub proof fn law_status_by_error_kind(e: RenderErrorView)
    ensures
        status_class(e) == StatusClass::NotFound <==> (e is SecretNotFound || e is ConfigMapNotFound),
        status_class(e) == StatusClass::Internal <==> e is Kube,
        status_class(e) == StatusClass::FailedPrecondition <==> (e is SecretMissingKey
            || e is ConfigMapMissingKey || e is SecretNotUtf8 || e is Template),
        status_class(e) == StatusClass::InvalidArgument <==> (e is ReservedName || e is MissingSource
            || e is AmbiguousSource || e is AmbiguousValueFrom || e is EmptyValueFrom),
        status_for(e) == grpc_invalid_argument(error_message(e)) || status_for(e) == grpc_not_found(
            error_message(e),
        ) || status_for(e) == grpc_failed_precondition(error_message(e)) || status_for(e)
            == grpc_internal(error_message(e)),
{
}

} // verus!
