//! Errors of the runtime-file update, and how they are answered.

use vstd::prelude::*;
use crate::runtimefiles::response::{
    ApiErrorResponse, Body, Response, BAD_REQUEST, CONFLICT, FORBIDDEN, INTERNAL_SERVER_ERROR,
    NOT_FOUND,
};
use crate::text::{
    decimal, decimal_text, decimal_value, is_digit, lemma_decimal_is_digits,
    lemma_decimal_reads_back,
};

verus! {

/// What can go wrong with a runtime-file update.
#[derive(Debug)]
pub enum RuntimeUpdateError {
    OperationsInProgress(String),
    LockConflict(String),
    ExecutionConflict,
    TransactionBusy,
    NoPendingUpdate,
    NoBackup,
    FileNotFound(String),
    InvalidMddFile(String),
    InvalidConfig(String),
    InvalidFileType(String),
    ValidationFailed(String),
    StorageError(String),
    ReloadFailed(String),
    NoLock(String),
    SevereError(String),
    FatalError(String),
}

/// SOVD error codes that these endpoints answer with.
#[derive(Clone, Copy, Debug, PartialEq, Eq, Structural)]
pub enum ErrorCode {
    PreconditionsNotFulfilled,
    UpdateProcessInProgress,
    VendorSpecific,
    SovdServerFailure,
    InsufficientAccessRights,
}

/// Vendor codes that these endpoints answer with.
#[derive(Clone, Copy, Debug, PartialEq, Eq, Structural)]
pub enum VendorErrorCode {
    StorageTransactionBusy,
    NotFound,
    InvalidData,
    SevereError,
    FatalError,
}

impl RuntimeUpdateError {
    /// The request conflicts with something that is going on.
    pub open spec fn is_conflict(self) -> bool {
        ||| self is OperationsInProgress
        ||| self is LockConflict
        ||| self is ExecutionConflict
        ||| self is TransactionBusy
    }

    /// Something that the request names does not exist.
    pub open spec fn is_missing(self) -> bool {
        self is NoPendingUpdate || self is NoBackup || self is FileNotFound
    }

    /// The request carries data that cannot be used.
    pub open spec fn is_bad_data(self) -> bool {
        ||| self is InvalidMddFile
        ||| self is InvalidConfig
        ||| self is InvalidFileType
        ||| self is ValidationFailed
    }

    /// The HTTP status of the answer.
    pub open spec fn status(self) -> u16 {
        if self.is_conflict() {
            CONFLICT
        } else if self.is_missing() {
            NOT_FOUND
        } else if self.is_bad_data() {
            BAD_REQUEST
        } else if self is NoLock {
            FORBIDDEN
        } else {
            INTERNAL_SERVER_ERROR
        }
    }

    /// The vendor code of the answer. Only some errors have one.
    pub open spec fn vendor_code(self) -> Option<VendorErrorCode> {
        if self is TransactionBusy {
            Some(VendorErrorCode::StorageTransactionBusy)
        } else if self.is_missing() {
            Some(VendorErrorCode::NotFound)
        } else if self.is_bad_data() {
            Some(VendorErrorCode::InvalidData)
        } else if self is SevereError {
            Some(VendorErrorCode::SevereError)
        } else if self is FatalError {
            Some(VendorErrorCode::FatalError)
        } else {
            None
        }
    }

    /// The SOVD error code of the answer.
    pub open spec fn error_code(self) -> ErrorCode {
        if self.vendor_code() is Some {
            ErrorCode::VendorSpecific
        } else if self is ExecutionConflict {
            ErrorCode::UpdateProcessInProgress
        } else if self.is_conflict() {
            ErrorCode::PreconditionsNotFulfilled
        } else if self is NoLock {
            ErrorCode::InsufficientAccessRights
        } else {
            ErrorCode::SovdServerFailure
        }
    }
}

/// An error that is to be answered: the error, its text, and the delay after which a
/// client may try again.
#[derive(Debug)]
pub struct DbUpdateErrorResponse {
    pub error: RuntimeUpdateError,
    pub message: String,
    pub retry_after_seconds: u64,
}

impl DbUpdateErrorResponse {
    pub fn new(error: RuntimeUpdateError, message: String, retry_after_seconds: u64) -> (r: Self)
        ensures
            r.error == error,
            r.message == message,
            r.retry_after_seconds == retry_after_seconds,
    {
        DbUpdateErrorResponse { error, message, retry_after_seconds }
    }

    /// `response` is the answer to this error.
    pub open spec fn answered_by<T>(self, response: Response<T>) -> bool {
        &&& response.status == self.error.status()
        &&& response.body == Body::<T>::Error(
            ApiErrorResponse {
                message: self.message,
                error_code: self.error.error_code(),
                vendor_code: self.error.vendor_code(),
                parameters: None,
                error_source: None,
                schema: None,
            },
        )
        &&& if self.error is TransactionBusy {
            response.retry_after matches Some(text) && text@ == decimal(
                self.retry_after_seconds as nat,
            )
        } else {
            response.retry_after is None
        }
    }

    /// The answer to this error. A client is told when to try again only where the
    /// storage is busy; the header then holds digits only.
    pub fn into_response<T>(self) -> (r: Response<T>)
        ensures
            self.answered_by(r),
            r.retry_after matches Some(text) ==> text@.len() >= 1 && forall|i: int|
                0 <= i < text@.len() ==> is_digit(#[trigger] text@[i]),
            self.error is OperationsInProgress
                || self.error is LockConflict
                ==> r.status == 409 && (r.body matches Body::Error(body)
                && body.error_code == ErrorCode::PreconditionsNotFulfilled
                && body.vendor_code == None::<VendorErrorCode>),
            self.error is ExecutionConflict ==> r.status == 409 && (r.body matches Body::Error(body)
                && body.error_code == ErrorCode::UpdateProcessInProgress
                && body.vendor_code == None::<VendorErrorCode>),
            self.error is TransactionBusy ==> r.status == 409 && (r.body matches Body::Error(body)
                && body.error_code == ErrorCode::VendorSpecific
                && body.vendor_code == Some(VendorErrorCode::StorageTransactionBusy)),
            self.error is NoPendingUpdate
                || self.error is NoBackup
                || self.error is FileNotFound
                ==> r.status == 404 && (r.body matches Body::Error(body)
                && body.error_code == ErrorCode::VendorSpecific
                && body.vendor_code == Some(VendorErrorCode::NotFound)),
            self.error is InvalidMddFile
                || self.error is InvalidConfig
                || self.error is InvalidFileType
                || self.error is ValidationFailed
                ==> r.status == 400 && (r.body matches Body::Error(body)
                && body.error_code == ErrorCode::VendorSpecific
                && body.vendor_code == Some(VendorErrorCode::InvalidData)),
            self.error is StorageError
                || self.error is ReloadFailed
                ==> r.status == 500 && (r.body matches Body::Error(body)
                && body.error_code == ErrorCode::SovdServerFailure
                && body.vendor_code == None::<VendorErrorCode>),
            self.error is NoLock ==> r.status == 403 && (r.body matches Body::Error(body)
                && body.error_code == ErrorCode::InsufficientAccessRights
                && body.vendor_code == None::<VendorErrorCode>),
            self.error is SevereError ==> r.status == 500 && (r.body matches Body::Error(body)
                && body.error_code == ErrorCode::VendorSpecific
                && body.vendor_code == Some(VendorErrorCode::SevereError)),
            self.error is FatalError ==> r.status == 500 && (r.body matches Body::Error(body)
                && body.error_code == ErrorCode::VendorSpecific
                && body.vendor_code == Some(VendorErrorCode::FatalError)),
            r.body matches Body::Error(body) && body.message == self.message
                && body.parameters is None
                && body.error_source is None && body.schema is None,
            self.error is TransactionBusy ==> (r.retry_after matches Some(text)
                && text@.len() >= 1 && decimal_value(text@) == self.retry_after_seconds
                && (text@[0] == '0' ==> text@.len() == 1) && forall|i: int|
                    0 <= i < text@.len() ==> '0' <= #[trigger] text@[i] <= '9'),
            self.error !is TransactionBusy ==> r.retry_after is None,
    {
        let (status, error_code, vendor_code, retry): (
            u16,
            ErrorCode,
            Option<VendorErrorCode>,
            Option<u64>,
        ) = match &self.error {
            RuntimeUpdateError::OperationsInProgress(_) | RuntimeUpdateError::LockConflict(_) => (
                CONFLICT,
                ErrorCode::PreconditionsNotFulfilled,
                None,
                None,
            ),
            RuntimeUpdateError::ExecutionConflict => (
                CONFLICT,
                ErrorCode::UpdateProcessInProgress,
                None,
                None,
            ),
            RuntimeUpdateError::TransactionBusy => (
                CONFLICT,
                ErrorCode::VendorSpecific,
                Some(VendorErrorCode::StorageTransactionBusy),
                Some(self.retry_after_seconds),
            ),
            RuntimeUpdateError::NoPendingUpdate
            | RuntimeUpdateError::NoBackup
            | RuntimeUpdateError::FileNotFound(_) => (
                NOT_FOUND,
                ErrorCode::VendorSpecific,
                Some(VendorErrorCode::NotFound),
                None,
            ),
            RuntimeUpdateError::InvalidMddFile(_)
            | RuntimeUpdateError::InvalidConfig(_)
            | RuntimeUpdateError::InvalidFileType(_)
            | RuntimeUpdateError::ValidationFailed(_) => (
                BAD_REQUEST,
                ErrorCode::VendorSpecific,
                Some(VendorErrorCode::InvalidData),
                None,
            ),
            RuntimeUpdateError::StorageError(_) | RuntimeUpdateError::ReloadFailed(_) => (
                INTERNAL_SERVER_ERROR,
                ErrorCode::SovdServerFailure,
                None,
                None,
            ),
            RuntimeUpdateError::NoLock(_) => (
                FORBIDDEN,
                ErrorCode::InsufficientAccessRights,
                None,
                None,
            ),
            RuntimeUpdateError::SevereError(_) => (
                INTERNAL_SERVER_ERROR,
                ErrorCode::VendorSpecific,
                Some(VendorErrorCode::SevereError),
                None,
            ),
            RuntimeUpdateError::FatalError(_) => (
                INTERNAL_SERVER_ERROR,
                ErrorCode::VendorSpecific,
                Some(VendorErrorCode::FatalError),
                None,
            ),
        };
        proof {
            lemma_decimal_is_digits(self.retry_after_seconds as nat);
            lemma_decimal_reads_back(self.retry_after_seconds as nat);
        }
        let retry_after: Option<String> = match retry {
            Some(seconds) => Some(decimal_text(seconds)),
            None => None,
        };
        Response {
            status,
            retry_after,
            body: Body::Error(
                ApiErrorResponse {
                    message: self.message,
                    error_code,
                    vendor_code,
                    parameters: None,
                    error_source: None,
                    schema: None,
                },
            ),
        }
    }
}

/// Every error is answered with a client or server error status, and a vendor code is
/// given exactly where the error code says so.
pub proof fn lemma_error_codes_agree(error: RuntimeUpdateError)
    ensures
        400 <= error.status() < 600,
        error.error_code() == ErrorCode::VendorSpecific <==> error.vendor_code() is Some,
{
}

/// How each error is answered: with which status, error code and vendor code, and with
/// the text of the error. Where the storage is busy, the digits of the `Retry-After`
/// header read as the configured delay in seconds; no other answer has that header.
pub proof fn lemma_answer_of_each_error<T>(refusal: DbUpdateErrorResponse, answer: Response<T>)
    requires
        refusal.answered_by(answer),
    ensures
        refusal.error is OperationsInProgress
            || refusal.error is LockConflict
            ==> answer.status == 409 && (answer.body matches Body::Error(body)
            && body.error_code == ErrorCode::PreconditionsNotFulfilled
            && body.vendor_code == None::<VendorErrorCode>),
        refusal.error is ExecutionConflict
            ==> answer.status == 409 && (answer.body matches Body::Error(body)
            && body.error_code == ErrorCode::UpdateProcessInProgress
            && body.vendor_code == None::<VendorErrorCode>),
        refusal.error is TransactionBusy
            ==> answer.status == 409 && (answer.body matches Body::Error(body)
            && body.error_code == ErrorCode::VendorSpecific
            && body.vendor_code == Some(VendorErrorCode::StorageTransactionBusy)),
        refusal.error is NoPendingUpdate
            || refusal.error is NoBackup
            || refusal.error is FileNotFound
            ==> answer.status == 404 && (answer.body matches Body::Error(body)
            && body.error_code == ErrorCode::VendorSpecific
            && body.vendor_code == Some(VendorErrorCode::NotFound)),
        refusal.error is InvalidMddFile
            || refusal.error is InvalidConfig
            || refusal.error is InvalidFileType
            || refusal.error is ValidationFailed
            ==> answer.status == 400 && (answer.body matches Body::Error(body)
            && body.error_code == ErrorCode::VendorSpecific
            && body.vendor_code == Some(VendorErrorCode::InvalidData)),
        refusal.error is StorageError
            || refusal.error is ReloadFailed
            ==> answer.status == 500 && (answer.body matches Body::Error(body)
            && body.error_code == ErrorCode::SovdServerFailure
            && body.vendor_code == None::<VendorErrorCode>),
        refusal.error is NoLock
            ==> answer.status == 403 && (answer.body matches Body::Error(body)
            && body.error_code == ErrorCode::InsufficientAccessRights
            && body.vendor_code == None::<VendorErrorCode>),
        refusal.error is SevereError
            ==> answer.status == 500 && (answer.body matches Body::Error(body)
            && body.error_code == ErrorCode::VendorSpecific
            && body.vendor_code == Some(VendorErrorCode::SevereError)),
        refusal.error is FatalError
            ==> answer.status == 500 && (answer.body matches Body::Error(body)
            && body.error_code == ErrorCode::VendorSpecific
            && body.vendor_code == Some(VendorErrorCode::FatalError)),
        answer.body matches Body::Error(body) && body.message == refusal.message
                && body.parameters is None
            && body.error_source is None && body.schema is None,
        refusal.error is TransactionBusy ==> (answer.retry_after matches Some(text)
            && text@.len() >= 1 && decimal_value(text@) == refusal.retry_after_seconds
            && (text@[0] == '0' ==> text@.len() == 1) && forall|i: int|
                0 <= i < text@.len() ==> '0' <= #[trigger] text@[i] <= '9'),
        refusal.error !is TransactionBusy ==> answer.retry_after is None,
{
    lemma_decimal_is_digits(refusal.retry_after_seconds as nat);
    lemma_decimal_reads_back(refusal.retry_after_seconds as nat);
    if let Some(text) = answer.retry_after {
        assert forall|i: int| 0 <= i < text@.len() implies '0' <= #[trigger] text@[i] <= '9' by {
            assert(is_digit(text@[i]));
        }
    }
}

/// Clients that are told to come back after different delays get different headers.
pub proof fn lemma_delays_differ<T>(
    a: DbUpdateErrorResponse,
    b: DbUpdateErrorResponse,
    to_a: Response<T>,
    to_b: Response<T>,
)
    requires
        a.answered_by(to_a),
        b.answered_by(to_b),
        to_a.retry_after is Some,
        to_b.retry_after is Some,
        to_a.retry_after->0@ == to_b.retry_after->0@,
    ensures
        a.retry_after_seconds == b.retry_after_seconds,
{
    lemma_answer_of_each_error(a, to_a);
    lemma_answer_of_each_error(b, to_b);
}

} // verus!
