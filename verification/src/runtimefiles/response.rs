//! Answers of the runtime-file endpoints.

use vstd::prelude::*;
use crate::runtimefiles::error::{DbUpdateErrorResponse, ErrorCode, VendorErrorCode};
use crate::text::decimal_value;

verus! {

pub const OK: u16 = 200;

pub const CREATED: u16 = 201;

pub const ACCEPTED: u16 = 202;

pub const NO_CONTENT: u16 = 204;

pub const BAD_REQUEST: u16 = 400;

pub const FORBIDDEN: u16 = 403;

pub const NOT_FOUND: u16 = 404;

pub const CONFLICT: u16 = 409;

pub const INTERNAL_SERVER_ERROR: u16 = 500;

/// The body of an answer that reports an error.
#[derive(Debug)]
pub struct ApiErrorResponse {
    pub message: String,
    pub error_code: ErrorCode,
    pub vendor_code: Option<VendorErrorCode>,
    pub parameters: Option<String>,
    pub error_source: Option<String>,
    pub schema: Option<String>,
}

/// The body of an answer.
#[derive(Debug)]
pub enum Body<T> {
    Empty,
    Data(T),
    Error(ApiErrorResponse),
}

/// An answer: the HTTP status, the value of the `Retry-After` header where there is
/// one, and the body.
#[derive(Debug)]
pub struct Response<T> {
    pub status: u16,
    pub retry_after: Option<String>,
    pub body: Body<T>,
}

impl<T> Response<T> {
    /// A plain answer with this status and body.
    pub open spec fn is_plain(self, status: u16, body: Body<T>) -> bool {
        self.status == status && self.retry_after is None && self.body == body
    }
}

fn plain<T>(status: u16, body: Body<T>) -> (r: Response<T>)
    ensures
        r.is_plain(status, body),
{
    Response { status, retry_after: None, body }
}

/// A list of files, with the schema of the list where it was asked for.
#[derive(Debug)]
pub struct BulkDataList<Items, Schema> {
    pub items: Items,
    pub schema: Option<Schema>,
}

/// The answer to a listing: the list, with the schema put in where it was asked for.
pub fn bulk_data_list_response<Items, Schema>(
    list: BulkDataList<Items, Schema>,
    include_schema: bool,
    schema: Schema,
) -> (r: Response<BulkDataList<Items, Schema>>)
    ensures
        r.is_plain(
            OK,
            Body::Data(
                BulkDataList {
                    items: list.items,
                    schema: if include_schema {
                        Some(schema)
                    } else {
                        list.schema
                    },
                },
            ),
        ),
        r.status == 200,
        r.retry_after is None,
        r.body matches Body::Data(sent) && sent.items == list.items && (include_schema
            ==> sent.schema == Some(schema)) && (!include_schema ==> sent.schema == list.schema),
{
    let mut list: BulkDataList<Items, Schema> = list;
    if include_schema {
        list.schema = Some(schema);
    }
    plain(OK, Body::Data(list))
}

/// The answer to a request for one of the three file lists.
pub fn list_response<Items, Schema>(
    listed: Result<BulkDataList<Items, Schema>, DbUpdateErrorResponse>,
    include_schema: bool,
    schema: Schema,
) -> (r: Response<BulkDataList<Items, Schema>>)
    ensures
        match listed {
            Err(error) => error.answered_by(r),
            Ok(list) => r.is_plain(
                OK,
                Body::Data(
                    BulkDataList {
                        items: list.items,
                        schema: if include_schema {
                            Some(schema)
                        } else {
                            list.schema
                        },
                    },
                ),
            ),
        },
        listed matches Err(error) ==> (error.error is TransactionBusy ==> (
        r.retry_after matches Some(text) && text@.len() >= 1 && decimal_value(text@)
            == error.retry_after_seconds)) && (error.error !is TransactionBusy
            ==> r.retry_after is None) && (r.body matches Body::Error(body) && body.message
            == error.message),
        listed is Err ==> 400 <= r.status < 600,
        listed matches Ok(list) ==> r.status == 200 && r.retry_after is None && (
        r.body matches Body::Data(sent) && sent.items == list.items && (include_schema
            ==> sent.schema == Some(schema)) && (!include_schema ==> sent.schema == list.schema)),
{
    match listed {
        Err(error) => error.into_response(),
        Ok(list) => bulk_data_list_response(list, include_schema, schema),
    }
}

/// The answer to an upload.
pub fn upload_response<T>(uploaded: Result<T, DbUpdateErrorResponse>) -> (r: Response<T>)
    ensures
        match uploaded {
            Err(error) => error.answered_by(r),
            Ok(result) => r.is_plain(CREATED, Body::Data(result)),
        },
        uploaded matches Err(error) ==> (error.error is TransactionBusy ==> (
        r.retry_after matches Some(text) && text@.len() >= 1 && decimal_value(text@)
            == error.retry_after_seconds)) && (error.error !is TransactionBusy
            ==> r.retry_after is None) && (r.body matches Body::Error(body) && body.message
            == error.message),
        uploaded is Err ==> 400 <= r.status < 600,
        uploaded matches Ok(result) ==> r.status == 201 && r.retry_after is None && r.body
            == Body::Data(result),
{
    match uploaded {
        Err(error) => error.into_response(),
        Ok(result) => plain(CREATED, Body::Data(result)),
    }
}

/// The answer to a deletion.
pub fn delete_response<T>(deleted: Result<(), DbUpdateErrorResponse>) -> (r: Response<T>)
    ensures
        match deleted {
            Err(error) => error.answered_by(r),
            Ok(_) => r.is_plain(NO_CONTENT, Body::Empty),
        },
        deleted matches Err(error) ==> (error.error is TransactionBusy ==> (
        r.retry_after matches Some(text) && text@.len() >= 1 && decimal_value(text@)
            == error.retry_after_seconds)) && (error.error !is TransactionBusy
            ==> r.retry_after is None) && (r.body matches Body::Error(body) && body.message
            == error.message),
        deleted is Err ==> 400 <= r.status < 600,
        deleted is Ok ==> r.status == 204 && r.retry_after is None && r.body is Empty,
{
    match deleted {
        Err(error) => error.into_response(),
        Ok(_) => plain(NO_CONTENT, Body::Empty),
    }
}

/// The body of the answer to a started execution.
#[derive(Debug)]
pub struct ExecutionCreatedResponse<Id> {
    pub id: Id,
}

/// The answer to a request to start an execution.
pub fn start_response<Id>(started: Result<Id, DbUpdateErrorResponse>) -> (r: Response<
    ExecutionCreatedResponse<Id>,
>)
    ensures
        match started {
            Err(error) => error.answered_by(r),
            Ok(id) => r.is_plain(ACCEPTED, Body::Data(ExecutionCreatedResponse { id })),
        },
        started matches Err(error) ==> (error.error is TransactionBusy ==> (
        r.retry_after matches Some(text) && text@.len() >= 1 && decimal_value(text@)
            == error.retry_after_seconds)) && (error.error !is TransactionBusy
            ==> r.retry_after is None) && (r.body matches Body::Error(body) && body.message
            == error.message),
        started is Err ==> 400 <= r.status < 600,
        started matches Ok(id) ==> r.status == 202 && r.retry_after is None && (
        r.body matches Body::Data(created) && created.id == id),
{
    match started {
        Err(error) => error.into_response(),
        Ok(id) => plain(ACCEPTED, Body::Data(ExecutionCreatedResponse { id })),
    }
}

/// A list of executions, with the schema of the list where it was asked for.
#[derive(Debug)]
pub struct ExecutionListResponse<Item, Schema> {
    pub items: Vec<Item>,
    pub schema: Option<Schema>,
}

/// The answer to a request for the executions.
pub fn execution_list_response<Item, Schema>(
    items: Vec<Item>,
    include_schema: bool,
    schema: Schema,
) -> (r: Response<ExecutionListResponse<Item, Schema>>)
    ensures
        r.is_plain(
            OK,
            Body::Data(
                ExecutionListResponse {
                    items,
                    schema: if include_schema {
                        Some(schema)
                    } else {
                        None
                    },
                },
            ),
        ),
        r.status == 200,
        r.retry_after is None,
        r.body matches Body::Data(list) && list.items == items && (include_schema ==> list.schema
            == Some(schema)) && (!include_schema ==> list.schema is None),
{
    let schema: Option<Schema> = if include_schema {
        Some(schema)
    } else {
        None
    };
    plain(OK, Body::Data(ExecutionListResponse { items, schema }))
}

/// The status of one execution, with the schema where it was asked for.
#[derive(Debug)]
pub struct ExecutionResponse<Status, Schema> {
    pub status: Status,
    pub schema: Option<Schema>,
}

/// The answer to a request for one execution. An execution that does not exist is
/// answered without a body.
pub fn execution_status_response<Status, Schema>(
    found: Option<ExecutionResponse<Status, Schema>>,
    include_schema: bool,
    schema: Schema,
) -> (r: Response<ExecutionResponse<Status, Schema>>)
    ensures
        match found {
            None => r.is_plain(NOT_FOUND, Body::Empty),
            Some(execution) => r.is_plain(
                OK,
                Body::Data(
                    ExecutionResponse {
                        status: execution.status,
                        schema: if include_schema {
                            Some(schema)
                        } else {
                            execution.schema
                        },
                    },
                ),
            ),
        },
        found is None ==> r.status == 404 && r.retry_after is None && r.body is Empty,
        found matches Some(execution) ==> r.status == 200 && r.retry_after is None && (
        r.body matches Body::Data(sent) && sent.status == execution.status && (include_schema
            ==> sent.schema == Some(schema)) && (!include_schema ==> sent.schema
            == execution.schema)),
{
    match found {
        None => plain(NOT_FOUND, Body::Empty),
        Some(execution) => {
            let mut execution: ExecutionResponse<Status, Schema> = execution;
            if include_schema {
                execution.schema = Some(schema);
            }
            plain(OK, Body::Data(execution))
        },
    }
}

} // verus!
