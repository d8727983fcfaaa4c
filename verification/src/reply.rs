//! What the transport hands back, and how a record or an error is read from it.

use vstd::prelude::*;
use crate::decode::{seen, Record, ShapeFault};
use crate::json::{json_parse, parse_json, Json, JsonValue};

verus! {

/// The outcome of sending a request.
#[derive(Debug, PartialEq, Eq)]
pub enum Reply {
    /// The request could not be sent, or no response was received. The status is
    /// the one that the transport reports with its failure, if it reports one.
    Failed(Option<u16>),
    /// A response was received in full.
    Received { status: u16, body: String },
}

pub ghost enum ReplyView {
    Failed(Option<u16>),
    Received { status: u16, body: Seq<char> },
}

impl View for Reply {
    type V = ReplyView;

    open spec fn view(&self) -> ReplyView {
        match self {
            Reply::Failed(status) => ReplyView::Failed(*status),
            Reply::Received { status, body } => ReplyView::Received { status: *status, body: body@ },
        }
    }
}

/// Why the body of a response is not the record that was asked for.
#[derive(Debug, PartialEq, Eq)]
pub enum DecodeFault {
    /// The body is not JSON. The text is the parser's message.
    Syntax(String),
    /// The body is JSON of another shape.
    Shape(ShapeFault),
}

pub ghost enum DecodeFaultView {
    Syntax(Seq<char>),
    Shape(ShapeFault),
}

impl View for DecodeFault {
    type V = DecodeFaultView;

    open spec fn view(&self) -> DecodeFaultView {
        match self {
            DecodeFault::Syntax(message) => DecodeFaultView::Syntax(message@),
            DecodeFault::Shape(fault) => DecodeFaultView::Shape(*fault),
        }
    }
}

/// The three ways in which an operation fails.
#[derive(Debug, PartialEq, Eq)]
pub enum Error {
    /// The transport failed.
    TransportError(Option<u16>),
    /// The server answered with a status outside 200 to 299. The text is the body of
    /// its response, unchanged.
    ApiError(String),
    /// The server answered with success, and the body is not the record.
    DecodeError(DecodeFault),
}

pub ghost enum ErrorView {
    TransportError(Option<u16>),
    ApiError(Seq<char>),
    DecodeError(DecodeFaultView),
}

impl View for Error {
    type V = ErrorView;

    open spec fn view(&self) -> ErrorView {
        match self {
            Error::TransportError(status) => ErrorView::TransportError(*status),
            Error::ApiError(body) => ErrorView::ApiError(body@),
            Error::DecodeError(fault) => ErrorView::DecodeError(fault@),
        }
    }
}

/// A result with its value and its error replaced by their views.
pub open spec fn shown<T: View>(r: Result<T, Error>) -> Result<T::V, ErrorView> {
    match r {
        Ok(value) => Ok(value@),
        Err(error) => Err(error@),
    }
}

/// Whether a status reports success.
pub open spec fn is_success(status: u16) -> bool {
    200 <= status < 300
}

/// The body of a response that reports success, or the error that the reply stands
/// for.
pub open spec fn body_of(reply: ReplyView) -> Result<Seq<char>, ErrorView> {
    match reply {
        ReplyView::Failed(status) => Err(ErrorView::TransportError(status)),
        ReplyView::Received { status, body } => if is_success(status) {
            Ok(body)
        } else {
            Err(ErrorView::ApiError(body))
        },
    }
}

/// The record in a parsed body, or the error that says why there is none.
pub open spec fn record_of<T: Record>(parsed: Result<JsonValue, Seq<char>>) -> Result<
    T::V,
    ErrorView,
> {
    match parsed {
        Err(message) => Err(ErrorView::DecodeError(DecodeFaultView::Syntax(message))),
        Ok(json) => match T::of(json) {
            Err(fault) => Err(ErrorView::DecodeError(DecodeFaultView::Shape(fault))),
            Ok(record) => Ok(record),
        },
    }
}

/// What an operation returns for a reply.
pub open spec fn answer_of<T: Record>(reply: ReplyView) -> Result<T::V, ErrorView> {
    match body_of(reply) {
        Err(error) => Err(error),
        Ok(body) => record_of::<T>(json_parse(body)),
    }
}

/// A parsed text with the value replaced by its view.
pub open spec fn parsed_view(parsed: Result<Json, String>) -> Result<JsonValue, Seq<char>> {
    match parsed {
        Ok(json) => Ok(json@),
        Err(message) => Err(message@),
    }
}

/// Whether a status reports success.
pub fn status_is_success(status: u16) -> (b: bool)
    ensures
        b == is_success(status),
{
    200 <= status && status < 300
}

/// The body of a response that reports success, or the error that the reply stands
/// for.
pub fn read_body(reply: &Reply) -> (r: Result<&str, Error>)
    ensures
        shown(r) == body_of(reply@),
{
    match reply {
        Reply::Failed(status) => Err(Error::TransportError(*status)),
        Reply::Received { status, body } => {
            if status_is_success(*status) {
                Ok(body.as_str())
            } else {
                Err(Error::ApiError(body.clone()))
            }
        },
    }
}

/// Reads a record from a parsed body.
pub fn read_record<T: Record>(parsed: Result<Json, String>) -> (r: Result<T, Error>)
    ensures
        shown(r) == record_of::<T>(parsed_view(parsed)),
{
    match parsed {
        Err(message) => Err(Error::DecodeError(DecodeFault::Syntax(message))),
        Ok(json) => match T::decode(&json) {
            Err(fault) => Err(Error::DecodeError(DecodeFault::Shape(fault))),
            Ok(record) => Ok(record),
        },
    }
}

/// Reads the record that an operation returns from the reply to its request.
pub fn read<T: Record>(reply: &Reply) -> (r: Result<T, Error>)
    ensures
        shown(r) == answer_of::<T>(reply@),
{
    match read_body(reply) {
        Err(error) => Err(error),
        Ok(body) => read_record::<T>(parse_json(body)),
    }
}

/// A response whose status is outside 200 to 299 is an `ApiError` with the body of
/// the response, character for character, whatever the body holds and whatever
/// record was asked for.
pub proof fn failure_is_api_error<T: Record>(status: u16, body: Seq<char>)
    requires
        !is_success(status),
    ensures
        answer_of::<T>(ReplyView::Received { status, body }) == Err::<T::V, _>(
            ErrorView::ApiError(body),
        ),
{
}

/// A response that reports success gives the whole record or a `DecodeError`, and
/// nothing between: the parser's message where the body is not JSON, the fault of
/// its shape where it is JSON and not the record.
pub proof fn success_is_record_or_decode_error<T: Record>(status: u16, body: Seq<char>)
    requires
        is_success(status),
    ensures
        answer_of::<T>(ReplyView::Received { status, body }) == match json_parse(body) {
            Err(message) => Err::<T::V, _>(
                ErrorView::DecodeError(DecodeFaultView::Syntax(message)),
            ),
            Ok(json) => match T::of(json) {
                Err(fault) => Err(ErrorView::DecodeError(DecodeFaultView::Shape(fault))),
                Ok(record) => Ok(record),
            },
        },
{
}

/// A failure of the transport is a `TransportError` with the status that the
/// transport reported, if it reported one.
pub proof fn transport_failure_is_transport_error<T: Record>(status: Option<u16>)
    ensures
        answer_of::<T>(ReplyView::Failed(status)) == Err::<T::V, _>(
            ErrorView::TransportError(status),
        ),
{
}

} // verus!
